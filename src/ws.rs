//! The hub: registry of connected clients, canonical table, and the rules
//! that turn connect, disconnect and client events into state changes and
//! deliveries.
use vstd::prelude::*;
use vstd::set_lib::{lemma_int_range, lemma_len_subset, set_int_range};
use crate::notification::{
    Delivery, Message, Notification, NotificationView, copy_notes, delivers, notes_view,
};
use crate::table::{
    Component, Hand, copy_components, copy_hands, create_components, is_seed, may_move,
    number_down, number_up, with_number, with_opened, with_position, with_selected,
};

verus! {

/// Why the hub dropped an event without changing anything.
#[derive(Debug, Clone, Copy, PartialEq, Eq, Structural)]
pub enum HubError {
    /// The event names a component that the table does not have.
    InvalidComponentId,
    /// A player tried to move a component that another player owns.
    NotOwner,
    /// The event comes from an identity that is not connected.
    UnknownPlayer,
    /// The client's payload did not decode into a notification.
    MalformedMessage,
    /// The identity asked for is already connected.
    IdentityInUse,
    /// No further player number can be counted.
    TableFull,
}

/// A client's connection has ended.
pub struct Disconnect {
    pub id: u32,
}

/// A payload from a connected client; `msg` is `None` where it did not
/// decode into a notification.
pub struct ClientMessage {
    pub id: u32,
    pub msg: Option<Notification>,
}

/// The hub's state. `players` lists the connected identities in the order
/// they connected; `hands[k]` is the hand of `players[k]`.
pub struct WsActor {
    pub players: Vec<u32>,
    pub hands: Vec<Hand>,
    pub components: Vec<Component>,
}

/// How many fresh identities a connect draws before it gives up.
pub const ID_DRAWS: usize = 16;

/// Relies on rand::random: an arbitrary `u32`, nothing known of it.
#[verifier::external_body]
fn random_id() -> (r: u32) {
    rand::random::<u32>()
}

/// The 1-based position of `id` in `players`: its player number.
pub open spec fn player_number(players: Seq<u32>, id: u32) -> int {
    players.index_of(id) + 1
}

/// The identities of `players` other than `id`, in order.
pub open spec fn others(players: Seq<u32>, id: u32) -> Seq<u32> {
    players.filter(|p: u32| p != id)
}

/// `ds` tells each of `players` its own player number, in order.
pub open spec fn renumbers(ds: Seq<Delivery>, players: Seq<u32>) -> bool {
    &&& ds.len() == players.len()
    &&& forall|j: int|
        0 <= j < ds.len() ==> #[trigger] ds[j]@ == (
            players[j],
            seq![NotificationView::PlayerNumber { player_number: (j + 1) as usize }],
        )
}

/// In a list without duplicates, `index_of` finds the one position of a value.
pub proof fn lemma_index_of_unique(s: Seq<u32>, k: int)
    requires
        s.no_duplicates(),
        0 <= k < s.len(),
    ensures
        s.index_of(s[k]) == k,
{
    assert(s.contains(s[k]));
}

/// The outcome of turning component `id` into `c`: done and `c` returned
/// where the table has such a component, else refused with nothing changed.
pub open spec fn component_outcome(
    before: WsActor,
    after: WsActor,
    id: usize,
    c: Component,
    r: Result<Component, HubError>,
) -> bool {
    if id < before.components@.len() {
        &&& r == Ok::<Component, HubError>(c)
        &&& WsActor::only_component(before, after, id, c)
    } else {
        &&& r == Err::<Component, HubError>(HubError::InvalidComponentId)
        &&& after == before
    }
}

/// Component `id` of `w` as it stands (arbitrary where there is none).
pub open spec fn component_at(w: WsActor, id: usize) -> Component {
    w.components@[id as int]
}

/// `after` and `ds` are what connecting `id` to `before` gives: `id` is the
/// next player, with a hand at the origin; it learns its number and the whole
/// table, then every client, itself included, learns of the new player.
pub open spec fn connected(before: WsActor, after: WsActor, id: u32, ds: Seq<Delivery>) -> bool {
    let n = (before.players@.len() + 1) as usize;
    let hand = Hand { id: n, x: 0, y: 0 };
    &&& after.players@ == before.players@.push(id)
    &&& after.hands@ == before.hands@.push(hand)
    &&& after.components@ == before.components@
    &&& ds.len() == after.players@.len() + 1
    &&& ds[0]@ == (
        id,
        seq![
            NotificationView::PlayerNumber { player_number: n },
            NotificationView::SetComponents { components: before.components@ },
            NotificationView::SetHands { hands: after.hands@ },
        ],
    )
    &&& delivers(
        ds.subrange(1, ds.len() as int),
        after.players@,
        seq![NotificationView::ConnectPlayer { player_number: n, hand }],
    )
}

/// `after` and `ds` are what the disconnect of `id` from `before` gives.
/// Where `id` is connected, every client, `id` included, learns which player
/// number left; `id` and its hand are removed; then each remaining client
/// learns its new number. Otherwise nothing happens.
pub open spec fn disconnected(before: WsActor, after: WsActor, id: u32, ds: Seq<Delivery>) -> bool {
    if before.players@.contains(id) {
        let k = before.players@.index_of(id);
        let n = before.players@.len();
        &&& after.players@ == before.players@.remove(k)
        &&& after.hands@ == before.hands@.remove(k)
        &&& after.components@ == before.components@
        &&& ds.len() == n + after.players@.len()
        &&& delivers(
            ds.subrange(0, n as int),
            before.players@,
            seq![NotificationView::DisconnectPlayer { player_number: (k + 1) as usize }],
        )
        &&& renumbers(ds.subrange(n as int, ds.len() as int), after.players@)
    } else {
        &&& after == before
        &&& ds.len() == 0
    }
}

/// What a table mutation of component `id` into `c` gives: refused where the
/// table has no such component, else the change, announced to `to`.
pub open spec fn updated(
    before: WsActor,
    after: WsActor,
    id: usize,
    c: Component,
    to: Seq<u32>,
    r: Result<Vec<Delivery>, HubError>,
) -> bool {
    if id < before.components@.len() {
        &&& WsActor::only_component(before, after, id, c)
        &&& r is Ok
        &&& delivers(
            r->Ok_0@,
            to,
            seq![NotificationView::UpdateComponent { component_id: id, component: c }],
        )
    } else {
        &&& r == Err::<Vec<Delivery>, HubError>(HubError::InvalidComponentId)
        &&& after == before
    }
}

/// What the notification `note` from the connected client `id` does to
/// `before`. A mutation is announced to every client, a move to every client
/// but the mover. A move of a component that another player owns is refused.
/// Notifications that clients do not send change nothing and go nowhere.
pub open spec fn applied(
    before: WsActor,
    after: WsActor,
    id: u32,
    note: NotificationView,
    r: Result<Vec<Delivery>, HubError>,
) -> bool {
    let k = before.players@.index_of(id);
    let n = (k + 1) as usize;
    let all = before.players@;
    match note {
        NotificationView::SelectComponent { component_id } => updated(before, after, component_id,
            with_selected(component_at(before, component_id), true), all, r),
        NotificationView::UnselectComponent { component_id } => updated(before, after, component_id,
            with_selected(component_at(before, component_id), false), all, r),
        NotificationView::OpenComponent { component_id } => updated(before, after, component_id,
            with_opened(component_at(before, component_id), true), all, r),
        NotificationView::CloseComponent { component_id } => updated(before, after, component_id,
            with_opened(component_at(before, component_id), false), all, r),
        NotificationView::IncrementComponent { component_id } => updated(before, after, component_id,
            with_number(component_at(before, component_id),
                number_up(component_at(before, component_id).number)), all, r),
        NotificationView::DecrementComponent { component_id } => updated(before, after, component_id,
            with_number(component_at(before, component_id),
                number_down(component_at(before, component_id).number)), all, r),
        NotificationView::MoveComponent { component_id, x, y } => {
            if component_id < before.components@.len()
                && !may_move(component_at(before, component_id), n) {
                &&& r == Err::<Vec<Delivery>, HubError>(HubError::NotOwner)
                &&& after == before
            } else {
                updated(before, after, component_id,
                    with_position(component_at(before, component_id), x, y), others(all, id), r)
            }
        },
        NotificationView::MoveOwnHand { x, y } => {
            &&& after.hands@ == before.hands@.update(k, Hand { id: before.hands@[k].id, x, y })
            &&& after.players@ == before.players@
            &&& after.components@ == before.components@
            &&& r is Ok
            &&& delivers(
                r->Ok_0@,
                others(all, id),
                seq![NotificationView::MoveHand { player_number: n, x, y }],
            )
        },
        _ => {
            &&& after == before
            &&& r is Ok
            &&& r->Ok_0@.len() == 0
        },
    }
}

/// What a client message from `id` does: refused where `id` is not connected
/// or the payload did not decode, else as `applied` says.
pub open spec fn handled(
    before: WsActor,
    after: WsActor,
    id: u32,
    msg: Option<NotificationView>,
    r: Result<Vec<Delivery>, HubError>,
) -> bool {
    if !before.players@.contains(id) {
        &&& r == Err::<Vec<Delivery>, HubError>(HubError::UnknownPlayer)
        &&& after == before
    } else {
        match msg {
            None => {
                &&& r == Err::<Vec<Delivery>, HubError>(HubError::MalformedMessage)
                &&& after == before
            },
            Some(note) => applied(before, after, id, note, r),
        }
    }
}

/// The view of what a client sent.
pub open spec fn msg_view(msg: Option<Notification>) -> Option<NotificationView> {
    match msg {
        Some(n) => Some(n@),
        None => None,
    }
}

/// A list of fewer than `u32::MAX` identities misses one of `0..=len`.
pub proof fn lemma_some_id_free(s: Seq<u32>)
    requires
        s.len() < u32::MAX,
    ensures
        exists|c: u32| c <= s.len() && !s.contains(c),
{
    if forall|c: u32| c <= s.len() ==> s.contains(c) {
        let ints = s.map_values(|x: u32| x as int);
        let range = set_int_range(0, s.len() as int + 1);
        ints.lemma_cardinality_of_set();
        lemma_int_range(0, s.len() as int + 1);
        assert forall|i: int| range.contains(i) implies ints.to_set().contains(i) by {
            let c = i as u32;
            assert(c <= s.len());
            assert(s.contains(c));
            let j = choose|j: int| 0 <= j < s.len() && s[j] == c;
            assert(ints[j] == i);
        }
        lemma_len_subset(range, ints.to_set());
    }
}

impl WsActor {
    /// The hub's invariant: identities are distinct, one hand each, player
    /// numbers fit in `usize`, and each component's id is its position.
    pub open spec fn wf(&self) -> bool {
        &&& self.players@.no_duplicates()
        &&& self.hands@.len() == self.players@.len()
        &&& self.players@.len() < usize::MAX
        &&& forall|i: int| 0 <= i < self.components@.len() ==> #[trigger] self.components@[i].id == i
    }

    /// `after` differs from `before` only in component `id`, which is `c`.
    pub open spec fn only_component(before: WsActor, after: WsActor, id: usize, c: Component) -> bool {
        &&& after.components@ == before.components@.update(id as int, c)
        &&& after.players@ == before.players@
        &&& after.hands@ == before.hands@
    }

    /// A hub with nobody connected and the seed table.
    pub fn new() -> (r: Self)
        ensures
            r.wf(),
            r.players@.len() == 0,
            r.hands@.len() == 0,
            is_seed(r.components@),
    {
        WsActor { players: Vec::new(), hands: Vec::new(), components: create_components() }
    }

    /// Where `id` stands among the connected identities.
    pub fn position(&self, id: u32) -> (r: Option<usize>)
        requires
            self.wf(),
        ensures
            match r {
                Some(k) => k < self.players@.len() && self.players@[k as int] == id
                    && self.players@.index_of(id) == k,
                None => !self.players@.contains(id),
            },
    {
        let mut k: usize = 0;
        while k < self.players.len()
            invariant
                self.wf(),
                k <= self.players@.len(),
                forall|j: int| 0 <= j < k ==> self.players@[j] != id,
            decreases self.players@.len() - k,
        {
            if self.players[k] == id {
                proof {
                    lemma_index_of_unique(self.players@, k as int);
                }
                return Some(k);
            }
            k = k + 1;
        }
        None
    }

    /// Puts `c` in place of component `component_id` and returns a copy.
    fn store(&mut self, component_id: usize, c: Component) -> (r: Component)
        requires
            old(self).wf(),
            component_id < old(self).components@.len(),
            c.id == component_id,
        ensures
            final(self).wf(),
            r == c,
            WsActor::only_component(*old(self), *final(self), component_id, c),
    {
        let copy = c.duplicate();
        self.components[component_id] = c;
        copy
    }

    /// Marks component `component_id` selected.
    pub fn select(&mut self, component_id: usize) -> (r: Result<Component, HubError>)
        requires
            old(self).wf(),
        ensures
            final(self).wf(),
            component_outcome(*old(self), *final(self), component_id,
                with_selected(component_at(*old(self), component_id), true), r),
    {
        if component_id >= self.components.len() {
            return Err(HubError::InvalidComponentId);
        }
        let mut c = self.components[component_id].duplicate();
        c.is_selected = true;
        Ok(self.store(component_id, c))
    }

    /// Marks component `component_id` not selected.
    pub fn unselect(&mut self, component_id: usize) -> (r: Result<Component, HubError>)
        requires
            old(self).wf(),
        ensures
            final(self).wf(),
            component_outcome(*old(self), *final(self), component_id,
                with_selected(component_at(*old(self), component_id), false), r),
    {
        if component_id >= self.components.len() {
            return Err(HubError::InvalidComponentId);
        }
        let mut c = self.components[component_id].duplicate();
        c.is_selected = false;
        Ok(self.store(component_id, c))
    }

    /// Marks component `component_id` opened.
    pub fn open(&mut self, component_id: usize) -> (r: Result<Component, HubError>)
        requires
            old(self).wf(),
        ensures
            final(self).wf(),
            component_outcome(*old(self), *final(self), component_id,
                with_opened(component_at(*old(self), component_id), true), r),
    {
        if component_id >= self.components.len() {
            return Err(HubError::InvalidComponentId);
        }
        let mut c = self.components[component_id].duplicate();
        c.is_opened = true;
        Ok(self.store(component_id, c))
    }

    /// Marks component `component_id` closed.
    pub fn close(&mut self, component_id: usize) -> (r: Result<Component, HubError>)
        requires
            old(self).wf(),
        ensures
            final(self).wf(),
            component_outcome(*old(self), *final(self), component_id,
                with_opened(component_at(*old(self), component_id), false), r),
    {
        if component_id >= self.components.len() {
            return Err(HubError::InvalidComponentId);
        }
        let mut c = self.components[component_id].duplicate();
        c.is_opened = false;
        Ok(self.store(component_id, c))
    }

    /// Counts component `component_id` one up, wrapping at the end of `i64`.
    pub fn increment(&mut self, component_id: usize) -> (r: Result<Component, HubError>)
        requires
            old(self).wf(),
        ensures
            final(self).wf(),
            component_outcome(*old(self), *final(self), component_id,
                with_number(component_at(*old(self), component_id),
                    number_up(component_at(*old(self), component_id).number)), r),
    {
        if component_id >= self.components.len() {
            return Err(HubError::InvalidComponentId);
        }
        let mut c = self.components[component_id].duplicate();
        c.number = c.number.wrapping_add(1);
        Ok(self.store(component_id, c))
    }

    /// Counts component `component_id` one down, wrapping at the end of `i64`.
    pub fn decrement(&mut self, component_id: usize) -> (r: Result<Component, HubError>)
        requires
            old(self).wf(),
        ensures
            final(self).wf(),
            component_outcome(*old(self), *final(self), component_id,
                with_number(component_at(*old(self), component_id),
                    number_down(component_at(*old(self), component_id).number)), r),
    {
        if component_id >= self.components.len() {
            return Err(HubError::InvalidComponentId);
        }
        let mut c = self.components[component_id].duplicate();
        c.number = c.number.wrapping_sub(1);
        Ok(self.store(component_id, c))
    }

    /// Moves component `component_id` to `(x, y)` for the player numbered
    /// `requester`; refused where another player owns it.
    pub fn move_component(&mut self, component_id: usize, x: i64, y: i64, requester: usize) -> (r: Result<Component, HubError>)
        requires
            old(self).wf(),
        ensures
            final(self).wf(),
            component_id < old(self).components@.len()
                && !may_move(component_at(*old(self), component_id), requester) ==> {
                &&& r == Err::<Component, HubError>(HubError::NotOwner)
                &&& *final(self) == *old(self)
            },
            component_id >= old(self).components@.len()
                || may_move(component_at(*old(self), component_id), requester) ==> component_outcome(
                *old(self),
                *final(self),
                component_id,
                with_position(component_at(*old(self), component_id), x, y),
                r,
            ),
    {
        if component_id >= self.components.len() {
            return Err(HubError::InvalidComponentId);
        }
        if let Some(owner) = self.components[component_id].user {
            if owner != requester {
                return Err(HubError::NotOwner);
            }
        }
        let mut c = self.components[component_id].duplicate();
        c.x = x;
        c.y = y;
        Ok(self.store(component_id, c))
    }

    /// Moves the hand of `client_id` to `(x, y)`.
    pub fn move_hand(&mut self, client_id: u32, x: i64, y: i64) -> (r: Result<Hand, HubError>)
        requires
            old(self).wf(),
        ensures
            final(self).wf(),
            match r {
                Ok(h) => {
                    let k = old(self).players@.index_of(client_id);
                    &&& old(self).players@.contains(client_id)
                    &&& h == (Hand { id: old(self).hands@[k].id, x, y })
                    &&& final(self).hands@ == old(self).hands@.update(k, h)
                    &&& final(self).players@ == old(self).players@
                    &&& final(self).components@ == old(self).components@
                },
                Err(e) => {
                    &&& !old(self).players@.contains(client_id)
                    &&& e == HubError::UnknownPlayer
                    &&& *final(self) == *old(self)
                },
            },
    {
        match self.position(client_id) {
            None => Err(HubError::UnknownPlayer),
            Some(k) => {
                let h = Hand { id: self.hands[k].id, x, y };
                self.hands[k] = h;
                Ok(h)
            },
        }
    }

    /// Connects the client `client_id`: refused where that identity is
    /// already connected or no further player number fits.
    pub fn connect_as(&mut self, client_id: u32) -> (r: Result<Vec<Delivery>, HubError>)
        requires
            old(self).wf(),
        ensures
            final(self).wf(),
            match r {
                Ok(ds) => {
                    &&& !old(self).players@.contains(client_id)
                    &&& old(self).players@.len() + 1 < usize::MAX
                    &&& connected(*old(self), *final(self), client_id, ds@)
                },
                Err(e) => {
                    &&& *final(self) == *old(self)
                    &&& old(self).players@.contains(client_id) ==> e == HubError::IdentityInUse
                    &&& !old(self).players@.contains(client_id) ==> e == HubError::TableFull
                        && old(self).players@.len() + 1 >= usize::MAX
                },
            },
    {
        if self.position(client_id).is_some() {
            return Err(HubError::IdentityInUse);
        }
        if self.players.len() >= usize::MAX - 1 {
            return Err(HubError::TableFull);
        }
        self.players.push(client_id);
        let player_number = self.players.len();
        let hand = Hand { id: player_number, x: 0, y: 0 };
        self.hands.push(hand);
        proof {
            assert(self.players@.no_duplicates()) by {
                assert forall|i: int, j: int|
                    0 <= i < self.players@.len() && 0 <= j < self.players@.len() && i != j implies
                    self.players@[i] != self.players@[j] by {
                    if i == self.players@.len() - 1 {
                        assert(old(self).players@[j] == self.players@[j]);
                    } else if j == self.players@.len() - 1 {
                        assert(old(self).players@[i] == self.players@[i]);
                    }
                }
            }
        }
        let first = vec![
            Notification::PlayerNumber { player_number },
            Notification::SetComponents { components: copy_components(&self.components) },
            Notification::SetHands { hands: copy_hands(&self.hands) },
        ];
        let mut ds = vec![Delivery { to: client_id, message: Message(first) }];
        proof {
            assert(ds@[0].message@ =~= seq![
                NotificationView::PlayerNumber { player_number },
                NotificationView::SetComponents { components: old(self).components@ },
                NotificationView::SetHands { hands: self.hands@ },
            ]);
        }
        let announce = vec![Notification::ConnectPlayer { player_number, hand }];
        let mut rest = self.send_message(&announce);
        proof {
            assert(notes_view(announce@) =~= seq![NotificationView::ConnectPlayer { player_number, hand }]);
        }
        let ghost first_delivery = ds@[0];
        let ghost rest_view = rest@;
        ds.append(&mut rest);
        proof {
            assert(ds@[0] == first_delivery);
            assert(ds@.subrange(1, ds@.len() as int) =~= rest_view);
        }
        Ok(ds)
    }

    /// The smallest identity that is not connected.
    fn free_id(&self) -> (r: u32)
        requires
            self.wf(),
            self.players@.len() < u32::MAX,
        ensures
            !self.players@.contains(r),
    {
        let n = self.players.len() as u32;
        let mut c: u32 = 0;
        while c < n
            invariant
                self.wf(),
                c <= n,
                n == self.players@.len(),
                forall|d: u32| d < c ==> self.players@.contains(d),
            decreases n - c,
        {
            if self.position(c).is_none() {
                return c;
            }
            c = c + 1;
        }
        if self.position(n).is_none() {
            return n;
        }
        proof {
            lemma_some_id_free(self.players@);
            let d = choose|d: u32| d <= self.players@.len() && !self.players@.contains(d);
            assert(d < n || d == n);
        }
        n
    }

    /// Connects a new client under a fresh identity: a random one, drawn
    /// again where it is taken, and after a few draws the smallest free one.
    /// Fails only where the table is full.
    pub fn connect(&mut self) -> (r: Result<(u32, Vec<Delivery>), HubError>)
        requires
            old(self).wf(),
        ensures
            final(self).wf(),
            match r {
                Ok((id, ds)) => {
                    &&& !old(self).players@.contains(id)
                    &&& connected(*old(self), *final(self), id, ds@)
                },
                Err(e) => {
                    &&& *final(self) == *old(self)
                    &&& e == HubError::TableFull
                    &&& old(self).players@.len() + 1 >= usize::MAX
                        || old(self).players@.len() >= u32::MAX
                },
            },
    {
        if self.players.len() >= usize::MAX - 1 || self.players.len() >= u32::MAX as usize {
            return Err(HubError::TableFull);
        }
        let mut client_id = self.free_id();
        let mut draws: usize = 0;
        while draws < ID_DRAWS
            invariant
                self.wf(),
                *self == *old(self),
                !self.players@.contains(client_id),
            decreases ID_DRAWS - draws,
        {
            let drawn = random_id();
            if self.position(drawn).is_none() {
                client_id = drawn;
                break;
            }
            draws = draws + 1;
        }
        match self.connect_as(client_id) {
            Ok(ds) => Ok((client_id, ds)),
            Err(e) => Err(e),
        }
    }

    /// Disconnects `msg.id`; a second disconnect of the same identity does
    /// nothing.
    pub fn disconnect(&mut self, msg: Disconnect) -> (r: Vec<Delivery>)
        requires
            old(self).wf(),
        ensures
            final(self).wf(),
            disconnected(*old(self), *final(self), msg.id, r@),
    {
        let k = match self.position(msg.id) {
            Some(k) => k,
            None => return Vec::new(),
        };
        let ghost n = self.players@.len();
        let note = vec![Notification::DisconnectPlayer { player_number: k + 1 }];
        let mut ds = self.send_message(&note);
        proof {
            assert(notes_view(note@) =~= seq![NotificationView::DisconnectPlayer { player_number: (k + 1) as usize }]);
        }
        let ghost gone = ds@;
        self.players.remove(k);
        self.hands.remove(k);
        proof {
            assert(self.players@ =~= old(self).players@.remove(k as int));
            assert(self.players@.no_duplicates()) by {
                assert forall|i: int, j: int|
                    0 <= i < self.players@.len() && 0 <= j < self.players@.len() && i != j implies
                    self.players@[i] != self.players@[j] by {
                    let oi = if i < k { i } else { i + 1 };
                    let oj = if j < k { j } else { j + 1 };
                    assert(self.players@[i] == old(self).players@[oi]);
                    assert(self.players@[j] == old(self).players@[oj]);
                }
            }
        }
        let mut renumbered = self.notify_all_player_numbers();
        let ghost renumbered_view = renumbered@;
        ds.append(&mut renumbered);
        proof {
            assert(ds@.subrange(0, n as int) =~= gone);
            assert(ds@.subrange(n as int, ds@.len() as int) =~= renumbered_view);
        }
        ds
    }

    /// Announces a table change to every client (`except` none) or to every
    /// client but one.
    fn announce(&self, component_id: usize, component: Component, except: Option<u32>) -> (r: Vec<Delivery>)
        ensures
            delivers(
                r@,
                match except {
                    Some(id) => others(self.players@, id),
                    None => self.players@,
                },
                seq![NotificationView::UpdateComponent { component_id, component }],
            ),
    {
        let ghost c = component;
        let notes = vec![Notification::UpdateComponent { component_id, component }];
        proof {
            assert(notes_view(notes@) =~= seq![NotificationView::UpdateComponent { component_id, component: c }]);
        }
        match except {
            Some(id) => self.send_message_except(id, &notes),
            None => self.send_message(&notes),
        }
    }

    /// Applies what the connected client `msg.id` sent, and says who learns
    /// of it.
    pub fn handle_client_message(&mut self, msg: ClientMessage) -> (r: Result<Vec<Delivery>, HubError>)
        requires
            old(self).wf(),
        ensures
            final(self).wf(),
            handled(*old(self), *final(self), msg.id, msg_view(msg.msg), r),
    {
        let client_id = msg.id;
        let k = match self.position(client_id) {
            Some(k) => k,
            None => return Err(HubError::UnknownPlayer),
        };
        let player_number = k + 1;
        let note = match msg.msg {
            Some(note) => note,
            None => return Err(HubError::MalformedMessage),
        };
        match note {
            Notification::SelectComponent { component_id } => {
                let c = self.select(component_id)?;
                Ok(self.announce(component_id, c, None))
            },
            Notification::UnselectComponent { component_id } => {
                let c = self.unselect(component_id)?;
                Ok(self.announce(component_id, c, None))
            },
            Notification::OpenComponent { component_id } => {
                let c = self.open(component_id)?;
                Ok(self.announce(component_id, c, None))
            },
            Notification::CloseComponent { component_id } => {
                let c = self.close(component_id)?;
                Ok(self.announce(component_id, c, None))
            },
            Notification::IncrementComponent { component_id } => {
                let c = self.increment(component_id)?;
                Ok(self.announce(component_id, c, None))
            },
            Notification::DecrementComponent { component_id } => {
                let c = self.decrement(component_id)?;
                Ok(self.announce(component_id, c, None))
            },
            Notification::MoveComponent { component_id, x, y } => {
                let c = self.move_component(component_id, x, y, player_number)?;
                Ok(self.announce(component_id, c, Some(client_id)))
            },
            Notification::MoveOwnHand { x, y } => {
                let h = self.move_hand(client_id, x, y)?;
                let notes = vec![Notification::MoveHand { player_number, x: h.x, y: h.y }];
                proof {
                    assert(notes_view(notes@) =~= seq![NotificationView::MoveHand { player_number, x, y }]);
                }
                Ok(self.send_message_except(client_id, &notes))
            },
            _ => Ok(Vec::new()),
        }
    }

    /// Hands `notes` to every connected client.
    fn send_message(&self, notes: &Vec<Notification>) -> (r: Vec<Delivery>)
        ensures
            delivers(r@, self.players@, notes_view(notes@)),
    {
        let mut r: Vec<Delivery> = Vec::new();
        let mut i: usize = 0;
        while i < self.players.len()
            invariant
                i <= self.players@.len(),
                delivers(r@, self.players@.subrange(0, i as int), notes_view(notes@)),
            decreases self.players@.len() - i,
        {
            r.push(Delivery { to: self.players[i], message: Message(copy_notes(notes)) });
            i = i + 1;
        }
        assert(self.players@.subrange(0, self.players@.len() as int) =~= self.players@);
        r
    }

    /// Hands `notes` to every connected client but `client_id`.
    fn send_message_except(&self, client_id: u32, notes: &Vec<Notification>) -> (r: Vec<Delivery>)
        ensures
            delivers(r@, others(self.players@, client_id), notes_view(notes@)),
    {
        let mut r: Vec<Delivery> = Vec::new();
        let mut i: usize = 0;
        while i < self.players.len()
            invariant
                i <= self.players@.len(),
                delivers(r@, others(self.players@.subrange(0, i as int), client_id), notes_view(notes@)),
            decreases self.players@.len() - i,
        {
            let ghost before = self.players@.subrange(0, i as int);
            let ghost after = self.players@.subrange(0, i + 1);
            proof {
                reveal(Seq::filter);
                assert(after.drop_last() =~= before);
                assert(after.last() == self.players@[i as int]);
                assert(others(after, client_id) == if self.players@[i as int] != client_id {
                    others(before, client_id).push(self.players@[i as int])
                } else {
                    others(before, client_id)
                });
            }
            if self.players[i] != client_id {
                r.push(Delivery { to: self.players[i], message: Message(copy_notes(notes)) });
            }
            i = i + 1;
        }
        assert(self.players@.subrange(0, self.players@.len() as int) =~= self.players@);
        r
    }

    /// Tells every connected client its current player number.
    fn notify_all_player_numbers(&self) -> (r: Vec<Delivery>)
        requires
            self.players@.len() < usize::MAX,
        ensures
            renumbers(r@, self.players@),
    {
        let mut r: Vec<Delivery> = Vec::new();
        let mut k: usize = 0;
        while k < self.players.len()
            invariant
                k <= self.players@.len(),
                self.players@.len() < usize::MAX,
                renumbers(r@, self.players@.subrange(0, k as int)),
            decreases self.players@.len() - k,
        {
            let notes = vec![Notification::PlayerNumber { player_number: k + 1 }];
            r.push(Delivery { to: self.players[k], message: Message(notes) });
            proof {
                assert(r@.last()@.1 =~= seq![NotificationView::PlayerNumber { player_number: (k + 1) as usize }]);
            }
            k = k + 1;
        }
        assert(self.players@.subrange(0, self.players@.len() as int) =~= self.players@);
        r
    }
}

} // verus!
