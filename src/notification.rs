//! The vocabulary of the hub and its clients, and the deliveries that the
//! hub hands to the transport.
use vstd::prelude::*;
use crate::table::{Component, Hand, copy_components, copy_hands};

verus! {

/// A message between the hub and a client; the `Set*` variants carry whole
/// snapshots, the others one change.
#[derive(Debug, Clone)]
pub enum Notification {
    ConnectPlayer { player_number: usize, hand: Hand },
    DisconnectPlayer { player_number: usize },
    PlayerNumber { player_number: usize },
    SetComponents { components: Vec<Component> },
    UpdateComponent { component_id: usize, component: Component },
    SelectComponent { component_id: usize },
    UnselectComponent { component_id: usize },
    OpenComponent { component_id: usize },
    CloseComponent { component_id: usize },
    IncrementComponent { component_id: usize },
    DecrementComponent { component_id: usize },
    MoveComponent { component_id: usize, x: i64, y: i64 },
    SetHands { hands: Vec<Hand> },
    MoveOwnHand { x: i64, y: i64 },
    MoveHand { player_number: usize, x: i64, y: i64 },
}

/// What a notification says, with snapshots as sequences.
pub enum NotificationView {
    ConnectPlayer { player_number: usize, hand: Hand },
    DisconnectPlayer { player_number: usize },
    PlayerNumber { player_number: usize },
    SetComponents { components: Seq<Component> },
    UpdateComponent { component_id: usize, component: Component },
    SelectComponent { component_id: usize },
    UnselectComponent { component_id: usize },
    OpenComponent { component_id: usize },
    CloseComponent { component_id: usize },
    IncrementComponent { component_id: usize },
    DecrementComponent { component_id: usize },
    MoveComponent { component_id: usize, x: i64, y: i64 },
    SetHands { hands: Seq<Hand> },
    MoveOwnHand { x: i64, y: i64 },
    MoveHand { player_number: usize, x: i64, y: i64 },
}

impl View for Notification {
    type V = NotificationView;

    open spec fn view(&self) -> NotificationView {
        match *self {
            Notification::ConnectPlayer { player_number, hand } => NotificationView::ConnectPlayer {
                player_number,
                hand,
            },
            Notification::DisconnectPlayer { player_number } => NotificationView::DisconnectPlayer {
                player_number,
            },
            Notification::PlayerNumber { player_number } => NotificationView::PlayerNumber {
                player_number,
            },
            Notification::SetComponents { components } => NotificationView::SetComponents {
                components: components@,
            },
            Notification::UpdateComponent { component_id, component } => NotificationView::UpdateComponent {
                component_id,
                component,
            },
            Notification::SelectComponent { component_id } => NotificationView::SelectComponent {
                component_id,
            },
            Notification::UnselectComponent { component_id } => NotificationView::UnselectComponent {
                component_id,
            },
            Notification::OpenComponent { component_id } => NotificationView::OpenComponent {
                component_id,
            },
            Notification::CloseComponent { component_id } => NotificationView::CloseComponent {
                component_id,
            },
            Notification::IncrementComponent { component_id } => NotificationView::IncrementComponent {
                component_id,
            },
            Notification::DecrementComponent { component_id } => NotificationView::DecrementComponent {
                component_id,
            },
            Notification::MoveComponent { component_id, x, y } => NotificationView::MoveComponent {
                component_id,
                x,
                y,
            },
            Notification::SetHands { hands } => NotificationView::SetHands { hands: hands@ },
            Notification::MoveOwnHand { x, y } => NotificationView::MoveOwnHand { x, y },
            Notification::MoveHand { player_number, x, y } => NotificationView::MoveHand {
                player_number,
                x,
                y,
            },
        }
    }
}

impl Notification {
    /// A copy that says the same.
    pub fn duplicate(&self) -> (r: Self)
        ensures
            r@ == self@,
    {
        match self {
            Notification::ConnectPlayer { player_number, hand } => Notification::ConnectPlayer {
                player_number: *player_number,
                hand: *hand,
            },
            Notification::DisconnectPlayer { player_number } => Notification::DisconnectPlayer {
                player_number: *player_number,
            },
            Notification::PlayerNumber { player_number } => Notification::PlayerNumber {
                player_number: *player_number,
            },
            Notification::SetComponents { components } => Notification::SetComponents {
                components: copy_components(components),
            },
            Notification::UpdateComponent { component_id, component } => Notification::UpdateComponent {
                component_id: *component_id,
                component: component.duplicate(),
            },
            Notification::SelectComponent { component_id } => Notification::SelectComponent {
                component_id: *component_id,
            },
            Notification::UnselectComponent { component_id } => Notification::UnselectComponent {
                component_id: *component_id,
            },
            Notification::OpenComponent { component_id } => Notification::OpenComponent {
                component_id: *component_id,
            },
            Notification::CloseComponent { component_id } => Notification::CloseComponent {
                component_id: *component_id,
            },
            Notification::IncrementComponent { component_id } => Notification::IncrementComponent {
                component_id: *component_id,
            },
            Notification::DecrementComponent { component_id } => Notification::DecrementComponent {
                component_id: *component_id,
            },
            Notification::MoveComponent { component_id, x, y } => Notification::MoveComponent {
                component_id: *component_id,
                x: *x,
                y: *y,
            },
            Notification::SetHands { hands } => Notification::SetHands { hands: copy_hands(hands) },
            Notification::MoveOwnHand { x, y } => Notification::MoveOwnHand { x: *x, y: *y },
            Notification::MoveHand { player_number, x, y } => Notification::MoveHand {
                player_number: *player_number,
                x: *x,
                y: *y,
            },
        }
    }
}

/// The views of a list of notifications.
pub open spec fn notes_view(ns: Seq<Notification>) -> Seq<NotificationView> {
    ns.map_values(|n: Notification| n@)
}

/// A batch of notifications for one client, delivered together.
pub struct Message(pub Vec<Notification>);

impl View for Message {
    type V = Seq<NotificationView>;

    open spec fn view(&self) -> Seq<NotificationView> {
        notes_view(self.0@)
    }
}

/// A batch for the client whose identity is `to`.
pub struct Delivery {
    pub to: u32,
    pub message: Message,
}

impl View for Delivery {
    type V = (u32, Seq<NotificationView>);

    open spec fn view(&self) -> (u32, Seq<NotificationView>) {
        (self.to, self.message@)
    }
}

/// A list of notifications that says the same as `ns`.
pub fn copy_notes(ns: &Vec<Notification>) -> (r: Vec<Notification>)
    ensures
        notes_view(r@) == notes_view(ns@),
{
    let mut r: Vec<Notification> = Vec::new();
    let mut i: usize = 0;
    while i < ns.len()
        invariant
            i <= ns@.len(),
            r@.len() == i,
            forall|j: int| 0 <= j < i ==> #[trigger] r@[j]@ == ns@[j]@,
        decreases ns@.len() - i,
    {
        r.push(ns[i].duplicate());
        i = i + 1;
    }
    assert(notes_view(r@) =~= notes_view(ns@));
    r
}

/// `ds` hands the same `notes` to each client of `to`, in that order.
pub open spec fn delivers(ds: Seq<Delivery>, to: Seq<u32>, notes: Seq<NotificationView>) -> bool {
    &&& ds.len() == to.len()
    &&& forall|i: int| 0 <= i < ds.len() ==> #[trigger] ds[i]@ == (to[i], notes)
}

} // verus!
