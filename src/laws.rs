//! Properties of the hub that span several events, proved from the
//! contracts of its operations.
use vstd::prelude::*;
use crate::notification::{Delivery, NotificationView};
use crate::table::{Component, number_down, number_up, with_number, with_position, with_selected};
use crate::ws::{
    HubError, WsActor, component_at, component_outcome, connected, disconnected, handled,
    lemma_index_of_unique, others, player_number, updated,
};

verus! {

/// After `ids.len()` connects (by `connect` or `connect_as`, whose results
/// are such steps) to a hub with nobody connected, the players are
/// `ids` in connection order, the `i`-th client is player `i + 1`, and the
/// first thing it was told is that number.
pub proof fn connects_number_in_order(hubs: Seq<WsActor>, ids: Seq<u32>, dss: Seq<Seq<Delivery>>)
    requires
        hubs.len() == ids.len() + 1,
        dss.len() == ids.len(),
        hubs[0].players@.len() == 0,
        forall|i: int| 0 <= i < hubs.len() ==> #[trigger] hubs[i].wf(),
        forall|i: int| 0 <= i < ids.len() ==> connected(#[trigger] hubs[i], hubs[i + 1], ids[i], dss[i]),
    ensures
        hubs.last().players@ == ids,
        forall|i: int| 0 <= i < ids.len() ==> player_number(hubs.last().players@, #[trigger] ids[i]) == i + 1,
        forall|i: int| 0 <= i < ids.len() ==> (#[trigger] dss[i])[0]@.0 == ids[i]
            && dss[i][0]@.1[0] == (NotificationView::PlayerNumber { player_number: (i + 1) as usize }),
{
    assert forall|i: int| 0 <= i <= ids.len() implies #[trigger] hubs[i].players@ == ids.subrange(0, i) by {
        prefix_after_connects(hubs, ids, dss, i);
    }
    let last = hubs[ids.len() as int];
    assert(ids.subrange(0, ids.len() as int) =~= ids);
    assert(last.players@ == ids);
    assert(last.wf());
    assert forall|i: int| 0 <= i < ids.len() implies player_number(last.players@, #[trigger] ids[i]) == i + 1 by {
        lemma_index_of_unique(ids, i);
    }
    assert forall|i: int| 0 <= i < ids.len() implies (#[trigger] dss[i])[0]@.0 == ids[i]
        && dss[i][0]@.1[0] == NotificationView::PlayerNumber { player_number: (i + 1) as usize } by {
        assert(connected(hubs[i], hubs[i + 1], ids[i], dss[i]));
        assert(hubs[i].players@ == ids.subrange(0, i));
    }
}

proof fn prefix_after_connects(hubs: Seq<WsActor>, ids: Seq<u32>, dss: Seq<Seq<Delivery>>, i: int)
    requires
        hubs.len() == ids.len() + 1,
        dss.len() == ids.len(),
        hubs[0].players@.len() == 0,
        forall|i: int| 0 <= i < ids.len() ==> connected(#[trigger] hubs[i], hubs[i + 1], ids[i], dss[i]),
        0 <= i <= ids.len(),
    ensures
        hubs[i].players@ == ids.subrange(0, i),
    decreases i,
{
    if i == 0 {
        assert(hubs[0].players@ =~= ids.subrange(0, 0));
    } else {
        prefix_after_connects(hubs, ids, dss, i - 1);
        assert(connected(hubs[i - 1], hubs[i], ids[i - 1], dss[i - 1]));
        assert(ids.subrange(0, i - 1).push(ids[i - 1]) =~= ids.subrange(0, i));
    }
}

/// After `id` disconnects, each client still connected is told, once, its
/// new player number, and those numbers are `1..=n` for the `n` clients left:
/// no gaps, no number twice, no client twice.
pub proof fn disconnect_renumbers_densely(before: WsActor, after: WsActor, id: u32, ds: Seq<Delivery>)
    requires
        before.wf(),
        after.wf(),
        before.players@.contains(id),
        disconnected(before, after, id, ds),
    ensures
        ({
            let tail = ds.subrange(before.players@.len() as int, ds.len() as int);
            &&& tail.len() == before.players@.len() - 1
            &&& forall|j: int| 0 <= j < tail.len() ==> #[trigger] tail[j]@ == (
                after.players@[j],
                seq![NotificationView::PlayerNumber { player_number: (j + 1) as usize }],
            )
            &&& forall|j: int| 0 <= j < tail.len() ==> player_number(after.players@, #[trigger] after.players@[j]) == j + 1
            &&& forall|i: int, j: int| 0 <= i < tail.len() && 0 <= j < tail.len() && i != j
                ==> (#[trigger] tail[i])@.0 != (#[trigger] tail[j])@.0
            &&& forall|p: u32| #[trigger] before.players@.contains(p) && p != id ==> {
                let j = after.players@.index_of(p);
                &&& 0 <= j < tail.len()
                &&& after.players@[j] == p
                &&& tail[j]@ == (p, seq![NotificationView::PlayerNumber { player_number: (j + 1) as usize }])
            }
        }),
{
    let k = before.players@.index_of(id);
    let tail = ds.subrange(before.players@.len() as int, ds.len() as int);
    assert forall|j: int| 0 <= j < tail.len() implies player_number(after.players@, #[trigger] after.players@[j]) == j + 1 by {
        lemma_index_of_unique(after.players@, j);
    }
    assert forall|p: u32| #[trigger] before.players@.contains(p) && p != id implies {
        let j = after.players@.index_of(p);
        &&& 0 <= j < tail.len()
        &&& after.players@[j] == p
        &&& tail[j]@ == (p, seq![NotificationView::PlayerNumber { player_number: (j + 1) as usize }])
    } by {
        let i = before.players@.index_of(p);
        let j = if i < k { i } else { i - 1 };
        assert(after.players@[j] == p);
        lemma_index_of_unique(after.players@, j);
    }
}

/// Selecting a component that is not selected and then unselecting it
/// leaves the table as it was.
pub proof fn select_then_unselect_restores(
    w0: WsActor,
    w1: WsActor,
    w2: WsActor,
    id: usize,
    r1: Result<Component, HubError>,
    r2: Result<Component, HubError>,
)
    requires
        id < w0.components@.len() ==> !component_at(w0, id).is_selected,
        component_outcome(w0, w1, id, with_selected(component_at(w0, id), true), r1),
        component_outcome(w1, w2, id, with_selected(component_at(w1, id), false), r2),
    ensures
        w2.components@ == w0.components@,
        w2.players@ == w0.players@,
        w2.hands@ == w0.hands@,
{
    if id < w0.components@.len() {
        assert(w2.components@ =~= w0.components@);
    }
}

/// Counting a component up and then down leaves the table as it was.
pub proof fn increment_then_decrement_restores(
    w0: WsActor,
    w1: WsActor,
    w2: WsActor,
    id: usize,
    r1: Result<Component, HubError>,
    r2: Result<Component, HubError>,
)
    requires
        component_outcome(w0, w1, id,
            with_number(component_at(w0, id), number_up(component_at(w0, id).number)), r1),
        component_outcome(w1, w2, id,
            with_number(component_at(w1, id), number_down(component_at(w1, id).number)), r2),
    ensures
        w2.components@ == w0.components@,
        w2.players@ == w0.players@,
        w2.hands@ == w0.hands@,
{
    if id < w0.components@.len() {
        assert(w2.components@ =~= w0.components@);
    }
}

/// A move, from a connected client, of a component that another player owns
/// changes nothing and is announced to nobody.
pub proof fn foreign_move_is_refused(
    before: WsActor,
    after: WsActor,
    id: u32,
    component_id: usize,
    x: i64,
    y: i64,
    owner: usize,
    r: Result<Vec<Delivery>, HubError>,
)
    requires
        before.wf(),
        before.players@.contains(id),
        component_id < before.components@.len(),
        component_at(before, component_id).user == Some(owner),
        owner != player_number(before.players@, id),
        handled(before, after, id, Some(NotificationView::MoveComponent { component_id, x, y }), r),
    ensures
        r == Err::<Vec<Delivery>, HubError>(HubError::NotOwner),
        after == before,
{
    let k = before.players@.index_of(id);
    assert(0 <= k < before.players@.len() && before.players@[k] == id);
}

/// A move, from a connected client, of a component without owner is carried
/// out and announced to every other client.
pub proof fn unowned_move_succeeds(
    before: WsActor,
    after: WsActor,
    id: u32,
    component_id: usize,
    x: i64,
    y: i64,
    r: Result<Vec<Delivery>, HubError>,
)
    requires
        before.players@.contains(id),
        component_id < before.components@.len(),
        component_at(before, component_id).user == None::<usize>,
        handled(before, after, id, Some(NotificationView::MoveComponent { component_id, x, y }), r),
    ensures
        r is Ok,
        component_at(after, component_id) == with_position(component_at(before, component_id), x, y),
        updated(before, after, component_id, with_position(component_at(before, component_id), x, y),
            others(before.players@, id), r),
{
}

/// A payload that did not decode changes nothing and is announced to
/// nobody; the hub stays as it was for what comes next.
pub proof fn malformed_payload_changes_nothing(
    before: WsActor,
    after: WsActor,
    id: u32,
    r: Result<Vec<Delivery>, HubError>,
)
    requires
        before.players@.contains(id),
        handled(before, after, id, None, r),
    ensures
        r == Err::<Vec<Delivery>, HubError>(HubError::MalformedMessage),
        after == before,
{
}

} // verus!
