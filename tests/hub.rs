use table_simulator_server::notification::{Delivery, Notification};
use table_simulator_server::table::{create_components, Component, ComponentRole, Hand};
use table_simulator_server::ws::{ClientMessage, Disconnect, HubError, WsActor};

fn send(hub: &mut WsActor, id: u32, note: Notification) -> Result<Vec<Delivery>, HubError> {
    hub.handle_client_message(ClientMessage { id, msg: Some(note) })
}

fn two_players() -> WsActor {
    let mut hub = WsActor::new();
    hub.connect_as(100).unwrap();
    hub.connect_as(200).unwrap();
    hub
}

fn player_number_in(d: &Delivery) -> usize {
    assert_eq!(d.message.0.len(), 1);
    match &d.message.0[0] {
        Notification::PlayerNumber { player_number } => *player_number,
        other => panic!("expected a player number, got {:?}", other),
    }
}

#[test]
fn seed_table_has_seven_components() {
    let cs = create_components();
    assert_eq!(cs.len(), 7);
    for (i, c) in cs.iter().enumerate() {
        assert_eq!(c.id, i);
        assert!(!c.is_selected);
        assert_eq!((c.w, c.h), (100, 100));
    }
    assert_eq!(cs[0].text, "プレイヤー1の操作カード");
    assert_eq!(cs[2].user, None);
    assert_eq!(cs[3].user, Some(1));
    assert!(cs[4].hide_others);
    assert_eq!(cs[5].role, ComponentRole::Counter);
    assert_eq!((cs[6].x, cs[6].y, cs[6].user), (160, 96, Some(2)));
    assert_eq!(cs[6].text, "");
}

#[test]
fn single_client_gets_number_table_and_hands() {
    let mut hub = WsActor::new();
    let ds = hub.connect_as(42).unwrap();
    assert_eq!(ds.len(), 2);
    assert_eq!(ds[0].to, 42);
    let first = &ds[0].message.0;
    assert_eq!(first.len(), 3);
    assert!(matches!(first[0], Notification::PlayerNumber { player_number: 1 }));
    match &first[1] {
        Notification::SetComponents { components } => {
            assert_eq!(components.len(), 7);
            let ids: Vec<usize> = components.iter().map(|c| c.id).collect();
            assert_eq!(ids, vec![0, 1, 2, 3, 4, 5, 6]);
        }
        other => panic!("expected the table, got {:?}", other),
    }
    match &first[2] {
        Notification::SetHands { hands } => assert_eq!(hands, &vec![Hand { id: 1, x: 0, y: 0 }]),
        other => panic!("expected the hands, got {:?}", other),
    }
    assert_eq!(ds[1].to, 42);
    assert!(matches!(
        ds[1].message.0[0],
        Notification::ConnectPlayer { player_number: 1, hand: Hand { id: 1, x: 0, y: 0 } }
    ));
}

#[test]
fn connects_number_players_in_order() {
    let mut hub = WsActor::new();
    for (i, id) in [9u32, 3, 77, 5].iter().enumerate() {
        let ds = hub.connect_as(*id).unwrap();
        assert_eq!(ds[0].to, *id);
        assert!(matches!(ds[0].message.0[0], Notification::PlayerNumber { player_number } if player_number == i + 1));
        let to: Vec<u32> = ds[1..].iter().map(|d| d.to).collect();
        assert_eq!(to, hub.players);
    }
    assert_eq!(hub.players, vec![9, 3, 77, 5]);
    assert_eq!(hub.position(77), Some(2));
}

#[test]
fn random_connects_get_distinct_identities() {
    let mut hub = WsActor::new();
    let (a, _) = hub.connect().unwrap();
    let (b, ds) = hub.connect().unwrap();
    assert_ne!(a, b);
    assert!(matches!(ds[0].message.0[0], Notification::PlayerNumber { player_number: 2 }));
    assert_eq!(hub.players, vec![a, b]);
}

#[test]
fn connecting_a_taken_identity_is_refused() {
    let mut hub = two_players();
    assert_eq!(hub.connect_as(100).err(), Some(HubError::IdentityInUse));
    assert_eq!(hub.players, vec![100, 200]);
}

#[test]
fn disconnect_renumbers_remaining_players() {
    let mut hub = WsActor::new();
    for id in [1u32, 2, 3, 4] {
        hub.connect_as(id).unwrap();
    }
    let ds = hub.disconnect(Disconnect { id: 2 });
    assert_eq!(ds.len(), 4 + 3);
    for d in &ds[..4] {
        assert!(matches!(d.message.0[0], Notification::DisconnectPlayer { player_number: 2 }));
    }
    let renumbered: Vec<(u32, usize)> = ds[4..].iter().map(|d| (d.to, player_number_in(d))).collect();
    assert_eq!(renumbered, vec![(1, 1), (3, 2), (4, 3)]);
    assert_eq!(hub.players, vec![1, 3, 4]);
    assert_eq!(hub.hands.len(), 3);
}

#[test]
fn second_disconnect_does_nothing() {
    let mut hub = two_players();
    hub.disconnect(Disconnect { id: 100 });
    let ds = hub.disconnect(Disconnect { id: 100 });
    assert!(ds.is_empty());
    assert_eq!(hub.players, vec![200]);
}

#[test]
fn select_then_unselect_restores_flag() {
    let mut hub = two_players();
    assert!(!hub.components[2].is_selected);
    let ds = send(&mut hub, 100, Notification::SelectComponent { component_id: 2 }).unwrap();
    assert_eq!(ds.len(), 2);
    assert!(hub.components[2].is_selected);
    send(&mut hub, 200, Notification::UnselectComponent { component_id: 2 }).unwrap();
    assert!(!hub.components[2].is_selected);
}

#[test]
fn open_and_close_set_flag() {
    let mut hub = two_players();
    let c = hub.close(1).unwrap();
    assert!(!c.is_opened);
    assert!(!hub.components[1].is_opened);
    let c = hub.open(1).unwrap();
    assert!(c.is_opened);
}

#[test]
fn increment_then_decrement_restores_number() {
    let mut hub = two_players();
    let ds = send(&mut hub, 100, Notification::IncrementComponent { component_id: 5 }).unwrap();
    assert_eq!(hub.components[5].number, 1);
    match &ds[0].message.0[0] {
        Notification::UpdateComponent { component_id: 5, component } => assert_eq!(component.number, 1),
        other => panic!("expected an update, got {:?}", other),
    }
    send(&mut hub, 100, Notification::DecrementComponent { component_id: 5 }).unwrap();
    assert_eq!(hub.components[5].number, 0);
    send(&mut hub, 100, Notification::DecrementComponent { component_id: 5 }).unwrap();
    assert_eq!(hub.components[5].number, -1);
}

#[test]
fn counter_wraps_at_the_ends() {
    let mut hub = WsActor::new();
    hub.components[5].number = i64::MAX;
    assert_eq!(hub.increment(5).unwrap().number, i64::MIN);
    assert_eq!(hub.decrement(5).unwrap().number, i64::MAX);
}

#[test]
fn owner_move_reaches_others_only() {
    let mut hub = two_players();
    let ds = send(&mut hub, 100, Notification::MoveComponent { component_id: 0, x: 50, y: 60 }).unwrap();
    assert_eq!(ds.len(), 1);
    assert_eq!(ds[0].to, 200);
    match &ds[0].message.0[0] {
        Notification::UpdateComponent { component_id: 0, component } => {
            assert_eq!((component.x, component.y), (50, 60));
        }
        other => panic!("expected an update, got {:?}", other),
    }
    assert_eq!((hub.components[0].x, hub.components[0].y), (50, 60));
}

#[test]
fn foreign_move_is_refused() {
    let mut hub = two_players();
    hub.components[3].user = Some(2);
    let before: Component = hub.components[3].clone();
    let r = send(&mut hub, 100, Notification::MoveComponent { component_id: 3, x: 10, y: 10 });
    assert_eq!(r.err(), Some(HubError::NotOwner));
    assert_eq!((hub.components[3].x, hub.components[3].y), (before.x, before.y));
}

#[test]
fn unowned_move_succeeds_for_anyone() {
    let mut hub = two_players();
    let ds = send(&mut hub, 200, Notification::MoveComponent { component_id: 2, x: -5, y: 7 }).unwrap();
    assert_eq!(ds.len(), 1);
    assert_eq!(ds[0].to, 100);
    assert_eq!((hub.components[2].x, hub.components[2].y), (-5, 7));
}

#[test]
fn hand_move_reaches_others() {
    let mut hub = two_players();
    let ds = send(&mut hub, 200, Notification::MoveOwnHand { x: 3, y: 4 }).unwrap();
    assert_eq!(ds.len(), 1);
    assert_eq!(ds[0].to, 100);
    assert!(matches!(ds[0].message.0[0], Notification::MoveHand { player_number: 2, x: 3, y: 4 }));
    assert_eq!(hub.hands[1], Hand { id: 2, x: 3, y: 4 });
    assert_eq!(hub.move_hand(999, 0, 0), Err(HubError::UnknownPlayer));
}

#[test]
fn malformed_payload_changes_nothing() {
    let mut hub = two_players();
    let r = hub.handle_client_message(ClientMessage { id: 100, msg: None });
    assert_eq!(r.err(), Some(HubError::MalformedMessage));
    assert_eq!(hub.players, vec![100, 200]);
    let ds = send(&mut hub, 100, Notification::SelectComponent { component_id: 0 }).unwrap();
    assert_eq!(ds.len(), 2);
    assert!(hub.components[0].is_selected);
}

#[test]
fn notifications_clients_do_not_send_are_ignored() {
    let mut hub = two_players();
    let ds = send(&mut hub, 100, Notification::PlayerNumber { player_number: 1 }).unwrap();
    assert!(ds.is_empty());
}

#[test]
fn out_of_range_component_is_refused() {
    let mut hub = two_players();
    let r = send(&mut hub, 100, Notification::SelectComponent { component_id: 7 });
    assert_eq!(r.err(), Some(HubError::InvalidComponentId));
    assert_eq!(hub.select(usize::MAX).err(), Some(HubError::InvalidComponentId));
}

#[test]
fn message_from_unknown_identity_is_refused() {
    let mut hub = two_players();
    let r = send(&mut hub, 300, Notification::SelectComponent { component_id: 0 });
    assert_eq!(r.err(), Some(HubError::UnknownPlayer));
    assert!(!hub.components[0].is_selected);
}

#[test]
fn duplicate_notification_is_equal() {
    let n = Notification::SetComponents { components: create_components() };
    match n.duplicate() {
        Notification::SetComponents { components } => {
            assert_eq!(components.len(), 7);
            assert_eq!(components[1].text, "プレイヤー2の操作カード");
        }
        other => panic!("expected the table, got {:?}", other),
    }
}

#[test]
fn connect_on_empty_hub_sends_number_table_hands_then_announcement() {
    let mut hub = WsActor::new();
    let (id, ds) = hub.connect().unwrap();
    assert_eq!(hub.players, vec![id]);
    assert_eq!(ds.len(), 2);
    assert_eq!((ds[0].to, ds[1].to), (id, id));
    let first = &ds[0].message.0;
    assert!(matches!(first[0], Notification::PlayerNumber { player_number: 1 }));
    assert!(matches!(&first[1], Notification::SetComponents { components } if components.len() == 7));
    assert!(matches!(&first[2], Notification::SetHands { hands } if hands == &vec![Hand { id: 1, x: 0, y: 0 }]));
    assert!(matches!(
        ds[1].message.0[0],
        Notification::ConnectPlayer { player_number: 1, hand: Hand { id: 1, x: 0, y: 0 } }
    ));
}
