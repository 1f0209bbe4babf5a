use treasure_island_server::coordinator::GameCoordinator;
use treasure_island_server::coordinator::GameState;
use treasure_island_server::message::encode_message;
use treasure_island_server::message::Message;
use treasure_island_server::message::PUSH_MAP_ACTION;
use treasure_island_server::message::START_GAME_ACTION;
use treasure_island_server::protocol::handle_client_frame;
use treasure_island_server::protocol::FrameOutcome;
use treasure_island_server::protocol::USERNAME_MAX_LENGTH;
use treasure_island_server::registry::SessionRegistry;
use treasure_island_server::router::forward_messages_from_global_receiver_to_all_clients;

fn identity_frame(name: &str) -> Vec<u8> {
    let mut frame = vec![0u8; 32];
    frame[0] = 1;
    for (position, byte) in name.as_bytes().iter().enumerate() {
        frame[1 + position] = *byte;
    }
    frame
}

#[test]
fn registering_sessions_counts_them_in_order() {
    let mut registry = SessionRegistry::new();
    assert_eq!(registry.session_count(), 0);
    assert_eq!(registry.register_session(), 1);
    assert_eq!(registry.register_session(), 2);
    assert_eq!(registry.session_count(), 2);
    assert_eq!(registry.identity_count(), 0);
}

#[test]
fn channels_deliver_in_enqueue_order() {
    let mut registry = SessionRegistry::new();
    registry.register_session();
    registry.enqueue_message(0, Message::new(3));
    registry.enqueue_message(0, Message::new(4));
    registry.enqueue_message(0, Message::new(5));
    assert_eq!(registry.channel_len(0), 3);
    assert_eq!(registry.next_message(0).unwrap().action(), 3);
    assert_eq!(registry.next_message(0).unwrap().action(), 4);
    assert_eq!(registry.next_message(0).unwrap().action(), 5);
    assert!(registry.next_message(0).is_none());
}

#[test]
fn alice_identity_frame_registers_alice() {
    let mut registry = SessionRegistry::new();
    let frame = identity_frame("Alice");
    let outcome = handle_client_frame(&mut registry, &frame);
    assert_eq!(outcome, FrameOutcome::IdentityRegistered);
    assert_eq!(registry.identity_count(), 1);
    let name = registry.identity_at(0);
    // Trailing padding handling is left open: assert only the name bytes.
    assert!(name.starts_with("Alice"));
    assert_eq!(name.len(), USERNAME_MAX_LENGTH);
}

#[test]
fn noop_and_unknown_action_frames_are_ignored() {
    let mut registry = SessionRegistry::new();
    let mut noop = vec![0u8; 32];
    assert_eq!(handle_client_frame(&mut registry, &noop), FrameOutcome::Ignored);
    noop[0] = 7;
    assert_eq!(handle_client_frame(&mut registry, &noop), FrameOutcome::Ignored);
    assert_eq!(registry.identity_count(), 0);
}

#[test]
fn invalid_utf8_name_is_rejected_and_registers_nothing() {
    let mut registry = SessionRegistry::new();
    let mut frame = vec![0u8; 32];
    frame[0] = 1;
    frame[1] = 0xFF;
    assert_eq!(handle_client_frame(&mut registry, &frame), FrameOutcome::MalformedIdentity);
    assert_eq!(registry.identity_count(), 0);
}

#[test]
fn exactly_two_identities_start_the_game_exactly_once() {
    let mut registry = SessionRegistry::new();
    let mut coordinator = GameCoordinator::new();
    assert!(matches!(coordinator.state(), GameState::WaitingForPlayers));
    assert!(!coordinator.step(&mut registry));
    registry.register_identity(String::from("A"));
    assert!(!coordinator.step(&mut registry));
    assert!(matches!(coordinator.state(), GameState::WaitingForPlayers));
    registry.register_identity(String::from("B"));
    assert!(coordinator.step(&mut registry));
    assert!(matches!(coordinator.state(), GameState::InGame));
    // A third registration afterwards causes no further broadcast.
    registry.register_session();
    registry.register_identity(String::from("C"));
    assert!(!coordinator.step(&mut registry));
    assert!(matches!(coordinator.state(), GameState::InGame));
    assert_eq!(registry.channel_len(0), 0);
}

#[test]
fn both_sessions_receive_push_map_then_start_game() {
    let mut registry = SessionRegistry::new();
    let mut coordinator = GameCoordinator::new();
    registry.register_session();
    registry.register_session();
    assert_eq!(handle_client_frame(&mut registry, &identity_frame("A")), FrameOutcome::IdentityRegistered);
    assert_eq!(handle_client_frame(&mut registry, &identity_frame("B")), FrameOutcome::IdentityRegistered);
    assert!(coordinator.step(&mut registry));
    let mut grids: Vec<Vec<u8>> = Vec::new();
    for session in 0..2 {
        let push_map = registry.next_message(session).unwrap();
        let push_map_frame = encode_message(&push_map);
        assert_eq!(push_map_frame.len(), 401);
        assert_eq!(push_map_frame[0], PUSH_MAP_ACTION);
        grids.push(push_map.data().clone());
        let start_game = registry.next_message(session).unwrap();
        let start_game_frame = encode_message(&start_game);
        assert_eq!(start_game_frame.len(), 401);
        assert_eq!(start_game_frame[0], START_GAME_ACTION);
        assert!(registry.next_message(session).is_none());
    }
    // Both sessions got the one shared grid.
    assert_eq!(grids[0], grids[1]);
}

#[test]
fn a_session_registered_after_the_start_receives_neither_message() {
    let mut registry = SessionRegistry::new();
    let mut coordinator = GameCoordinator::new();
    registry.register_session();
    registry.register_identity(String::from("A"));
    registry.register_identity(String::from("B"));
    assert!(coordinator.step(&mut registry));
    registry.register_session();
    assert!(!coordinator.step(&mut registry));
    assert_eq!(registry.channel_len(0), 2);
    assert_eq!(registry.channel_len(1), 0);
    assert!(registry.next_message(1).is_none());
}

#[test]
fn router_forwards_one_message_to_every_session_in_order() {
    let mut registry = SessionRegistry::new();
    registry.register_session();
    registry.register_session();
    registry.enqueue_message(0, Message::new(9));
    let mut broadcast = Message::new(PUSH_MAP_ACTION);
    let mut payload = vec![0u8; 400];
    payload[0] = 77;
    broadcast.set_data(payload);
    forward_messages_from_global_receiver_to_all_clients(&mut registry, &broadcast);
    // Session 0 had an older message: it stays ahead of the broadcast.
    assert_eq!(registry.next_message(0).unwrap().action(), 9);
    let delivered_first = registry.next_message(0).unwrap();
    assert_eq!(delivered_first.action(), PUSH_MAP_ACTION);
    assert_eq!(delivered_first.data()[0], 77);
    let delivered_second = registry.next_message(1).unwrap();
    assert_eq!(delivered_second.action(), PUSH_MAP_ACTION);
    assert_eq!(delivered_second.data()[0], 77);
    assert!(registry.next_message(0).is_none());
    assert!(registry.next_message(1).is_none());
}
