use blackbeard::client::{Client, ClientEvent};
use blackbeard::controller::{ControlAction, ControlEvent, Controller};
use blackbeard::id::ID;
use blackbeard::input_pool::InputPool;
use blackbeard::packet::{
    deserialize_packet, deserialize_packet_unsigned, serialize_packet_unsigned, GamePhase, InputState, InputStep, MousePos, Packet,
};
use blackbeard::peer::{is_auth_client, DisconnectReason};
use blackbeard::playback_buffer::{PlaybackBuffer, StepPhase};
use blackbeard::server::{NetError, NetSettings, Server, ServerEvent};
use blackbeard::ship_mod::ShipModType;
use blackbeard::sync_checker::{ShipSyncRecord, SyncChecker, SyncState};

fn input(q: bool) -> InputState {
    InputState::new(false, q, false, false, None, None)
}

#[test]
fn input_pool_collects_last_input_per_player() {
    let mut pool = InputPool::new(vec![0, 1, 2]);
    assert_eq!(pool.curr_gen, 0);
    pool.add_state(1, input(false));
    pool.add_state(1, input(true));
    pool.add_state(0, input(false));
    let mut delayed = pool.check_delayed_players();
    delayed.sort();
    assert_eq!(delayed, vec![2]);
    let step = pool.flush_states();
    assert_eq!(step.gen, 1);
    assert_eq!(pool.curr_gen, 1);
    assert_eq!(pool.curr_frame_index, 0);
    let mut states = step.states.clone();
    states.sort_by_key(|(id, _)| *id);
    assert_eq!(states, vec![(0, input(false)), (1, input(true))]);
    let mut delayed = pool.check_delayed_players();
    delayed.sort();
    assert_eq!(delayed, vec![0, 1, 2]);
}

#[test]
fn input_pool_phases_and_removal() {
    let mut pool = InputPool::new(vec![0, 1]);
    for _ in 0..9 {
        pool.update_states();
    }
    assert!(!pool.is_step_phase_over());
    pool.update_states();
    assert!(pool.is_step_phase_over());
    assert!(!pool.is_max_delay_exceeded());
    for _ in 10..900 {
        pool.update_states();
    }
    assert!(pool.is_max_delay_exceeded());
    pool.add_state(1, input(true));
    pool.remove_player(1);
    assert_eq!(pool.check_delayed_players(), vec![0]);
    assert!(pool.flush_states().states.is_empty());
}

#[test]
fn playback_buffer_plays_steps_in_order() {
    let mut b = PlaybackBuffer::new();
    assert!(!b.is_next_step_ready());
    assert_eq!(b.get_curr_phase(), StepPhase::Running);
    b.add_step(InputStep::new(vec![], 1));
    b.add_step(InputStep::new(vec![], 2));
    assert_eq!(b.get_buffer_size(), 2);
    for _ in 0..9 {
        b.update();
    }
    assert_eq!(b.get_curr_phase(), StepPhase::Imminent);
    b.update();
    assert_eq!(b.get_curr_phase(), StepPhase::Over);
    assert_eq!(b.curr_frames, 10);
    assert_eq!(b.get_next_step().unwrap().gen, 1);
    assert_eq!(b.get_curr_phase(), StepPhase::Running);
    assert_eq!(b.get_next_step().unwrap().gen, 2);
    assert!(b.get_next_step().is_none());
}

#[test]
fn controller_waits_for_steps() {
    let mut c = Controller::new();
    assert!(c.is_next_frame_ready());
    for _ in 0..9 {
        c.input_buffer.update();
    }
    // Last frame of the phase: the next step has to be there.
    assert!(!c.is_next_frame_ready());
    c.add_step(InputStep::new(vec![], 1));
    assert!(c.is_next_frame_ready());
    assert!(c.update_step().is_none());
    c.input_buffer.update();
    let step = c.update_step().unwrap();
    assert_eq!(step.gen, 1);
    c.apply_step(&step);
    assert_eq!(c.get_curr_gen(), 1);
    assert!(c.is_sync_due());
}

#[test]
fn controller_simulation_speed() {
    let mut c = Controller::new();
    assert_eq!(c.adjust_simulation(5), 60);
    for g in 0..7 {
        c.add_step(InputStep::new(vec![], g));
    }
    assert_eq!(c.adjust_simulation(5), 70);
    assert_eq!(c.adjust_simulation(3), 600);
    assert_eq!(c.adjust_simulation(7), 60);
    let mut big = Controller::new();
    for g in 0..200 {
        big.add_step(InputStep::new(vec![], g));
    }
    assert_eq!(big.adjust_simulation(120), 360);
}

#[test]
fn controller_gathers_local_input() {
    let mut c = Controller::new();
    let pos = MousePos { x_bits: 3f32.to_bits(), y_bits: 4f32.to_bits() };
    // Without a local player, events are ignored.
    assert_eq!(c.event(ControlEvent::KeyQ), None);
    c.set_local_player();
    assert_eq!(c.event(ControlEvent::RightClick(pos)), Some(ControlAction::MarkTarget(pos)));
    assert_eq!(c.event(ControlEvent::KeySpace), None);
    assert_eq!(c.event(ControlEvent::KeyTab), Some(ControlAction::CentreCamera));
    c.buy_ship_mod(ShipModType::Repair);
    let s = c.send_curr_state();
    assert_eq!(
        s,
        InputState::new(true, true, true, true, Some(ShipModType::Repair), Some(pos))
    );
    assert_eq!(c.send_curr_state(), InputState::default());
    c.catch_input = false;
    assert_eq!(c.event(ControlEvent::KeyE), None);
    assert_eq!(c.send_curr_state(), InputState::default());
}

#[test]
fn sync_checker_finds_desynced_players() {
    let mut checker = SyncChecker::new();
    checker.add_state(0, SyncState::new(4, 111));
    checker.add_state(1, SyncState::new(4, 111));
    checker.add_state(2, SyncState::new(4, 222));
    checker.add_state(3, SyncState::new(5, 333));
    assert_eq!(checker.review_desyncs(4), vec![2]);
    assert!(checker.review_desyncs(5).is_empty());
    assert!(checker.review_desyncs(9).is_empty());
    // A later report of the same generation replaces the earlier one.
    checker.add_state(2, SyncState::new(4, 111));
    assert!(checker.review_desyncs(4).is_empty());
}

#[test]
fn sync_state_hashes_with_seahash() {
    let bytes = [1u8, 2, 3, 4, 5];
    let s = SyncState::gen(7, &bytes);
    assert_eq!(s.t, 7);
    assert_eq!(s.hash, seahash::hash(&bytes));
    assert_ne!(s.hash, SyncState::gen(7, &[1u8, 2, 3]).hash);
    let ship = ShipSyncRecord { curr_health: 90, x_bits: 1, y_bits: 2, rot_bits: 3 };
    let mut buf = Vec::new();
    SyncState::serialize_ship(&mut buf, &ship);
    assert_eq!(buf, vec![90, 0, 1, 0, 0, 0, 2, 0, 0, 0, 3, 0, 0, 0]);
    let from_ships = SyncState::gen_from_ships(8, vec![ship, ship]);
    let mut twice = buf.clone();
    twice.extend_from_slice(&buf);
    assert_eq!(from_ships.hash, seahash::hash(&twice));
    // Equality of sync states compares the hashes only.
    assert!(SyncState::new(1, 5) == SyncState::new(2, 5));
    assert!(SyncState::new(1, 5) != SyncState::new(1, 6));
}

#[test]
fn disconnect_reasons_and_authority() {
    let mut buf = Vec::new();
    DisconnectReason::HostShutdown.to_stream(&mut buf);
    assert_eq!(buf, vec![2]);
    assert_eq!(DisconnectReason::from_stream(&buf, 0), Some((DisconnectReason::HostShutdown, 1)));
    assert_eq!(DisconnectReason::from_stream(&[4], 0), None);
    assert!(is_auth_client(0));
    assert!(!is_auth_client(1));
}

#[test]
fn client_learns_players_from_handshake_reply() {
    let mut c = Client::new("Bonny".to_string());
    assert!(!c.is_connected());
    let reply = Packet::HandshakeReply {
        players: vec![ID::new("Anne".to_string(), 0), ID::new("Bonny".to_string(), 1)],
    };
    match c.handle_server_packet(reply, 1) {
        ClientEvent::Connect(1) => {},
        _ => panic!("expected a connection"),
    }
    assert!(c.is_connected());
    assert_eq!(c.get_local_id().unwrap().n, 1);
    assert_eq!(c.get_connection(0).unwrap().name, "Anne");
    assert_eq!(c.get_connections().len(), 2);
    match c.handle_server_packet(Packet::PlayerConnect { name: "Mary".to_string() }, 2) {
        ClientEvent::ReceivePacket(2, Packet::PlayerConnect { name }) => assert_eq!(name, "Mary"),
        _ => panic!("expected the connect packet"),
    }
    assert_eq!(c.get_connection(2).unwrap().n, 2);
}

#[test]
fn client_handles_disconnections() {
    let mut c = Client::new("Bonny".to_string());
    let reply = Packet::HandshakeReply {
        players: vec![
            ID::new("Anne".to_string(), 0),
            ID::new("Bonny".to_string(), 1),
            ID::new("Mary".to_string(), 2),
        ],
    };
    c.handle_server_packet(reply, 1);
    let bye = |r| Packet::PlayerDisconnect { reason: r };
    match c.handle_server_packet(bye(DisconnectReason::Manual), 2) {
        ClientEvent::ReceivePacket(2, Packet::PlayerDisconnect { .. }) => {},
        _ => panic!("another player's disconnection is passed on"),
    }
    assert!(c.is_connected());
    match c.handle_server_packet(bye(DisconnectReason::Manual), 7) {
        ClientEvent::Empty => {},
        _ => panic!("unknown players are ignored"),
    }
    match c.handle_server_packet(bye(DisconnectReason::Desync), 1) {
        ClientEvent::Disconnect(DisconnectReason::Desync) => {},
        _ => panic!("this client was removed"),
    }
    assert!(!c.is_connected());
    match c.handle_server_packet(bye(DisconnectReason::HostShutdown), 0) {
        ClientEvent::ReceivePacket(0, _) => {},
        _ => panic!("host shutdown is passed on"),
    }
    match c.handle_server_packet(Packet::Game { phase: GamePhase::World }, 0) {
        ClientEvent::ReceivePacket(0, Packet::Game { phase: GamePhase::World }) => {},
        _ => panic!("game packets are passed on"),
    }
}

#[test]
fn server_admits_players_until_full() {
    let mut s = Server::host(NetSettings::new(2));
    match s.handle_external_packet(Packet::Handshake { name: "Anne".to_string() }) {
        ServerEvent::PlayerConnect(id) => assert_eq!((id.name.as_str(), id.n), ("Anne", 0)),
        _ => panic!("first player admitted"),
    }
    match s.handle_external_packet(Packet::Handshake { name: "Bonny".to_string() }) {
        ServerEvent::PlayerConnect(id) => assert_eq!(id.n, 1),
        _ => panic!("second player admitted"),
    }
    match s.handle_external_packet(Packet::Handshake { name: "Mary".to_string() }) {
        ServerEvent::Empty => {},
        _ => panic!("server is full"),
    }
    match s.handle_external_packet(Packet::ChatMessage { message: "hi".to_string() }) {
        ServerEvent::Empty => {},
        _ => panic!("strangers are ignored"),
    }
    assert_eq!(s.get_connection_count(), 2);
    let mut ids = s.get_connection_ids();
    ids.sort();
    assert_eq!(ids, vec![0, 1]);
    assert_eq!(NetSettings::default().max_players, 4);
}

#[test]
fn server_handles_players_leaving() {
    let mut s = Server::host(NetSettings::default());
    s.handle_external_packet(Packet::Handshake { name: "Anne".to_string() });
    s.handle_external_packet(Packet::Handshake { name: "Bonny".to_string() });
    let (ev, bytes) =
        s.handle_internal_packet(Packet::PlayerDisconnect { reason: DisconnectReason::Manual }, 1);
    match ev {
        ServerEvent::PlayerDisconnect(1, DisconnectReason::Manual) => {},
        _ => panic!("disconnection reported"),
    }
    match deserialize_packet(bytes.unwrap()) {
        Some((Packet::PlayerDisconnect { reason: DisconnectReason::Manual }, 1)) => {},
        _ => panic!("the others are told"),
    }
    assert!(s.get_conn_by_id(1).is_none());
    let (ev, bytes) = s.handle_timeout(1);
    match ev {
        ServerEvent::PlayerDisconnect(1, DisconnectReason::Timeout) => {},
        _ => panic!("timeout reported"),
    }
    assert!(bytes.is_none());
    match s.handle_internal_packet(Packet::ChatMessage { message: "yo".to_string() }, 0) {
        (ServerEvent::ReceivePacket(0, Packet::ChatMessage { .. }), None) => {},
        _ => panic!("chat passed on"),
    }
    assert_eq!(s.send_unicast(Packet::Game { phase: GamePhase::World }, 5).err(), Some(NetError::InvalidPlayerID(5)));
    let bytes = s.send_unicast(Packet::Game { phase: GamePhase::World }, 0).unwrap();
    assert_eq!(bytes, vec![0, 0, 7, 0]);
    // The next player gets a fresh id.
    match s.handle_external_packet(Packet::Handshake { name: "Mary".to_string() }) {
        ServerEvent::PlayerConnect(id) => assert_eq!(id.n, 2),
        _ => panic!("admitted"),
    }
}

#[test]
fn connection_names() {
    let mut c = Client::new("Bonny".to_string());
    c.handle_server_packet(Packet::HandshakeReply { players: vec![ID::new("Anne".to_string(), 0)] }, 0);
    assert_eq!(c.get_connection_name(0), "Anne");
    assert_eq!(c.get_connection_name(7), "Unknown player (ID: 7)");
    assert_eq!(c.get_name(), "Bonny");
}

#[test]
fn sync_report_when_due() {
    let ship = ShipSyncRecord { curr_health: 90, x_bits: 1, y_bits: 2, rot_bits: 3 };
    let mut c = Controller::new();
    // Generation 0 reports nothing.
    assert!(c.check_sync_state(vec![ship]).is_none());
    for g in 1..5 {
        c.apply_step(&InputStep::new(vec![], g));
    }
    let (state, bytes) = c.check_sync_state(vec![ship, ship]).unwrap();
    assert_eq!(state.t, 4);
    let mut buf = Vec::new();
    SyncState::serialize_ship(&mut buf, &ship);
    SyncState::serialize_ship(&mut buf, &ship);
    assert_eq!(state.hash, seahash::hash(&buf));
    assert_eq!(bytes, serialize_packet_unsigned(Packet::Sync { state }));
    match deserialize_packet_unsigned(bytes) {
        Some(Packet::Sync { state: read }) => assert_eq!((read.t, read.hash), (4, state.hash)),
        _ => panic!("the report does not read back as a sync packet"),
    }
}
