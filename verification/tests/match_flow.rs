use blackbeard::client::ClientEvent;
use blackbeard::combat::{entity_collision_damage, settle_accident, settle_sinking};
use blackbeard::diagnostics::{Diagnostics, MAX_CACHE_SIZE};
use blackbeard::economy::{Deposit, Economy};
use blackbeard::entity::EntityType;
use blackbeard::host::HostSession;
use blackbeard::hud::{escudos_label, health_label, is_match_info_due, map_size, player_entry};
use blackbeard::id::ID;
use blackbeard::input_pool::{HostStepAction, InputPool};
use blackbeard::loading::{hint_line, loading_hint, rand_u32, random_hint_line, HINT_COUNT};
use blackbeard::net_controller::{route_client_event, route_server_event, ClientNotice, ServerNotice};
use blackbeard::packet::{deserialize_packet, GamePhase, InputState, InputStep, Packet};
use blackbeard::peer::DisconnectReason;
use blackbeard::player::{sort_players, PlayerParams};
use blackbeard::server::{NetError, NetSettings, Server, ServerEvent};
use blackbeard::ship_data::{ShipAttributes, ShipData, ShipID, ShipType};
use blackbeard::sync_checker::{SyncChecker, SyncState};
use blackbeard::world_settings::WorldEvent;

fn run_frames(pool: &mut InputPool, n: u32) -> Vec<HostStepAction> {
    (0..n).map(|_| pool.update_serverside()).collect()
}

#[test]
fn host_waits_for_everyone_before_the_first_step() {
    let mut pool = InputPool::new(vec![0, 1]);
    pool.add_state(0, InputState::default());
    // The phase lasts ten frames; player 1 has not signalled readiness.
    let actions = run_frames(&mut pool, 11);
    assert!(actions.iter().all(|a| matches!(a, HostStepAction::Wait)));
    pool.add_state(1, InputState::default());
    match pool.update_serverside() {
        HostStepAction::Broadcast(step) => {
            assert_eq!(step.gen, 1);
            assert_eq!(step.states.len(), 2);
        },
        _ => panic!("the first step goes out once everyone is ready"),
    }
    assert_eq!(pool.curr_frame_index, 1);
    // Later steps go out at the end of each phase, ready or not.
    let actions = run_frames(&mut pool, 9);
    assert!(actions.iter().all(|a| matches!(a, HostStepAction::Wait)));
    match pool.update_serverside() {
        HostStepAction::Broadcast(step) => {
            assert_eq!(step.gen, 2);
            assert!(step.states.is_empty());
        },
        _ => panic!("the second step goes out after ten frames"),
    }
}

#[test]
fn host_drops_players_who_never_answer() {
    let mut pool = InputPool::new(vec![0, 1, 2]);
    pool.add_state(0, InputState::default());
    let actions = run_frames(&mut pool, 900);
    assert!(actions.iter().all(|a| matches!(a, HostStepAction::Wait)));
    match pool.update_serverside() {
        HostStepAction::DropPlayers(mut ids) => {
            ids.sort();
            assert_eq!(ids, vec![1, 2]);
        },
        _ => panic!("silent players are dropped"),
    }
}

#[test]
fn sync_reports_reveal_desyncs() {
    let mut checker = SyncChecker::new();
    assert!(checker.receive_report(1, SyncState::new(3, 10)).is_empty());
    assert!(checker.receive_report(0, SyncState::new(3, 11)).contains(&1));
    assert_eq!(checker.receive_report(2, SyncState::new(3, 11)), vec![1]);
}

#[test]
fn collisions_and_sinkings() {
    assert_eq!(entity_collision_damage(false, &EntityType::Object, 60), Some(20));
    assert_eq!(entity_collision_damage(true, &EntityType::Object, 60), None);
    assert_eq!(entity_collision_damage(false, &EntityType::CannonBall, 60), None);
    assert_eq!(entity_collision_damage(false, &EntityType::Ship, 100), None);

    let mut victim = Deposit::new(200);
    let mut victor = Deposit::new(50);
    settle_sinking(&mut victim, &mut victor, 30, 26);
    assert_eq!((victim.balance, victim.networth), (170, 170));
    assert_eq!((victor.balance, victor.networth), (106, 106));

    let mut economy = Economy::new();
    economy.add_deposit();
    let mut unlucky = Deposit::default();
    settle_accident(&mut unlucky, &mut economy, 10);
    assert_eq!(unlucky.balance, 90);
    assert_eq!(economy.escudos_in_circulation, 90);
}

#[test]
fn sunk_ships_respawn_or_stay_down() {
    let attr = ShipAttributes::galleon();
    let mut d = ShipData::new(ShipType::Galleon, ShipID::Computer("Bot".to_string()), &attr);
    d.take_damage(200);
    d.sink(true);
    assert_eq!(d.curr_health, 160);
    assert!(!d.destroy);
    d.sink(false);
    assert_eq!(d.curr_health, 0);
    assert!(d.destroy);
}

#[test]
fn diagnostics_keep_the_latest_events() {
    let mut d: Diagnostics<u32> = Diagnostics::new();
    for i in 0..(MAX_CACHE_SIZE as u32 + 5) {
        d.add_state(i);
    }
    assert_eq!(d.len(), MAX_CACHE_SIZE);
    let states = d.take_states();
    assert_eq!(states.first(), Some(&5));
    assert_eq!(states.last(), Some(&(MAX_CACHE_SIZE as u32 + 4)));
    assert_eq!(d.len(), 0);
}

#[test]
fn match_display_texts() {
    assert_eq!(health_label(120, 140), "120/140 Health");
    assert_eq!(escudos_label(0), "0 Escudos");
    assert_eq!(player_entry(&ID::new("Anne".to_string(), 0)), "  Anne^0 (Host)");
    assert_eq!(player_entry(&ID::new("Mary".to_string(), 2)), "  Mary^2 ");
    assert_eq!(map_size(1), 15);
    assert_eq!(map_size(4), 30);
    assert_eq!(map_size(9), 30);
    assert!(is_match_info_due(20, 10));
    assert!(!is_match_info_due(20, 20));
    assert!(!is_match_info_due(21, 10));
}

#[test]
fn world_event_lines() {
    let e = WorldEvent::PlayerSunkByCannon("Anne^0".to_string(), "Mary^2".to_string());
    assert_eq!(e.describe(), "Anne^0 sunk Mary^2 with a cannon shot!");
    let e = WorldEvent::PlayerSunkByRamming("Anne^0".to_string(), "Mary^2".to_string());
    assert_eq!(e.describe(), "Anne^0 sunk Mary^2 by ramming!");
    let e = WorldEvent::PlayerSunkByAccident("Mary^2".to_string());
    assert_eq!(e.describe(), "Mary^2 sunk their own ship by accident!");
}

#[test]
fn loading_hints() {
    assert_eq!(
        hint_line(6),
        "Hint: The more escudos you have, the slower your ship will sail."
    );
    let all: Vec<String> = (0..HINT_COUNT).map(|i| format!("Hint: {}", loading_hint(i))).collect();
    for _ in 0..20 {
        assert!(all.contains(&random_hint_line()));
        let r = rand_u32(3, 5);
        assert!((3..=5).contains(&r));
    }
    assert_eq!(rand_u32(7, 7), 7);
}

#[test]
fn players_are_sorted_by_id() {
    let mut p2 = PlayerParams::new(ID::new("Mary".to_string(), 2));
    p2.ship_type = ShipType::Galleon;
    let players = vec![
        p2,
        PlayerParams::new(ID::new("Anne".to_string(), 0)),
        PlayerParams::new(ID::new("Bonny".to_string(), 1)),
    ];
    let sorted = sort_players(&players);
    let ids: Vec<(String, u16)> = sorted.iter().map(|p| (p.id.name.clone(), p.id.n)).collect();
    assert_eq!(
        ids,
        vec![("Anne".to_string(), 0), ("Bonny".to_string(), 1), ("Mary".to_string(), 2)]
    );
    assert_eq!(sorted[2].ship_type, ShipType::Galleon);
    assert!(sort_players(&vec![]).is_empty());
}

#[test]
fn client_events_are_routed() {
    match route_client_event(ClientEvent::ReceivePacket(3, Packet::PlayerConnect { name: "Mary".to_string() })) {
        ClientNotice::PlayerConnect(id) => assert_eq!((id.name.as_str(), id.n), ("Mary", 3)),
        _ => panic!("newcomer"),
    }
    match route_client_event(ClientEvent::ReceivePacket(
        0,
        Packet::PlayerDisconnect { reason: DisconnectReason::Manual },
    )) {
        ClientNotice::ConnectionLost(DisconnectReason::HostShutdown) => {},
        _ => panic!("host left"),
    }
    match route_client_event(ClientEvent::ReceivePacket(
        2,
        Packet::PlayerDisconnect { reason: DisconnectReason::Timeout },
    )) {
        ClientNotice::PlayerDisconnect(2, DisconnectReason::Timeout) => {},
        _ => panic!("player left"),
    }
    match route_client_event(ClientEvent::ReceivePacket(1, Packet::InputStep { step: InputStep::new(vec![], 4) })) {
        ClientNotice::InputStep(step) => assert_eq!(step.gen, 4),
        _ => panic!("step"),
    }
    match route_client_event(ClientEvent::Connect(1)) {
        ClientNotice::EstablishConnection => {},
        _ => panic!("connected"),
    }
    match route_client_event(ClientEvent::Disconnect(DisconnectReason::Desync)) {
        ClientNotice::ConnectionLost(DisconnectReason::Desync) => {},
        _ => panic!("dropped"),
    }
    match route_client_event(ClientEvent::ReceivePacket(1, Packet::Input { state: InputState::default() })) {
        ClientNotice::Nothing => {},
        _ => panic!("inputs are the host's business"),
    }
}

#[test]
fn server_events_are_routed() {
    match route_server_event(ServerEvent::ReceivePacket(2, Packet::Sync { state: SyncState::new(1, 2) })) {
        ServerNotice::SyncState(2, s) => assert_eq!(s.hash, 2),
        _ => panic!("sync"),
    }
    match route_server_event(ServerEvent::ReceivePacket(0, Packet::Game { phase: GamePhase::World })) {
        ServerNotice::SetGamePhase(0, GamePhase::World) => {},
        _ => panic!("phase"),
    }
    match route_server_event(ServerEvent::PlayerDisconnect(4, DisconnectReason::Timeout)) {
        ServerNotice::Disconnect(4, DisconnectReason::Timeout) => {},
        _ => panic!("departure"),
    }
    match route_server_event(ServerEvent::Empty) {
        ServerNotice::Nothing => {},
        _ => panic!("nothing"),
    }
}

#[test]
fn host_welcomes_newcomers() {
    let mut s = Server::host(NetSettings::default());
    let anne = match s.handle_external_packet(Packet::Handshake { name: "Anne".to_string() }) {
        ServerEvent::PlayerConnect(id) => id,
        _ => panic!("admitted"),
    };
    let (reply, announce) = s.welcome(&anne, vec![ID::new("Anne".to_string(), 0)]);
    assert!(announce.is_none());
    match deserialize_packet(reply) {
        Some((Packet::HandshakeReply { players }, 0)) => assert_eq!(players.len(), 1),
        _ => panic!("reply"),
    }
    s.handle_external_packet(Packet::Handshake { name: "Bonny".to_string() });
    let mary = match s.handle_external_packet(Packet::Handshake { name: "Mary".to_string() }) {
        ServerEvent::PlayerConnect(id) => id,
        _ => panic!("admitted"),
    };
    let (_, announce) = s.welcome(&mary, vec![]);
    let (bytes, mut targets) = announce.unwrap();
    targets.sort();
    assert_eq!(targets, vec![0, 1]);
    match deserialize_packet(bytes) {
        Some((Packet::PlayerConnect { name }, 2)) => assert_eq!(name, "Mary"),
        _ => panic!("announcement"),
    }
    assert_eq!(s.plan_multicast_group(&[0, 2, 5, 1]), (2, Some(NetError::InvalidPlayerID(5))));
    assert_eq!(s.plan_multicast_group(&[1, 0]), (2, None));
}

#[test]
fn host_session_tracks_players_and_match() {
    let mut h = HostSession::new();
    assert!(h.tick().is_none());
    h.register(&ID::new("Ann".to_string(), 1));
    h.register(&ID::new("Bob".to_string(), 2));
    h.register(&ID::new("Cid".to_string(), 3));
    let names: Vec<u16> = h.player_list().iter().map(|i| i.n).collect();
    assert_eq!(names, vec![1, 2, 3]);
    h.remove_player(2);
    let names: Vec<u16> = h.player_list().iter().map(|i| i.n).collect();
    assert_eq!(names, vec![1, 3]);
    // Inputs before the match starts are not kept.
    h.add_input(1, InputState::default());
    h.start_match();
    assert!(h.can_tick());
    h.add_input(1, InputState::default());
    h.add_input(3, InputState::default());
    let mut broadcast = None;
    for _ in 0..11 {
        match h.tick() {
            Some(HostStepAction::Broadcast(step)) => broadcast = Some(step),
            Some(HostStepAction::Wait) => {},
            other => panic!("unexpected step action {:?}", other.is_some()),
        }
    }
    let step = broadcast.expect("the first step phase ends with a broadcast");
    let mut senders: Vec<u16> = step.states.iter().map(|(n, _)| *n).collect();
    senders.sort();
    assert_eq!(senders, vec![1, 3]);
}

#[test]
fn stunned_or_cannonball_collisions_ignore_defense() {
    assert_eq!(entity_collision_damage(true, &EntityType::Ship, u16::MAX), None);
    assert_eq!(entity_collision_damage(false, &EntityType::CannonBall, u16::MAX), None);
    assert_eq!(entity_collision_damage(false, &EntityType::Ship, 60), Some(20));
}
