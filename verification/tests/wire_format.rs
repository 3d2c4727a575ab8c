use binary_stream::{BinaryWriter, Options};
use blackbeard::game_settings::{GameMode, GameSettings, Weather};
use blackbeard::id::ID;
use blackbeard::packet::{
    deserialize_packet, deserialize_packet_unsigned, serialize_packet, serialize_packet_unsigned,
    GamePhase, InputState, InputStep, MousePos, Packet,
};
use blackbeard::peer::DisconnectReason;
use blackbeard::player::PlayerParams;
use blackbeard::ship_data::ShipType;
use blackbeard::ship_mod::ShipModType;
use blackbeard::sync_checker::SyncState;
use blackbeard::wire::{
    read_string, read_u16, read_u32, read_u64, read_u8, write_string, write_u16, write_u32,
    write_u64, write_u8,
};
use std::io::Cursor;

fn stream_bytes(f: impl FnOnce(&mut BinaryWriter<&mut Cursor<Vec<u8>>>)) -> Vec<u8> {
    let mut cursor = Cursor::new(Vec::new());
    {
        let mut w = BinaryWriter::new(&mut cursor, Options::default());
        f(&mut w);
    }
    cursor.into_inner()
}

#[test]
fn integers_match_binary_stream() {
    let mut buf = Vec::new();
    write_u8(&mut buf, 0xab);
    write_u16(&mut buf, 0x1234);
    write_u32(&mut buf, 0xdead_beef);
    write_u64(&mut buf, 0x0102_0304_0506_0708);
    let expected = stream_bytes(|w| {
        w.write_u8(0xabu8).unwrap();
        w.write_u16(0x1234u16).unwrap();
        w.write_u32(0xdead_beefu32).unwrap();
        w.write_u64(0x0102_0304_0506_0708u64).unwrap();
    });
    assert_eq!(buf, expected);
    assert_eq!(&buf[1..3], &[0x34, 0x12]);
}

#[test]
fn strings_match_binary_stream() {
    let mut buf = Vec::new();
    write_string(&mut buf, &"Käpt'n".to_string());
    let expected = stream_bytes(|w| {
        w.write_string("Käpt'n").unwrap();
    });
    assert_eq!(buf, expected);
    assert_eq!(&buf[0..4], &[7, 0, 0, 0]);
}

#[test]
fn integers_read_back() {
    let mut buf = Vec::new();
    write_u8(&mut buf, 7);
    write_u16(&mut buf, 515);
    write_u32(&mut buf, 70000);
    write_u64(&mut buf, u64::MAX - 1);
    assert_eq!(read_u8(&buf, 0), Some((7, 1)));
    assert_eq!(read_u16(&buf, 1), Some((515, 3)));
    assert_eq!(read_u32(&buf, 3), Some((70000, 7)));
    assert_eq!(read_u64(&buf, 7), Some((u64::MAX - 1, 15)));
    assert_eq!(read_u8(&buf, 15), None);
    assert_eq!(read_u16(&buf, 14), None);
    assert_eq!(read_u64(&buf, 8), None);
}

#[test]
fn string_reads_back_and_rejects_bad_input() {
    let mut buf = Vec::new();
    write_string(&mut buf, &"Port Royal".to_string());
    let (s, p) = read_string(&buf, 0).unwrap();
    assert_eq!(s, "Port Royal");
    assert_eq!(p, buf.len());
    // Announced length longer than the bytes.
    assert!(read_string(&[5, 0, 0, 0, b'a'], 0).is_none());
    // Invalid UTF-8.
    assert!(read_string(&[2, 0, 0, 0, 0xff, 0xfe], 0).is_none());
    // Missing prefix.
    assert!(read_string(&[1, 0], 0).is_none());
}

#[test]
fn handshake_packet_bytes() {
    let bytes = serialize_packet(Packet::Handshake { name: "Anne".to_string() }, 3);
    assert_eq!(bytes, vec![3, 0, 0, 4, 0, 0, 0, b'A', b'n', b'n', b'e']);
    let unsigned = serialize_packet_unsigned(Packet::Handshake { name: "Anne".to_string() });
    assert_eq!(unsigned, vec![0, 4, 0, 0, 0, b'A', b'n', b'n', b'e']);
}

#[test]
fn packet_tags() {
    assert_eq!(Packet::Handshake { name: String::new() }.to_num(), 0);
    assert_eq!(Packet::HandshakeReply { players: vec![] }.to_num(), 1);
    assert_eq!(Packet::PlayerConnect { name: String::new() }.to_num(), 2);
    assert_eq!(Packet::PlayerDisconnect { reason: DisconnectReason::Manual }.to_num(), 3);
    assert_eq!(Packet::ChatMessage { message: String::new() }.to_num(), 4);
    assert_eq!(Packet::Input { state: InputState::default() }.to_num(), 5);
    assert_eq!(Packet::InputStep { step: InputStep::new(vec![], 0) }.to_num(), 6);
    assert_eq!(Packet::Game { phase: GamePhase::World }.to_num(), 7);
    assert_eq!(Packet::Sync { state: SyncState::new(1, 2) }.to_num(), 8);
}

#[test]
fn signed_packets_round_trip() {
    let bytes = serialize_packet(
        Packet::HandshakeReply {
            players: vec![ID::new("Anne".to_string(), 0), ID::new("Bonny".to_string(), 1)],
        },
        1,
    );
    match deserialize_packet(bytes) {
        Some((Packet::HandshakeReply { players }, sender)) => {
            assert_eq!(sender, 1);
            assert_eq!(players.len(), 2);
            assert_eq!(players[0].name, "Anne");
            assert_eq!(players[0].n, 0);
            assert_eq!(players[1].name, "Bonny");
            assert_eq!(players[1].n, 1);
        },
        _ => panic!("handshake reply not read back"),
    }
    match deserialize_packet(serialize_packet(Packet::ChatMessage { message: "Ahoy".to_string() }, 9)) {
        Some((Packet::ChatMessage { message }, 9)) => assert_eq!(message, "Ahoy"),
        _ => panic!("chat message not read back"),
    }
    match deserialize_packet(serialize_packet(
        Packet::PlayerDisconnect { reason: DisconnectReason::Desync },
        2,
    )) {
        Some((Packet::PlayerDisconnect { reason }, 2)) => assert_eq!(reason, DisconnectReason::Desync),
        _ => panic!("disconnect not read back"),
    }
    match deserialize_packet(serialize_packet(Packet::Game { phase: GamePhase::Score }, 0)) {
        Some((Packet::Game { phase }, 0)) => assert_eq!(phase, GamePhase::Score),
        _ => panic!("phase not read back"),
    }
    match deserialize_packet(serialize_packet(Packet::Sync { state: SyncState::new(12, 99) }, 4)) {
        Some((Packet::Sync { state }, 4)) => {
            assert_eq!(state.t, 12);
            assert_eq!(state.hash, 99);
        },
        _ => panic!("sync state not read back"),
    }
}

#[test]
fn input_packets_round_trip() {
    let state = InputState::new(
        true,
        false,
        true,
        true,
        Some(ShipModType::CannonRangeUpgrade),
        Some(MousePos { x_bits: 1.5f32.to_bits(), y_bits: (-2.25f32).to_bits() }),
    );
    let bytes = serialize_packet_unsigned(Packet::Input { state });
    // tag, flags (rmb | e | buy), mod type, two f32s
    assert_eq!(bytes.len(), 1 + 1 + 1 + 8);
    assert_eq!(bytes[1], 0b1101);
    assert_eq!(&bytes[3..7], &1.5f32.to_le_bytes());
    match deserialize_packet_unsigned(bytes) {
        Some(Packet::Input { state: s }) => assert_eq!(s, state),
        _ => panic!("input not read back"),
    }

    let mut step = InputStep::new(vec![], 42);
    step.add_state(0, InputState::default());
    step.add_state(5, state);
    match deserialize_packet_unsigned(serialize_packet_unsigned(Packet::InputStep { step })) {
        Some(Packet::InputStep { step: s }) => {
            assert_eq!(s.gen, 42);
            assert_eq!(s.states, vec![(0, InputState::default()), (5, state)]);
        },
        _ => panic!("step not read back"),
    }
}

#[test]
fn input_state_without_announced_parts() {
    // A purchase flag without a mod type writes no mod byte.
    let state = InputState::new(false, true, false, true, None, None);
    let bytes = serialize_packet_unsigned(Packet::Input { state });
    assert_eq!(bytes, vec![5, 0b1010]);
    // Reading it back expects the mod byte the flag announces.
    assert!(deserialize_packet_unsigned(bytes).is_none());
}

#[test]
fn malformed_packets_are_rejected() {
    assert!(deserialize_packet_unsigned(vec![]).is_none());
    assert!(deserialize_packet_unsigned(vec![9]).is_none());
    assert!(deserialize_packet_unsigned(vec![3, 4]).is_none());
    assert!(deserialize_packet_unsigned(vec![7, 2]).is_none());
    assert!(deserialize_packet_unsigned(vec![5, 0b1000, 9]).is_none());
    assert!(deserialize_packet(vec![1]).is_none());
    assert!(deserialize_packet(vec![1, 0, 8, 0]).is_none());
}

#[test]
fn trailing_bytes_are_ignored() {
    let mut bytes = serialize_packet(Packet::Game { phase: GamePhase::World }, 6);
    bytes.push(0xff);
    match deserialize_packet(bytes) {
        Some((Packet::Game { phase: GamePhase::World }, 6)) => {},
        _ => panic!("packet with trailing byte not read"),
    }
}

#[test]
fn game_settings_round_trip() {
    let g = GameSettings::new(GameMode::Deathmatch(7), Weather::Stormy);
    let mut buf = Vec::new();
    g.to_stream(&mut buf);
    assert_eq!(buf, vec![1, 7, 0, 3]);
    assert_eq!(GameSettings::from_stream(&buf, 0), Some((g, 4)));
    let d = GameSettings::default();
    assert_eq!(d.mode, GameMode::Raid(500));
    assert_eq!(d.weather, Weather::Sunny);
    assert!(GameSettings::from_stream(&[2, 0], 0).is_none());
}

#[test]
fn player_params_round_trip() {
    let mut p = PlayerParams::new(ID::new("Mary".to_string(), 2));
    assert_eq!(p.ship_type, ShipType::Caravel);
    p.ship_type = ShipType::Schooner;
    let mut buf = Vec::new();
    p.to_stream(&mut buf);
    assert_eq!(buf, vec![4, 0, 0, 0, b'M', b'a', b'r', b'y', 2, 0, 2]);
    let (q, pos) = PlayerParams::from_stream(&buf, 0).unwrap();
    assert_eq!(q.id.name, "Mary");
    assert_eq!(q.id.n, 2);
    assert_eq!(q.ship_type, ShipType::Schooner);
    assert_eq!(pos, buf.len());
    assert!(PlayerParams::from_stream(&buf[..10], 0).is_none());
}

#[test]
fn discovered_input_round_trips() {
    let m = MousePos { x_bits: 7f32.to_bits(), y_bits: 8f32.to_bits() };
    let s = InputState::discover(true, false, true, m);
    assert_eq!(s.mouse_pos, Some(m));
    assert!(!s.buy_mod);
    match deserialize_packet_unsigned(serialize_packet_unsigned(Packet::Input { state: s })) {
        Some(Packet::Input { state }) => assert_eq!(state, s),
        _ => panic!("input not read back"),
    }
    assert_eq!(InputState::discover(false, true, false, m).mouse_pos, None);
}
