use blackbeard::chat::{check_messages, ChatLog, MAX_CHAT_MESSAGES_COUNT};
use blackbeard::id::ID;
use blackbeard::lobby::{
    judge_phase_change, player_label, poll_lobby, LobbyButtons, PhaseVerdict, SceneType,
    ShipSelection,
};
use blackbeard::packet::GamePhase;
use blackbeard::physics::{get_any_coll_group, get_decal_coll_group, get_empty_coll_group};
use blackbeard::player::PlayerParams;
use blackbeard::settings::{Settings, SimulationSettings};
use blackbeard::ship_data::ShipType;
use blackbeard::text::{get_version, push_decimal};
use blackbeard::ui::{
    DefaultUIReactor, FontSize, ReactorCallback, SpriteOrigin, UIAlignment, UILayout, UIState,
};
use blackbeard::world_settings::{place_harbour, WorldEvent, WorldSettings};

#[test]
fn names_are_checked() {
    let mut s = Settings::new();
    assert!(s.show_watermark);
    assert_eq!(s.name, "");
    assert!(!s.set_name("Ann".to_string()));
    assert!(!s.set_name("Anne Bonny".to_string()));
    assert!(!s.set_name("A".repeat(22)));
    assert_eq!(s.name, "");
    assert!(s.set_name("Anne".to_string()));
    assert_eq!(s.name, "Anne");
    assert!(s.set_name("A".repeat(21)));
    // Length counts UTF-8 bytes: two two-byte letters make four bytes.
    assert!(s.set_name("ÄÖ".to_string()));
    assert_eq!(s.name, "ÄÖ");
}

#[test]
fn simulation_settings_track_progress() {
    let mut s = SimulationSettings::new();
    assert!(s.run);
    assert_eq!((s.curr_gen, s.curr_frames), (0, 0));
    s.update(3, 41);
    assert_eq!((s.curr_gen, s.curr_frames), (3, 41));
}

#[test]
fn world_events_flush_in_order() {
    let mut w = WorldSettings::new();
    w.add_event(WorldEvent::PlayerSunkByCannon("Anne".to_string(), "Mary".to_string()));
    w.add_event(WorldEvent::PlayerSunkByAccident("Bonny".to_string()));
    let events = w.flush_events();
    assert_eq!(events.len(), 2);
    match &events[0] {
        WorldEvent::PlayerSunkByCannon(a, b) => assert_eq!((a.as_str(), b.as_str()), ("Anne", "Mary")),
        _ => panic!("first event first"),
    }
    match &events[1] {
        WorldEvent::PlayerSunkByAccident(a) => assert_eq!(a, "Bonny"),
        _ => panic!("second event second"),
    }
    assert!(w.flush_events().is_empty());
}

#[test]
fn harbours_are_spread_out() {
    let (mut harbours, mut col) = (0u32, 0u32);
    assert!(!place_harbour(&mut harbours, &mut col, 40, 5));
    assert!(place_harbour(&mut harbours, &mut col, 40, 10));
    assert_eq!((harbours, col), (1, 10));
    assert!(!place_harbour(&mut harbours, &mut col, 40, 19));
    assert!(place_harbour(&mut harbours, &mut col, 40, 20));
    assert!(!place_harbour(&mut harbours, &mut col, 40, 39));
    assert_eq!((harbours, col), (2, 20));
}

#[test]
fn collision_groups() {
    assert_eq!(get_any_coll_group(), 7);
    assert_eq!(get_decal_coll_group(), 6);
    assert_eq!(get_empty_coll_group(), 0);
}

#[test]
fn version_and_numbers() {
    assert_eq!(get_version(), "v0.1");
    let mut s = "n=".to_string();
    push_decimal(&mut s, 4096);
    assert_eq!(s, "n=4096");
    let mut z = String::new();
    push_decimal(&mut z, 0);
    assert_eq!(z, "0");
}

#[test]
fn ui_reactor_states() {
    let mut r = DefaultUIReactor::new();
    assert_eq!(r.get_state(), UIState::Idle);
    assert_eq!(r.update_reactor(false, true), Some(ReactorCallback::Hover));
    assert_eq!(r.button_frame(), 1);
    assert_eq!(r.update_reactor(false, true), None);
    assert_eq!(r.update_reactor(true, true), Some(ReactorCallback::Click));
    assert!(r.is_pressed());
    assert_eq!(r.button_frame(), 2);
    r.release();
    assert_eq!(r.get_state(), UIState::Idle);
    assert_eq!(r.update_reactor(true, false), Some(ReactorCallback::Unfocus));
    r.set_state(UIState::Hover);
    assert_eq!(r.update_reactor(false, false), Some(ReactorCallback::Unhover));
    r.set_disabled(true);
    assert!(r.is_disabled());
    assert_eq!(r.update_reactor(true, true), None);
    assert_eq!(r.get_state(), UIState::Disabled);
    assert_eq!(r.button_frame(), 0);
    r.set_disabled(false);
    assert_eq!(r.get_state(), UIState::Idle);
    assert_ne!(SpriteOrigin::Centre, SpriteOrigin::TopLeft);
    assert_ne!(UIAlignment::Vertical, UIAlignment::Horizontal);
    assert_ne!(UILayout::Default, UILayout::Centre);
    assert_ne!(FontSize::Small, FontSize::Header);
}

#[test]
fn lobby_ship_selection() {
    assert!(ShipSelection::new(false).start_game_disabled);
    let mut sel = ShipSelection::new(true);
    assert!(!sel.start_game_disabled);
    assert_eq!(sel.take_selection(), Some(ShipType::Caravel));
    assert_eq!(sel.take_selection(), None);
    assert!(sel.is_ship_button_disabled(ShipType::Caravel));
    let none = LobbyButtons { start_game: false, caravel: false, galleon: false, schooner: false };
    assert!(!sel.update(LobbyButtons { galleon: true, ..none }, false));
    assert!(sel.is_ship_button_disabled(ShipType::Galleon));
    assert!(!sel.is_ship_button_disabled(ShipType::Caravel));
    assert_eq!(sel.take_selection(), Some(ShipType::Galleon));
    // Only the host starts the match, and only once.
    assert!(!sel.update(LobbyButtons { start_game: true, ..none }, false));
    assert!(!sel.start_game_disabled);
    assert!(sel.update(LobbyButtons { start_game: true, ..none }, true));
    assert!(sel.start_game_disabled);
    assert!(!sel.update(LobbyButtons { start_game: true, ..none }, true));
    assert!(sel.game_started);
}

#[test]
fn lobby_scene_transitions() {
    assert_eq!(poll_lobby(true, true, true), Some(SceneType::Loading));
    assert_eq!(poll_lobby(false, true, false), Some(SceneType::Menu));
    assert_eq!(poll_lobby(false, false, true), Some(SceneType::Menu));
    assert_eq!(poll_lobby(false, false, false), None);
}

#[test]
fn lobby_phase_changes() {
    assert_eq!(judge_phase_change(0, GamePhase::World), PhaseVerdict::Broadcast);
    assert_eq!(judge_phase_change(0, GamePhase::Score), PhaseVerdict::InvalidPhase);
    assert_eq!(judge_phase_change(3, GamePhase::World), PhaseVerdict::InsufficientPermissions);
}

#[test]
fn lobby_player_labels() {
    let host = PlayerParams::new(ID::new("Anne".to_string(), 0));
    assert_eq!(player_label(&host), "  Anne^0 (Host) - Caravel");
    let mut guest = PlayerParams::new(ID::new("Mary".to_string(), 3));
    guest.ship_type = ShipType::Galleon;
    assert_eq!(player_label(&guest), "  Mary^3  - Galleon");
}

#[test]
fn chat_shows_the_last_lines() {
    let mut chat = ChatLog::new();
    chat.add_message("Anne^0", "Ahoy!");
    assert_eq!(chat.lines(), &vec!["Anne^0: Ahoy!".to_string()]);
    for i in 0..MAX_CHAT_MESSAGES_COUNT {
        chat.add_line(format!("line {}", i));
    }
    assert_eq!(chat.lines().len(), MAX_CHAT_MESSAGES_COUNT);
    assert_eq!(chat.lines()[0], "line 0");
    assert_eq!(chat.lines()[MAX_CHAT_MESSAGES_COUNT - 1], "line 12");
    assert_eq!(check_messages(&"hi".to_string(), true, false), Some("hi".to_string()));
    assert_eq!(check_messages(&"hi".to_string(), false, true), Some("hi".to_string()));
    assert_eq!(check_messages(&"hi".to_string(), false, false), None);
    assert_eq!(check_messages(&String::new(), true, true), None);
}
