//! Game rules, wire format and lock-step networking logic of the Blackbeard
//! naval combat game.

// Byte format of the network protocol.
pub mod wire;
pub mod id;
pub mod packet;

// Networking: connections, the lock-step protocol and desync detection.
pub mod peer;
pub mod client;
pub mod server;
pub mod net_controller;
pub mod input_pool;
pub mod playback_buffer;
pub mod controller;
pub mod sync_checker;

// Game rules.
pub mod economy;
pub mod ship_data;
pub mod ship_mod;
pub mod cannon;
pub mod combat;
pub mod spawn;
pub mod player;
pub mod entity;
pub mod physics;
pub mod game_settings;
pub mod world_settings;
pub mod diagnostics;

// Menus, lobby and display text.
pub mod settings;
pub mod lobby;
pub mod loading;
pub mod chat;
pub mod hud;
pub mod ui;
pub mod text;
pub mod host;
