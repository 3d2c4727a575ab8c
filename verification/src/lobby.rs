//! The lobby before a match: ship selection, starting the match, the list
//! of players, and which scene follows the lobby.
use crate::packet::GamePhase;
use crate::peer::is_auth_client;
use crate::player::PlayerParams;
use crate::ship_data::ShipType;
use crate::text::{decimal, push_decimal};
use vstd::prelude::*;

verus! {

/// The screens of the game.
#[derive(Debug, Clone, Copy, PartialEq, Eq, Structural)]
pub enum SceneType {
    Startup,
    Login,
    Menu,
    Loading,
    Connection,
    Lobby,
    World,
}

/// Which lobby buttons were pressed during a frame.
#[derive(Debug, Clone, Copy, PartialEq, Eq, Structural)]
pub struct LobbyButtons {
    pub start_game: bool,
    pub caravel: bool,
    pub galleon: bool,
    pub schooner: bool,
}

/// The lobby's ship choice and whether this player started the match.
#[derive(Debug, Clone, Copy, PartialEq, Eq, Structural)]
pub struct ShipSelection {
    /// A choice not yet sent to the host.
    pub selected_ship_type: Option<ShipType>,
    /// The ship currently chosen; its button is disabled.
    pub chosen: ShipType,
    pub game_started: bool,
    /// Whether the start button is disabled: for every player but the
    /// host, and for the host once the match started.
    pub start_game_disabled: bool,
}

/// The ship chosen after a frame with the given presses: the last of the
/// caravel, galleon and schooner buttons pressed wins.
pub open spec fn chosen_after(chosen: ShipType, b: LobbyButtons) -> ShipType {
    if b.schooner {
        ShipType::Schooner
    } else if b.galleon {
        ShipType::Galleon
    } else if b.caravel {
        ShipType::Caravel
    } else {
        chosen
    }
}

/// The ship whose button was pressed is the one chosen: the schooner
/// whenever its button was pressed, else the galleon whenever its button
/// was, else the caravel whenever its button was; with none pressed the
/// choice stays.
pub proof fn lemma_pressed_ship_is_chosen(chosen: ShipType, b: LobbyButtons)
    ensures
        b.schooner ==> chosen_after(chosen, b) == ShipType::Schooner,
        !b.schooner && b.galleon ==> chosen_after(chosen, b) == ShipType::Galleon,
        !b.schooner && !b.galleon && b.caravel ==> chosen_after(chosen, b) == ShipType::Caravel,
        !b.schooner && !b.galleon && !b.caravel ==> chosen_after(chosen, b) == chosen,
{
}

impl ShipSelection {
    /// The caravel is chosen and waits to be sent; the match has not
    /// started; the start button is disabled unless this player hosts.
    pub fn new(has_authority: bool) -> (s: ShipSelection)
        ensures
            s == (ShipSelection {
                selected_ship_type: Some(ShipType::Caravel),
                chosen: ShipType::Caravel,
                game_started: false,
                start_game_disabled: !has_authority,
            }),
    {
        ShipSelection {
            selected_ship_type: Some(ShipType::Caravel),
            chosen: ShipType::Caravel,
            game_started: false,
            start_game_disabled: !has_authority,
        }
    }

    /// Handles the button presses of a frame. Returns whether the match is
    /// to start now: only the host starts it, and only once; starting it
    /// disables the start button.
    pub fn update(&mut self, pressed: LobbyButtons, has_authority: bool) -> (start: bool)
        ensures
            start == (pressed.start_game && has_authority && !old(self).game_started),
            final(self).game_started == (old(self).game_started || start),
            final(self).start_game_disabled == (old(self).start_game_disabled || start),
            final(self).chosen == chosen_after(old(self).chosen, pressed),
            pressed.schooner ==> final(self).chosen == ShipType::Schooner
                && final(self).selected_ship_type == Some(ShipType::Schooner),
            !pressed.schooner && pressed.galleon ==> final(self).chosen == ShipType::Galleon
                && final(self).selected_ship_type == Some(ShipType::Galleon),
            !pressed.schooner && !pressed.galleon && pressed.caravel ==> final(self).chosen
                == ShipType::Caravel && final(self).selected_ship_type == Some(ShipType::Caravel),
            final(self).selected_ship_type == (if pressed.caravel || pressed.galleon
                || pressed.schooner {
                Some(chosen_after(old(self).chosen, pressed))
            } else {
                old(self).selected_ship_type
            }),
    {
        let mut start = false;
        if pressed.start_game && has_authority && !self.game_started {
            self.game_started = true;
            self.start_game_disabled = true;
            start = true;
        }
        if pressed.caravel {
            self.selected_ship_type = Some(ShipType::Caravel);
            self.chosen = ShipType::Caravel;
        }
        if pressed.galleon {
            self.selected_ship_type = Some(ShipType::Galleon);
            self.chosen = ShipType::Galleon;
        }
        if pressed.schooner {
            self.selected_ship_type = Some(ShipType::Schooner);
            self.chosen = ShipType::Schooner;
        }
        start
    }

    /// Whether the button of `ship_type` is disabled: that of the chosen
    /// ship is.
    pub fn is_ship_button_disabled(&self, ship_type: ShipType) -> (b: bool)
        ensures
            b == (ship_type == self.chosen),
    {
        ship_type == self.chosen
    }

    /// Takes the choice that waits to be sent to the host.
    pub fn take_selection(&mut self) -> (r: Option<ShipType>)
        ensures
            r == old(self).selected_ship_type,
            *final(self) == (ShipSelection { selected_ship_type: None, ..*old(self) }),
    {
        let r = self.selected_ship_type;
        self.selected_ship_type = None;
        r
    }
}

/// Which scene follows the lobby: the loading screen once the match
/// started, the menu when the player disconnects or the connection was
/// lost, and the lobby itself otherwise.
pub open spec fn scene_after_lobby(game_started: bool, disconnect_pressed: bool, disconnected: bool) -> Option<SceneType> {
    if game_started {
        Some(SceneType::Loading)
    } else if disconnect_pressed || disconnected {
        Some(SceneType::Menu)
    } else {
        None
    }
}

/// A started match always leads to the loading screen; otherwise pressing
/// disconnect or losing the connection leads to the menu, and without
/// either the lobby stays.
pub proof fn lemma_lobby_exits(game_started: bool, disconnect_pressed: bool, disconnected: bool)
    ensures
        game_started ==> scene_after_lobby(game_started, disconnect_pressed, disconnected)
            == Some(SceneType::Loading),
        !game_started && (disconnect_pressed || disconnected) ==> scene_after_lobby(
            game_started,
            disconnect_pressed,
            disconnected,
        ) == Some(SceneType::Menu),
        scene_after_lobby(game_started, disconnect_pressed, disconnected) is None <==> (
        !game_started && !disconnect_pressed && !disconnected),
{
}

pub fn poll_lobby(game_started: bool, disconnect_pressed: bool, disconnected: bool) -> (r: Option<
    SceneType,
>)
    ensures
        r == scene_after_lobby(game_started, disconnect_pressed, disconnected),
{
    if game_started {
        Some(SceneType::Loading)
    } else if disconnect_pressed {
        Some(SceneType::Menu)
    } else if disconnected {
        Some(SceneType::Menu)
    } else {
        None
    }
}

/// What the host does with a request to change the phase of the match.
#[derive(Debug, Clone, Copy, PartialEq, Eq, Structural)]
pub enum PhaseVerdict {
    /// The change is passed on to every player.
    Broadcast,
    /// Only the world phase may be requested.
    InvalidPhase,
    /// Only the host may change the phase.
    InsufficientPermissions,
}

pub open spec fn phase_verdict(sender: u16, phase: GamePhase) -> PhaseVerdict {
    if sender != 0 {
        PhaseVerdict::InsufficientPermissions
    } else if phase == GamePhase::World {
        PhaseVerdict::Broadcast
    } else {
        PhaseVerdict::InvalidPhase
    }
}

/// Only the host may change the phase, and only to the world: every other
/// sender is refused for want of permission, and the host's request for
/// any other phase is refused as invalid.
pub proof fn lemma_only_host_starts_world(sender: u16, phase: GamePhase)
    ensures
        phase_verdict(sender, phase) == PhaseVerdict::Broadcast <==> (sender == 0 && phase
            == GamePhase::World),
        sender != 0 ==> phase_verdict(sender, phase) == PhaseVerdict::InsufficientPermissions,
        sender == 0 && phase != GamePhase::World ==> phase_verdict(sender, phase)
            == PhaseVerdict::InvalidPhase,
{
}

/// Judges a request by `sender` to change the match to `phase`.
pub fn judge_phase_change(sender: u16, phase: GamePhase) -> (v: PhaseVerdict)
    ensures
        v == phase_verdict(sender, phase),
{
    let valid = match phase {
        GamePhase::World => true,
        _ => false,
    };
    if !is_auth_client(sender) {
        PhaseVerdict::InsufficientPermissions
    } else if valid {
        PhaseVerdict::Broadcast
    } else {
        PhaseVerdict::InvalidPhase
    }
}

/// The name a ship class is shown under.
pub open spec fn ship_type_name(t: ShipType) -> Seq<char> {
    match t {
        ShipType::Caravel => "Caravel"@,
        ShipType::Schooner => "Schooner"@,
        ShipType::Galleon => "Galleon"@,
    }
}

/// A line of the lobby's player list: the player's name and number, a host
/// mark, and their ship class.
pub open spec fn player_label_text(name: Seq<char>, n: u16, ship_type: ShipType) -> Seq<char> {
    "  "@ + name + "^"@ + decimal(n as nat) + " "@ + (if n == 0 {
        "(Host)"@
    } else {
        ""@
    }) + " - "@ + ship_type_name(ship_type)
}

fn ship_type_name_str(t: ShipType) -> (s: &'static str)
    ensures
        s@ == ship_type_name(t),
{
    match t {
        ShipType::Caravel => "Caravel",
        ShipType::Schooner => "Schooner",
        ShipType::Galleon => "Galleon",
    }
}

/// The line showing a player in the lobby, such as `  Anne^0 (Host) -
/// Caravel`.
pub fn player_label(player: &PlayerParams) -> (s: String)
    ensures
        s@ == player_label_text(player.id.name@, player.id.n, player.ship_type),
{
    let mut s = String::new();
    s.append("  ");
    s.append(player.id.name.as_str());
    s.append("^");
    push_decimal(&mut s, player.id.n as u32);
    s.append(" ");
    if is_auth_client(player.id.n) {
        s.append("(Host)");
    } else {
        s.append("");
    }
    s.append(" - ");
    s.append(ship_type_name_str(player.ship_type));
    proof {
        assert(s@ =~= player_label_text(player.id.name@, player.id.n, player.ship_type));
    }
    s
}

} // verus!
