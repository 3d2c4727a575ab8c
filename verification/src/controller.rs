//! The client's lock-step controller: it gathers the local player's input
//! for the next step, decides when the simulation may advance, and adjusts
//! the simulation speed to the number of buffered steps.
use crate::packet::{
    bytes_packet, serialize_packet_unsigned, InputState, InputStep, MousePos, Packet, PacketView,
};
use crate::playback_buffer::{phase_at, PlaybackBuffer, PlaybackBufferView, StepPhase};
use crate::ship_mod::ShipModType;
use crate::sync_checker::{
    seahash_of, ships_sync_bytes, ShipSyncRecord, SyncState, SYNC_STATE_GEN_INTERVAL,
};
use vstd::prelude::*;

verus! {

/// Frames simulated per second at normal speed.
pub const DEFAULT_SIMULATION_TIMESTEP: u32 = 60;

/// The highest speed, in frames per second, of a gentle catch-up.
pub const MAX_ACCELERATED_TIMESTEP: u32 = 360;

/// The speed, in frames per second, of a hard catch-up.
pub const HARD_CATCH_UP_TIMESTEP: u32 = 600;

/// Extra frames per second for each step buffered beyond the optimum.
pub const CATCH_UP_ACCELERATION: u32 = 5;

/// An input event that the controller reacts to.
#[derive(Debug, Clone, Copy, PartialEq, Eq, Structural)]
pub enum ControlEvent {
    /// The right mouse button was pressed at this position of the world.
    RightClick(MousePos),
    /// The `R` key was pressed while the mouse was at this position.
    KeyR(MousePos),
    KeySpace,
    KeyQ,
    KeyE,
    KeyTab,
    /// Any other event.
    Other,
}

/// What the caller has to do after the controller handled an event.
#[derive(Debug, Clone, Copy, PartialEq, Eq, Structural)]
pub enum ControlAction {
    /// Show the target marker at this position.
    MarkTarget(MousePos),
    /// Centre the camera on the local player's ship.
    CentreCamera,
}

/// The local input after an event, and the action it calls for.
pub open spec fn event_effect(s: InputState, ev: ControlEvent) -> (InputState, Option<ControlAction>) {
    match ev {
        ControlEvent::RightClick(pos) => (
            InputState { mouse_pos: Some(pos), rmb: true, ..s },
            Some(ControlAction::MarkTarget(pos)),
        ),
        ControlEvent::KeyR(pos) => (
            InputState { mouse_pos: Some(pos), rmb: false, ..s },
            Some(ControlAction::MarkTarget(pos)),
        ),
        ControlEvent::KeySpace => (InputState { q: true, e: true, ..s }, None),
        ControlEvent::KeyQ => (InputState { q: true, ..s }, None),
        ControlEvent::KeyE => (InputState { e: true, ..s }, None),
        ControlEvent::KeyTab => (s, Some(ControlAction::CentreCamera)),
        ControlEvent::Other => (s, None),
    }
}

/// The simulation speed, in frames per second, for `buffered` waiting steps
/// when `optimal` would be ideal: a hard catch-up beyond twice the optimum,
/// a gentle one of five frames per extra step (at most the accelerated
/// maximum) beyond the optimum, and normal speed otherwise.
pub open spec fn timestep_for(buffered: int, optimal: int) -> int {
    if buffered > 2 * optimal {
        HARD_CATCH_UP_TIMESTEP as int
    } else if buffered > optimal {
        let t = DEFAULT_SIMULATION_TIMESTEP + CATCH_UP_ACCELERATION * (buffered - optimal);
        if t < MAX_ACCELERATED_TIMESTEP {
            t
        } else {
            MAX_ACCELERATED_TIMESTEP as int
        }
    } else {
        DEFAULT_SIMULATION_TIMESTEP as int
    }
}

/// What a [`Controller`] holds besides its playback buffer: whether it
/// reacts to input, whether a local player is set, the input gathered for
/// the next step and the generation last played.
pub struct ControllerView {
    pub catch_input: bool,
    pub has_local_player: bool,
    pub buffer: PlaybackBufferView,
    pub curr_input_state: InputState,
    pub curr_gen: u64,
}

/// The step logic of a client.
pub struct Controller {
    pub catch_input: bool,
    pub input_buffer: PlaybackBuffer,
    has_local_player: bool,
    curr_input_state: InputState,
    curr_gen: u64,
}

impl View for Controller {
    type V = ControllerView;

    closed spec fn view(&self) -> ControllerView {
        ControllerView {
            catch_input: self.catch_input,
            has_local_player: self.has_local_player,
            buffer: self.input_buffer@,
            curr_input_state: self.curr_input_state,
            curr_gen: self.curr_gen,
        }
    }
}

/// The input of a step in which the player did nothing.
pub open spec fn idle_input() -> InputState {
    InputState {
        rmb: false,
        q: false,
        e: false,
        buy_mod: false,
        mod_type: None,
        mouse_pos: None,
    }
}

impl Controller {
    /// A controller at generation 0 that reacts to input, with an empty
    /// buffer and no local player yet.
    pub fn new() -> (c: Controller)
        ensures
            c@.catch_input,
            !c@.has_local_player,
            c@.buffer == (PlaybackBufferView {
                curr_frames: 0,
                steps: Seq::empty(),
                curr_frame_index: 0,
                received_steps: 0,
            }),
            c@.curr_input_state == idle_input(),
            c@.curr_gen == 0,
    {
        Controller {
            catch_input: true,
            input_buffer: PlaybackBuffer::new(),
            has_local_player: false,
            curr_input_state: InputState::default(),
            curr_gen: 0,
        }
    }

    /// Marks that the local player's ship is known, so that input events
    /// take effect.
    pub fn set_local_player(&mut self)
        ensures
            final(self)@ == (ControllerView { has_local_player: true, ..old(self)@ }),
    {
        self.has_local_player = true;
    }

    /// Asks to buy a mod with the next step.
    pub fn buy_ship_mod(&mut self, mod_type: ShipModType)
        ensures
            final(self)@ == (ControllerView {
                curr_input_state: InputState {
                    buy_mod: true,
                    mod_type: Some(mod_type),
                    ..old(self)@.curr_input_state
                },
                ..old(self)@
            }),
    {
        self.curr_input_state.buy_mod = true;
        self.curr_input_state.mod_type = Some(mod_type);
    }

    /// Queues a step received from the host.
    pub fn add_step(&mut self, step: InputStep)
        requires
            old(self)@.buffer.received_steps < u64::MAX,
        ensures
            final(self)@ == (ControllerView {
                buffer: PlaybackBufferView {
                    steps: old(self)@.buffer.steps.push(step@),
                    received_steps: (old(self)@.buffer.received_steps + 1) as u64,
                    ..old(self)@.buffer
                },
                ..old(self)@
            }),
    {
        self.input_buffer.add_step(step);
    }

    /// The simulation may advance a frame while the phase runs, and at the
    /// end of a phase only when the next step has arrived.
    pub fn is_next_frame_ready(&self) -> (b: bool)
        ensures
            b == (phase_at(self@.buffer.curr_frame_index) == StepPhase::Running
                || self@.buffer.steps.len() > 0),
    {
        match self.input_buffer.get_curr_phase() {
            StepPhase::Over | StepPhase::Imminent => self.input_buffer.get_buffer_size() > 0,
            StepPhase::Running => true,
        }
    }

    pub fn get_curr_gen(&self) -> (g: u64)
        ensures
            g == self@.curr_gen,
    {
        self.curr_gen
    }

    /// The simulation speed, in frames per second, for the steps buffered
    /// now when `optimal_buffer_size` would be ideal.
    pub fn adjust_simulation(&self, optimal_buffer_size: usize) -> (timestep: u32)
        ensures
            timestep == timestep_for(self@.buffer.steps.len() as int, optimal_buffer_size as int),
    {
        let buffered = self.input_buffer.get_buffer_size();
        if buffered > optimal_buffer_size && buffered - optimal_buffer_size > optimal_buffer_size {
            HARD_CATCH_UP_TIMESTEP
        } else if buffered > optimal_buffer_size {
            let extra = buffered - optimal_buffer_size;
            if extra >= 60 {
                MAX_ACCELERATED_TIMESTEP
            } else {
                DEFAULT_SIMULATION_TIMESTEP + CATCH_UP_ACCELERATION * (extra as u32)
            }
        } else {
            DEFAULT_SIMULATION_TIMESTEP
        }
    }

    /// At the end of a phase, takes the next step to play, if it has
    /// arrived; otherwise nothing changes.
    pub fn update_step(&mut self) -> (r: Option<InputStep>)
        ensures
            phase_at(old(self)@.buffer.curr_frame_index) == StepPhase::Over && old(
                self,
            )@.buffer.steps.len() > 0 ==> (r matches Some(s) && s@ == old(self)@.buffer.steps[0]
                && final(self)@ == (ControllerView {
                buffer: PlaybackBufferView {
                    steps: old(self)@.buffer.steps.drop_first(),
                    curr_frame_index: 0,
                    ..old(self)@.buffer
                },
                ..old(self)@
            })),
            !(phase_at(old(self)@.buffer.curr_frame_index) == StepPhase::Over && old(
                self,
            )@.buffer.steps.len() > 0) ==> r is None && final(self)@ == old(self)@,
    {
        if self.input_buffer.get_curr_phase() == StepPhase::Over {
            self.input_buffer.get_next_step()
        } else {
            None
        }
    }

    /// Enters the generation of a step taken from the buffer; steps are
    /// played in the order of their generations.
    pub fn apply_step(&mut self, step: &InputStep)
        requires
            step@.gen == old(self)@.curr_gen + 1,
        ensures
            final(self)@ == (ControllerView { curr_gen: step@.gen, ..old(self)@ }),
    {
        self.curr_gen = step.gen;
    }

    /// Hands over the input gathered for the next step and starts gathering
    /// anew.
    pub fn send_curr_state(&mut self) -> (s: InputState)
        ensures
            s == old(self)@.curr_input_state,
            final(self)@ == (ControllerView { curr_input_state: idle_input(), ..old(self)@ }),
    {
        let s = self.curr_input_state;
        self.curr_input_state = InputState::default();
        s
    }

    /// Whether a sync report is due for the generation just played.
    pub fn is_sync_due(&self) -> (b: bool)
        ensures
            b == (self@.curr_gen % SYNC_STATE_GEN_INTERVAL == 0 && self@.curr_gen > 0),
    {
        self.curr_gen % SYNC_STATE_GEN_INTERVAL == 0 && self.curr_gen > 0
    }

    /// The sync report of the generation just played, when one is due: the
    /// hash of the given ships' state (in the order of the players) for
    /// the current generation, and the bytes of the packet that carries it
    /// to the host. No report is made when none is due.
    pub fn check_sync_state(&self, ships: Vec<ShipSyncRecord>) -> (r: Option<(SyncState, Vec<u8>)>)
        ensures
            (self@.curr_gen % SYNC_STATE_GEN_INTERVAL == 0 && self@.curr_gen > 0) ==> (r matches Some(
                (state, bytes),
            ) && state.t == self@.curr_gen && state.hash == seahash_of(ships_sync_bytes(ships@))
                && bytes@ == bytes_packet(PacketView::Sync { state })),
            !(self@.curr_gen % SYNC_STATE_GEN_INTERVAL == 0 && self@.curr_gen > 0) ==> r is None,
    {
        if self.is_sync_due() {
            let state = SyncState::gen_from_ships(self.curr_gen, ships);
            let bytes = serialize_packet_unsigned(Packet::Sync { state });
            Some((state, bytes))
        } else {
            None
        }
    }

    /// Reacts to an input event of the local player; events are ignored
    /// while input is not caught or no local player is set.
    pub fn event(&mut self, ev: ControlEvent) -> (action: Option<ControlAction>)
        ensures
            old(self)@.catch_input && old(self)@.has_local_player ==> ({
                let (s, a) = event_effect(old(self)@.curr_input_state, ev);
                &&& final(self)@ == (ControllerView { curr_input_state: s, ..old(self)@ })
                &&& action == a
            }),
            !(old(self)@.catch_input && old(self)@.has_local_player) ==> action is None
                && final(self)@ == old(self)@,
            old(self)@.catch_input && old(self)@.has_local_player && ev == ControlEvent::KeyQ
                ==> final(self)@.curr_input_state == (InputState {
                q: true,
                ..old(self)@.curr_input_state
            }),
            old(self)@.catch_input && old(self)@.has_local_player && ev == ControlEvent::KeyE
                ==> final(self)@.curr_input_state == (InputState {
                e: true,
                ..old(self)@.curr_input_state
            }),
    {
        if !self.catch_input || !self.has_local_player {
            return None;
        }
        match ev {
            ControlEvent::RightClick(pos) => {
                self.curr_input_state.mouse_pos = Some(pos);
                self.curr_input_state.rmb = true;
                Some(ControlAction::MarkTarget(pos))
            },
            ControlEvent::KeyR(pos) => {
                self.curr_input_state.mouse_pos = Some(pos);
                self.curr_input_state.rmb = false;
                Some(ControlAction::MarkTarget(pos))
            },
            ControlEvent::KeySpace => {
                self.curr_input_state.q = true;
                self.curr_input_state.e = true;
                None
            },
            ControlEvent::KeyQ => {
                self.curr_input_state.q = true;
                None
            },
            ControlEvent::KeyE => {
                self.curr_input_state.e = true;
                None
            },
            ControlEvent::KeyTab => Some(ControlAction::CentreCamera),
            ControlEvent::Other => None,
        }
    }
}

/// The simulation never slows below normal speed and never runs faster
/// than a hard catch-up; it speeds up only when more steps wait than is
/// optimal.
pub proof fn lemma_timestep_bounds(buffered: nat, optimal: nat)
    ensures
        DEFAULT_SIMULATION_TIMESTEP <= timestep_for(buffered as int, optimal as int)
            <= HARD_CATCH_UP_TIMESTEP,
        buffered <= optimal ==> timestep_for(buffered as int, optimal as int)
            == DEFAULT_SIMULATION_TIMESTEP,
        buffered > optimal ==> timestep_for(buffered as int, optimal as int)
            > DEFAULT_SIMULATION_TIMESTEP,
{
}

/// Catching up grows with the backlog: a larger backlog never slows the
/// simulation; beyond the optimum each extra step adds the acceleration
/// (up to the accelerated maximum), and beyond twice the optimum the hard
/// catch-up applies.
pub proof fn lemma_timestep_catch_up(b1: nat, b2: nat, optimal: nat)
    ensures
        b1 <= b2 ==> timestep_for(b1 as int, optimal as int) <= timestep_for(
            b2 as int,
            optimal as int,
        ),
        optimal < b1 <= 2 * optimal && DEFAULT_SIMULATION_TIMESTEP + CATCH_UP_ACCELERATION * (b1
            - optimal) <= MAX_ACCELERATED_TIMESTEP ==> timestep_for(b1 as int, optimal as int)
            == DEFAULT_SIMULATION_TIMESTEP + CATCH_UP_ACCELERATION * (b1 - optimal),
        optimal < b1 <= 2 * optimal ==> timestep_for(b1 as int, optimal as int)
            <= MAX_ACCELERATED_TIMESTEP,
        b1 > 2 * optimal ==> timestep_for(b1 as int, optimal as int) == HARD_CATCH_UP_TIMESTEP,
{
}

/// The input an event leaves is what the player asked for: every event
/// keeps the purchase request, and only a right click sets the right
/// button.
pub proof fn lemma_event_keeps_purchase(s: InputState, ev: ControlEvent)
    ensures
        event_effect(s, ev).0.buy_mod == s.buy_mod,
        event_effect(s, ev).0.mod_type == s.mod_type,
        event_effect(s, ev).0.rmb == (ev is RightClick || (s.rmb && !(ev is KeyR))),
{
}

/// The input a controller gathers announces exactly the purchase it
/// carries, and a pressed right button comes with its target.
pub open spec fn gathered_input_wf(s: InputState) -> bool {
    &&& s.buy_mod <==> s.mod_type is Some
    &&& s.rmb ==> s.mouse_pos is Some
}

/// Starting a step, reacting to events and asking to buy a mod all keep
/// the gathered input well formed. (The `R` key leaves a target without
/// the right button, which the wire format does not carry.)
pub proof fn lemma_gathered_input_wf(s: InputState, ev: ControlEvent, t: ShipModType)
    requires
        gathered_input_wf(s),
    ensures
        gathered_input_wf(idle_input()),
        gathered_input_wf(event_effect(s, ev).0),
        gathered_input_wf(InputState { buy_mod: true, mod_type: Some(t), ..s }),
{
}

} // verus!
