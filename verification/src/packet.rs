//! The packets exchanged between clients and host, and their byte format.
use crate::id::{bytes_id, lemma_take_id, take_id, IDView, ID};
use crate::peer::{
    bytes_disconnect_reason,
    lemma_take_disconnect_reason,
    take_disconnect_reason,
    DisconnectReason,
};
use crate::ship_mod::{bytes_ship_mod_type, lemma_take_ship_mod_type, take_ship_mod_type, ShipModType};
use crate::sync_checker::{bytes_sync_state, lemma_take_sync_state, take_sync_state, SyncState};
use crate::wire::{
    bytes_string,
    bytes_u16,
    bytes_u32,
    bytes_u64,
    bytes_u8,
    lemma_take_string,
    lemma_take_u16,
    lemma_take_u32,
    lemma_take_u64,
    lemma_take_u8,
    read_matches,
    read_string,
    read_u16,
    read_u32,
    read_u64,
    read_u8,
    string_fits,
    take_string,
    take_u16,
    take_u32,
    take_u64,
    take_u8,
    write_string,
    write_u16,
    write_u32,
    write_u64,
    write_u8,
};
use vstd::prelude::*;

verus! {

/// A mouse position as the bit patterns of its two `f32` coordinates.
#[derive(Debug, Clone, Copy, PartialEq, Eq, Structural)]
pub struct MousePos {
    pub x_bits: u32,
    pub y_bits: u32,
}

/// The input a player gave during one step: right mouse button, the two
/// broadside keys, a mod purchase and the targeted position.
#[derive(Debug, Clone, Copy, PartialEq, Eq, Structural)]
pub struct InputState {
    pub rmb: bool,
    pub q: bool,
    pub e: bool,
    pub buy_mod: bool,
    pub mod_type: Option<ShipModType>,
    pub mouse_pos: Option<MousePos>,
}

/// An input state whose optional parts are present exactly when their flag
/// is set, so that the flags byte tells a reader what follows.
pub open spec fn input_state_wf(s: InputState) -> bool {
    &&& s.buy_mod <==> s.mod_type is Some
    &&& s.rmb <==> s.mouse_pos is Some
}

pub open spec fn bit(b: bool) -> u8 {
    if b {
        1
    } else {
        0
    }
}

/// The flags byte: bit 0 right mouse button, bit 1 `q`, bit 2 `e`, bit 3 mod
/// purchase.
pub open spec fn input_bits(s: InputState) -> u8 {
    (bit(s.rmb) + 2 * bit(s.q) + 4 * bit(s.e) + 8 * bit(s.buy_mod)) as u8
}

pub open spec fn bytes_mouse_pos(p: MousePos) -> Seq<u8> {
    bytes_u32(p.x_bits) + bytes_u32(p.y_bits)
}

pub open spec fn take_mouse_pos(s: Seq<u8>) -> Option<(MousePos, Seq<u8>)> {
    match take_u32(s) {
        Some((x, r)) => match take_u32(r) {
            Some((y, r2)) => Some((MousePos { x_bits: x, y_bits: y }, r2)),
            None => None,
        },
        None => None,
    }
}

/// An input state on the wire: the flags byte, then the mod type if a mod is
/// bought and present, then the mouse position if the right button is down
/// and a position is present.
pub open spec fn bytes_input_state(s: InputState) -> Seq<u8> {
    bytes_u8(input_bits(s)) + (if s.buy_mod && s.mod_type is Some {
        bytes_ship_mod_type(s.mod_type.unwrap())
    } else {
        Seq::empty()
    }) + (if s.rmb && s.mouse_pos is Some {
        bytes_mouse_pos(s.mouse_pos.unwrap())
    } else {
        Seq::empty()
    })
}

/// Reads the mod type that follows the flags when the purchase flag is set.
pub open spec fn take_opt_mod(buy: bool, s: Seq<u8>) -> Option<(Option<ShipModType>, Seq<u8>)> {
    if buy {
        match take_ship_mod_type(s) {
            Some((t, r)) => Some((Some(t), r)),
            None => None,
        }
    } else {
        Some((None, s))
    }
}

/// Reads the mouse position that follows when the right button flag is set.
pub open spec fn take_opt_mouse(rmb: bool, s: Seq<u8>) -> Option<(Option<MousePos>, Seq<u8>)> {
    if rmb {
        match take_mouse_pos(s) {
            Some((p, r)) => Some((Some(p), r)),
            None => None,
        }
    } else {
        Some((None, s))
    }
}

pub open spec fn take_input_state(s: Seq<u8>) -> Option<(InputState, Seq<u8>)> {
    match take_u8(s) {
        Some((b, r)) => {
            let rmb = b & 1 != 0;
            let q = b & 2 != 0;
            let e = b & 4 != 0;
            let buy_mod = b & 8 != 0;
            match take_opt_mod(buy_mod, r) {
                Some((mod_type, r2)) => match take_opt_mouse(rmb, r2) {
                    Some((mouse_pos, r3)) => Some(
                        (InputState { rmb, q, e, buy_mod, mod_type, mouse_pos }, r3),
                    ),
                    None => None,
                },
                None => None,
            }
        },
        None => None,
    }
}

proof fn lemma_flag_bits(a: u8, c: u8, d: u8, f: u8)
    by (bit_vector)
    requires
        a <= 1,
        c <= 1,
        d <= 1,
        f <= 1,
    ensures
        (((a + 2 * c + 4 * d + 8 * f) as u8) & 1 != 0) == (a == 1),
        (((a + 2 * c + 4 * d + 8 * f) as u8) & 2 != 0) == (c == 1),
        (((a + 2 * c + 4 * d + 8 * f) as u8) & 4 != 0) == (d == 1),
        (((a + 2 * c + 4 * d + 8 * f) as u8) & 8 != 0) == (f == 1),
{
}

pub proof fn lemma_take_input_state(st: InputState, rest: Seq<u8>)
    requires
        input_state_wf(st),
    ensures
        take_input_state(bytes_input_state(st) + rest) == Some((st, rest)),
{
    lemma_flag_bits(bit(st.rmb), bit(st.q), bit(st.e), bit(st.buy_mod));
    let mod_part = if st.buy_mod && st.mod_type is Some {
        bytes_ship_mod_type(st.mod_type.unwrap())
    } else {
        Seq::empty()
    };
    let mouse_part = if st.rmb && st.mouse_pos is Some {
        bytes_mouse_pos(st.mouse_pos.unwrap())
    } else {
        Seq::empty()
    };
    assert(bytes_input_state(st) + rest =~= bytes_u8(input_bits(st)) + (mod_part + (mouse_part
        + rest)));
    lemma_take_u8(input_bits(st), mod_part + (mouse_part + rest));
    if st.buy_mod {
        lemma_take_ship_mod_type(st.mod_type.unwrap(), mouse_part + rest);
    } else {
        assert(mod_part + (mouse_part + rest) =~= mouse_part + rest);
    }
    if st.rmb {
        let p = st.mouse_pos.unwrap();
        assert(mouse_part + rest =~= bytes_u32(p.x_bits) + (bytes_u32(p.y_bits) + rest));
        lemma_take_u32(p.x_bits, bytes_u32(p.y_bits) + rest);
        lemma_take_u32(p.y_bits, rest);
    } else {
        assert(mouse_part + rest =~= rest);
    }
}

impl InputState {
    pub fn new(
        rmb: bool,
        q: bool,
        e: bool,
        buy_mod: bool,
        mod_type: Option<ShipModType>,
        mouse_pos: Option<MousePos>,
    ) -> (s: InputState)
        ensures
            s == (InputState { rmb, q, e, buy_mod, mod_type, mouse_pos }),
    {
        InputState { rmb, q, e, buy_mod, mod_type, mouse_pos }
    }

    /// The input read from the devices: the right mouse button targets the
    /// mouse position, the broadside keys fire; nothing is bought.
    pub fn discover(rmb: bool, q: bool, e: bool, mouse: MousePos) -> (s: InputState)
        ensures
            s == (InputState {
                rmb,
                q,
                e,
                buy_mod: false,
                mod_type: None,
                mouse_pos: if rmb {
                    Some(mouse)
                } else {
                    None
                },
            }),
            input_state_wf(s),
    {
        let mouse_pos = if rmb {
            Some(mouse)
        } else {
            None
        };
        InputState::new(rmb, q, e, false, None, mouse_pos)
    }

    /// No buttons, no purchase, no target.
    pub fn default() -> (s: InputState)
        ensures
            s == (InputState {
                rmb: false,
                q: false,
                e: false,
                buy_mod: false,
                mod_type: None,
                mouse_pos: None,
            }),
            input_state_wf(s),
    {
        InputState::new(false, false, false, false, None, None)
    }

    pub fn to_stream(&self, buf: &mut Vec<u8>)
        ensures
            final(buf)@ == old(buf)@ + bytes_input_state(*self),
    {
        let a: u8 = if self.rmb {
            1
        } else {
            0
        };
        let c: u8 = if self.q {
            2
        } else {
            0
        };
        let d: u8 = if self.e {
            4
        } else {
            0
        };
        let f: u8 = if self.buy_mod {
            8
        } else {
            0
        };
        write_u8(buf, a + c + d + f);
        let ghost after_bits = buf@;
        if self.buy_mod {
            match &self.mod_type {
                Some(mod_type) => mod_type.to_stream(buf),
                None => {},
            }
        }
        let ghost after_mod = buf@;
        if self.rmb {
            match &self.mouse_pos {
                Some(p) => {
                    write_u32(buf, p.x_bits);
                    write_u32(buf, p.y_bits);
                },
                None => {},
            }
        }
        assert(final(buf)@ =~= old(buf)@ + bytes_input_state(*self));
    }

    /// Reads an input state at `pos`: the flags, then the parts they
    /// announce; nothing when a part is missing or the mod type is unknown.
    pub fn from_stream(buf: &[u8], pos: usize) -> (r: Option<(InputState, usize)>)
        requires
            pos <= buf@.len(),
        ensures
            read_matches(buf@, pos, r, take_input_state(buf@.skip(pos as int))),
    {
        let (b, p) = match read_u8(buf, pos) {
            Some(x) => x,
            None => {
                return None;
            },
        };
        let rmb = b & 1 != 0;
        let q = b & 2 != 0;
        let e = b & 4 != 0;
        let buy_mod = b & 8 != 0;
        let (mod_type, p2) = if buy_mod {
            match ShipModType::from_stream(buf, p) {
                Some((t, p2)) => (Some(t), p2),
                None => {
                    return None;
                },
            }
        } else {
            (None, p)
        };
        let (mouse_pos, p3) = if rmb {
            match read_u32(buf, p2) {
                Some((x, px)) => match read_u32(buf, px) {
                    Some((y, py)) => (Some(MousePos { x_bits: x, y_bits: y }), py),
                    None => {
                        return None;
                    },
                },
                None => {
                    return None;
                },
            }
        } else {
            (None, p2)
        };
        Some((InputState::new(rmb, q, e, buy_mod, mod_type, mouse_pos), p3))
    }
}

/// The bundled inputs of all players for one generation of the simulation.
pub struct InputStep {
    pub states: Vec<(u16, InputState)>,
    pub gen: u64,
}

/// What an [`InputStep`] is: the senders' states in order and the generation.
pub struct InputStepView {
    pub states: Seq<(u16, InputState)>,
    pub gen: u64,
}

impl View for InputStep {
    type V = InputStepView;

    open spec fn view(&self) -> InputStepView {
        InputStepView { states: self.states@, gen: self.gen }
    }
}

/// The sender-state pairs on the wire, one after another.
pub open spec fn bytes_states(states: Seq<(u16, InputState)>) -> Seq<u8>
    decreases states.len(),
{
    if states.len() == 0 {
        Seq::empty()
    } else {
        bytes_states(states.drop_last()) + bytes_u16(states.last().0) + bytes_input_state(
            states.last().1,
        )
    }
}

/// Reads `n` sender-state pairs.
pub open spec fn take_states(s: Seq<u8>, n: nat) -> Option<(Seq<(u16, InputState)>, Seq<u8>)>
    decreases n,
{
    if n == 0 {
        Some((Seq::empty(), s))
    } else {
        match take_states(s, (n - 1) as nat) {
            Some((states, r)) => match take_u16(r) {
                Some((sender, r2)) => match take_input_state(r2) {
                    Some((st, r3)) => Some((states.push((sender, st)), r3)),
                    None => None,
                },
                None => None,
            },
            None => None,
        }
    }
}

/// A step on the wire: the number of states as one byte (truncated to 8
/// bits), the states, then the generation.
pub open spec fn bytes_input_step(v: InputStepView) -> Seq<u8> {
    bytes_u8(v.states.len() as u8) + bytes_states(v.states) + bytes_u64(v.gen)
}

pub open spec fn take_input_step(s: Seq<u8>) -> Option<(InputStepView, Seq<u8>)> {
    match take_u8(s) {
        Some((n, r)) => match take_states(r, n as nat) {
            Some((states, r2)) => match take_u64(r2) {
                Some((gen, r3)) => Some((InputStepView { states, gen }, r3)),
                None => None,
            },
            None => None,
        },
        None => None,
    }
}

/// A step whose states fit the one-byte count and are each well formed.
pub open spec fn input_step_wf(v: InputStepView) -> bool {
    &&& v.states.len() <= 255
    &&& forall|i: int| 0 <= i < v.states.len() ==> input_state_wf(#[trigger] v.states[i].1)
}

proof fn lemma_take_states(states: Seq<(u16, InputState)>, rest: Seq<u8>)
    requires
        forall|i: int| 0 <= i < states.len() ==> input_state_wf(#[trigger] states[i].1),
    ensures
        take_states(bytes_states(states) + rest, states.len()) == Some((states, rest)),
    decreases states.len(),
{
    if states.len() > 0 {
        let init = states.drop_last();
        let (sender, st) = states.last();
        let tail = bytes_u16(sender) + bytes_input_state(st) + rest;
        assert forall|i: int| 0 <= i < init.len() implies input_state_wf(#[trigger] init[i].1) by {
            assert(init[i] == states[i]);
        }
        assert(input_state_wf(states[states.len() - 1].1));
        lemma_take_states(init, tail);
        assert(bytes_states(states) + rest =~= bytes_states(init) + tail);
        assert(tail =~= bytes_u16(sender) + (bytes_input_state(st) + rest));
        lemma_take_u16(sender, bytes_input_state(st) + rest);
        lemma_take_input_state(st, rest);
        assert(init.push((sender, st)) =~= states);
    }
}

proof fn lemma_take_states_none(s: Seq<u8>, i: nat, n: nat)
    requires
        i <= n,
        take_states(s, i) is None,
    ensures
        take_states(s, n) is None,
    decreases n - i,
{
    if i < n {
        lemma_take_states_none(s, i, (n - 1) as nat);
    }
}

pub proof fn lemma_take_input_step(v: InputStepView, rest: Seq<u8>)
    requires
        input_step_wf(v),
    ensures
        take_input_step(bytes_input_step(v) + rest) == Some((v, rest)),
{
    let n = v.states.len() as u8;
    assert(n as nat == v.states.len());
    let tail = bytes_states(v.states) + (bytes_u64(v.gen) + rest);
    assert(bytes_input_step(v) + rest =~= bytes_u8(n) + tail);
    lemma_take_u8(n, tail);
    lemma_take_states(v.states, bytes_u64(v.gen) + rest);
    lemma_take_u64(v.gen, rest);
}

impl InputStep {
    pub fn new(states: Vec<(u16, InputState)>, gen: u64) -> (s: InputStep)
        ensures
            s@ == (InputStepView { states: states@, gen }),
    {
        InputStep { states, gen }
    }

    /// Adds a sender's state at the end.
    pub fn add_state(&mut self, sender: u16, state: InputState)
        ensures
            final(self)@ == (InputStepView {
                states: old(self)@.states.push((sender, state)),
                gen: old(self)@.gen,
            }),
    {
        self.states.push((sender, state));
    }

    pub fn to_stream(&self, buf: &mut Vec<u8>)
        ensures
            final(buf)@ == old(buf)@ + bytes_input_step(self@),
    {
        write_u8(buf, self.states.len() as u8);
        let ghost start = buf@;
        let n = self.states.len();
        let mut i: usize = 0;
        while i < n
            invariant
                n == self.states@.len(),
                i <= n,
                buf@ == start + bytes_states(self.states@.take(i as int)),
            decreases n - i,
        {
            let (sender, state) = self.states[i];
            write_u16(buf, sender);
            state.to_stream(buf);
            assert(self.states@.take(i + 1).drop_last() =~= self.states@.take(i as int));
            i = i + 1;
        }
        assert(self.states@.take(n as int) =~= self.states@);
        write_u64(buf, self.gen);
        assert(final(buf)@ =~= old(buf)@ + bytes_input_step(self@));
    }

    /// Reads a step at `pos`; nothing when any of its parts cannot be read.
    pub fn from_stream(buf: &[u8], pos: usize) -> (r: Option<(InputStep, usize)>)
        requires
            pos <= buf@.len(),
        ensures
            match take_input_step(buf@.skip(pos as int)) {
                Some((v, rest)) => r matches Some((w, p)) && w@ == v && pos <= p <= buf@.len()
                    && rest == buf@.skip(p as int),
                None => r is None,
            },
    {
        let (len, p0) = match read_u8(buf, pos) {
            Some(x) => x,
            None => {
                return None;
            },
        };
        let ghost r0 = buf@.skip(p0 as int);
        let mut states: Vec<(u16, InputState)> = Vec::new();
        let mut p = p0;
        let mut i: u8 = 0;
        while i < len
            invariant
                pos <= p0 <= p <= buf@.len(),
                r0 == buf@.skip(p0 as int),
                take_u8(buf@.skip(pos as int)) == Some((len, r0)),
                i <= len,
                take_states(r0, i as nat) == Some((states@, buf@.skip(p as int))),
            decreases len - i,
        {
            let (sender, p1) = match read_u16(buf, p) {
                Some(x) => x,
                None => {
                    proof {
                        lemma_take_states_none(r0, (i + 1) as nat, len as nat);
                    }
                    return None;
                },
            };
            let (state, p2) = match InputState::from_stream(buf, p1) {
                Some(x) => x,
                None => {
                    proof {
                        lemma_take_states_none(r0, (i + 1) as nat, len as nat);
                    }
                    return None;
                },
            };
            states.push((sender, state));
            p = p2;
            i = i + 1;
        }
        match read_u64(buf, p) {
            Some((gen, p3)) => Some((InputStep::new(states, gen), p3)),
            None => None,
        }
    }
}

/// Which phase a match is in.
#[derive(Debug, Clone, Copy, PartialEq, Eq, Structural)]
pub enum GamePhase {
    World,
    Score,
}

pub open spec fn bytes_game_phase(g: GamePhase) -> Seq<u8> {
    bytes_u8(
        match g {
            GamePhase::World => 0,
            GamePhase::Score => 1,
        },
    )
}

pub open spec fn take_game_phase(s: Seq<u8>) -> Option<(GamePhase, Seq<u8>)> {
    match take_u8(s) {
        Some((b, r)) => if b == 0 {
            Some((GamePhase::World, r))
        } else if b == 1 {
            Some((GamePhase::Score, r))
        } else {
            None
        },
        None => None,
    }
}

impl GamePhase {
    pub fn to_stream(&self, buf: &mut Vec<u8>)
        ensures
            final(buf)@ == old(buf)@ + bytes_game_phase(*self),
    {
        let code: u8 = match self {
            GamePhase::World => 0,
            GamePhase::Score => 1,
        };
        write_u8(buf, code);
    }

    /// Reads a phase at `pos`; nothing when the byte is missing or names no
    /// phase.
    pub fn from_stream(buf: &[u8], pos: usize) -> (r: Option<(GamePhase, usize)>)
        requires
            pos <= buf@.len(),
        ensures
            read_matches(buf@, pos, r, take_game_phase(buf@.skip(pos as int))),
    {
        match read_u8(buf, pos) {
            Some((b, p)) => {
                if b == 0 {
                    Some((GamePhase::World, p))
                } else if b == 1 {
                    Some((GamePhase::Score, p))
                } else {
                    None
                }
            },
            None => None,
        }
    }
}


/// A message between a client and the host.
pub enum Packet {
    Handshake { name: String },
    HandshakeReply { players: Vec<ID> },
    PlayerConnect { name: String },
    PlayerDisconnect { reason: DisconnectReason },
    ChatMessage { message: String },
    Input { state: InputState },
    InputStep { step: InputStep },
    Game { phase: GamePhase },
    Sync { state: SyncState },
}

/// What a [`Packet`] is, with its strings as characters and its ids and
/// step by their views.
pub enum PacketView {
    Handshake { name: Seq<char> },
    HandshakeReply { players: Seq<IDView> },
    PlayerConnect { name: Seq<char> },
    PlayerDisconnect { reason: DisconnectReason },
    ChatMessage { message: Seq<char> },
    Input { state: InputState },
    InputStep { step: InputStepView },
    Game { phase: GamePhase },
    Sync { state: SyncState },
}

pub open spec fn ids_view(ids: Seq<ID>) -> Seq<IDView> {
    ids.map_values(|id: ID| id@)
}

impl View for Packet {
    type V = PacketView;

    open spec fn view(&self) -> PacketView {
        match self {
            Packet::Handshake { name } => PacketView::Handshake { name: name@ },
            Packet::HandshakeReply { players } => PacketView::HandshakeReply {
                players: ids_view(players@),
            },
            Packet::PlayerConnect { name } => PacketView::PlayerConnect { name: name@ },
            Packet::PlayerDisconnect { reason } => PacketView::PlayerDisconnect { reason: *reason },
            Packet::ChatMessage { message } => PacketView::ChatMessage { message: message@ },
            Packet::Input { state } => PacketView::Input { state: *state },
            Packet::InputStep { step } => PacketView::InputStep { step: step@ },
            Packet::Game { phase } => PacketView::Game { phase: *phase },
            Packet::Sync { state } => PacketView::Sync { state: *state },
        }
    }
}

/// The number that tags each kind of packet on the wire.
pub open spec fn packet_code(v: PacketView) -> u8 {
    match v {
        PacketView::Handshake { .. } => 0,
        PacketView::HandshakeReply { .. } => 1,
        PacketView::PlayerConnect { .. } => 2,
        PacketView::PlayerDisconnect { .. } => 3,
        PacketView::ChatMessage { .. } => 4,
        PacketView::Input { .. } => 5,
        PacketView::InputStep { .. } => 6,
        PacketView::Game { .. } => 7,
        PacketView::Sync { .. } => 8,
    }
}

/// Ids on the wire, one after another.
pub open spec fn bytes_ids(ids: Seq<IDView>) -> Seq<u8>
    decreases ids.len(),
{
    if ids.len() == 0 {
        Seq::empty()
    } else {
        bytes_ids(ids.drop_last()) + bytes_id(ids.last())
    }
}

/// Reads `n` ids.
pub open spec fn take_ids(s: Seq<u8>, n: nat) -> Option<(Seq<IDView>, Seq<u8>)>
    decreases n,
{
    if n == 0 {
        Some((Seq::empty(), s))
    } else {
        match take_ids(s, (n - 1) as nat) {
            Some((ids, r)) => match take_id(r) {
                Some((id, r2)) => Some((ids.push(id), r2)),
                None => None,
            },
            None => None,
        }
    }
}

/// What follows the tag: the field of the packet.
pub open spec fn bytes_packet_body(v: PacketView) -> Seq<u8> {
    match v {
        PacketView::Handshake { name } => bytes_string(name),
        PacketView::HandshakeReply { players } => bytes_u32(players.len() as u32) + bytes_ids(
            players,
        ),
        PacketView::PlayerConnect { name } => bytes_string(name),
        PacketView::PlayerDisconnect { reason } => bytes_disconnect_reason(reason),
        PacketView::ChatMessage { message } => bytes_string(message),
        PacketView::Input { state } => bytes_input_state(state),
        PacketView::InputStep { step } => bytes_input_step(step),
        PacketView::Game { phase } => bytes_game_phase(phase),
        PacketView::Sync { state } => bytes_sync_state(state),
    }
}

/// A packet on the wire: its tag byte, then its field.
pub open spec fn bytes_packet(v: PacketView) -> Seq<u8> {
    bytes_u8(packet_code(v)) + bytes_packet_body(v)
}

/// Reads the field of a packet whose tag is `code`; nothing for a tag that
/// names no packet.
pub open spec fn take_packet_body(code: u8, s: Seq<u8>) -> Option<(PacketView, Seq<u8>)> {
    if code == 0 {
        match take_string(s) {
            Some((name, r)) => Some((PacketView::Handshake { name }, r)),
            None => None,
        }
    } else if code == 1 {
        match take_u32(s) {
            Some((n, r)) => match take_ids(r, n as nat) {
                Some((players, r2)) => Some((PacketView::HandshakeReply { players }, r2)),
                None => None,
            },
            None => None,
        }
    } else if code == 2 {
        match take_string(s) {
            Some((name, r)) => Some((PacketView::PlayerConnect { name }, r)),
            None => None,
        }
    } else if code == 3 {
        match take_disconnect_reason(s) {
            Some((reason, r)) => Some((PacketView::PlayerDisconnect { reason }, r)),
            None => None,
        }
    } else if code == 4 {
        match take_string(s) {
            Some((message, r)) => Some((PacketView::ChatMessage { message }, r)),
            None => None,
        }
    } else if code == 5 {
        match take_input_state(s) {
            Some((state, r)) => Some((PacketView::Input { state }, r)),
            None => None,
        }
    } else if code == 6 {
        match take_input_step(s) {
            Some((step, r)) => Some((PacketView::InputStep { step }, r)),
            None => None,
        }
    } else if code == 7 {
        match take_game_phase(s) {
            Some((phase, r)) => Some((PacketView::Game { phase }, r)),
            None => None,
        }
    } else if code == 8 {
        match take_sync_state(s) {
            Some((state, r)) => Some((PacketView::Sync { state }, r)),
            None => None,
        }
    } else {
        None
    }
}

pub open spec fn take_packet(s: Seq<u8>) -> Option<(PacketView, Seq<u8>)> {
    match take_u8(s) {
        Some((code, r)) => take_packet_body(code, r),
        None => None,
    }
}

/// A packet that reads back as itself: its strings and its list of players
/// fit their `u32` length prefixes, and its input states and step are well
/// formed.
pub open spec fn packet_wf(v: PacketView) -> bool {
    match v {
        PacketView::Handshake { name } => string_fits(name),
        PacketView::HandshakeReply { players } => players.len() <= u32::MAX && forall|i: int|
            0 <= i < players.len() ==> string_fits(#[trigger] players[i].name),
        PacketView::PlayerConnect { name } => string_fits(name),
        PacketView::ChatMessage { message } => string_fits(message),
        PacketView::Input { state } => input_state_wf(state),
        PacketView::InputStep { step } => input_step_wf(step),
        _ => true,
    }
}

proof fn lemma_take_ids(ids: Seq<IDView>, rest: Seq<u8>)
    requires
        forall|i: int| 0 <= i < ids.len() ==> string_fits(#[trigger] ids[i].name),
    ensures
        take_ids(bytes_ids(ids) + rest, ids.len()) == Some((ids, rest)),
    decreases ids.len(),
{
    if ids.len() > 0 {
        let init = ids.drop_last();
        let last = ids.last();
        assert forall|i: int| 0 <= i < init.len() implies string_fits(#[trigger] init[i].name) by {
            assert(init[i] == ids[i]);
        }
        assert(string_fits(ids[ids.len() - 1].name));
        lemma_take_ids(init, bytes_id(last) + rest);
        assert(bytes_ids(ids) + rest =~= bytes_ids(init) + (bytes_id(last) + rest));
        lemma_take_id(last, rest);
        assert(init.push(last) =~= ids);
    }
}

proof fn lemma_take_ids_none(s: Seq<u8>, i: nat, n: nat)
    requires
        i <= n,
        take_ids(s, i) is None,
    ensures
        take_ids(s, n) is None,
    decreases n - i,
{
    if i < n {
        lemma_take_ids_none(s, i, (n - 1) as nat);
    }
}

/// Every well-formed packet reads back from its bytes as itself, and the
/// reading stops where its bytes end.
pub proof fn lemma_packet_roundtrip(v: PacketView, rest: Seq<u8>)
    requires
        packet_wf(v),
    ensures
        take_packet(bytes_packet(v) + rest) == Some((v, rest)),
{
    let body = bytes_packet_body(v);
    assert(bytes_packet(v) + rest =~= bytes_u8(packet_code(v)) + (body + rest));
    lemma_take_u8(packet_code(v), body + rest);
    match v {
        PacketView::Handshake { name } => lemma_take_string(name, rest),
        PacketView::HandshakeReply { players } => {
            let n = players.len() as u32;
            assert(n as nat == players.len());
            assert(body + rest =~= bytes_u32(n) + (bytes_ids(players) + rest));
            lemma_take_u32(n, bytes_ids(players) + rest);
            lemma_take_ids(players, rest);
        },
        PacketView::PlayerConnect { name } => lemma_take_string(name, rest),
        PacketView::PlayerDisconnect { reason } => lemma_take_disconnect_reason(reason, rest),
        PacketView::ChatMessage { message } => lemma_take_string(message, rest),
        PacketView::Input { state } => lemma_take_input_state(state, rest),
        PacketView::InputStep { step } => lemma_take_input_step(step, rest),
        PacketView::Game { phase } => {
            lemma_take_u8(
                match phase {
                    GamePhase::World => 0,
                    GamePhase::Score => 1,
                },
                rest,
            );
        },
        PacketView::Sync { state } => lemma_take_sync_state(state, rest),
    }
}

fn write_ids(buf: &mut Vec<u8>, ids: &Vec<ID>)
    ensures
        final(buf)@ == old(buf)@ + bytes_ids(ids_view(ids@)),
{
    let ghost start = buf@;
    let n = ids.len();
    let mut i: usize = 0;
    while i < n
        invariant
            n == ids@.len(),
            i <= n,
            buf@ == start + bytes_ids(ids_view(ids@).take(i as int)),
        decreases n - i,
    {
        ids[i].to_stream(buf);
        assert(ids_view(ids@).take(i + 1).drop_last() =~= ids_view(ids@).take(i as int));
        i = i + 1;
    }
    assert(ids_view(ids@).take(n as int) =~= ids_view(ids@));
}

/// Reads `n` ids at `pos`.
fn read_ids(buf: &[u8], pos: usize, n: u32) -> (r: Option<(Vec<ID>, usize)>)
    requires
        pos <= buf@.len(),
    ensures
        match take_ids(buf@.skip(pos as int), n as nat) {
            Some((v, rest)) => r matches Some((w, p)) && ids_view(w@) == v && pos <= p
                <= buf@.len() && rest == buf@.skip(p as int),
            None => r is None,
        },
{
    let ghost r0 = buf@.skip(pos as int);
    let mut ids: Vec<ID> = Vec::new();
    let mut p = pos;
    let mut i: u32 = 0;
    while i < n
        invariant
            pos <= p <= buf@.len(),
            r0 == buf@.skip(pos as int),
            i <= n,
            take_ids(r0, i as nat) == Some((ids_view(ids@), buf@.skip(p as int))),
        decreases n - i,
    {
        match ID::from_stream(buf, p) {
            Some((id, p2)) => {
                proof {
                    assert(ids_view(ids@.push(id)) =~= ids_view(ids@).push(id@));
                }
                ids.push(id);
                p = p2;
                i = i + 1;
            },
            None => {
                proof {
                    lemma_take_ids_none(r0, (i + 1) as nat, n as nat);
                }
                return None;
            },
        }
    }
    Some((ids, p))
}

impl Packet {
    /// The tag of this kind of packet.
    pub fn to_num(&self) -> (n: u8)
        ensures
            n == packet_code(self@),
    {
        match self {
            Packet::Handshake { .. } => 0,
            Packet::HandshakeReply { .. } => 1,
            Packet::PlayerConnect { .. } => 2,
            Packet::PlayerDisconnect { .. } => 3,
            Packet::ChatMessage { .. } => 4,
            Packet::Input { .. } => 5,
            Packet::InputStep { .. } => 6,
            Packet::Game { .. } => 7,
            Packet::Sync { .. } => 8,
        }
    }

    pub fn to_stream(&self, buf: &mut Vec<u8>)
        ensures
            final(buf)@ == old(buf)@ + bytes_packet(self@),
    {
        write_u8(buf, self.to_num());
        let ghost after_tag = buf@;
        match self {
            Packet::Handshake { name } => write_string(buf, name),
            Packet::HandshakeReply { players } => {
                write_u32(buf, players.len() as u32);
                write_ids(buf, players);
            },
            Packet::PlayerConnect { name } => write_string(buf, name),
            Packet::PlayerDisconnect { reason } => reason.to_stream(buf),
            Packet::ChatMessage { message } => write_string(buf, message),
            Packet::Input { state } => state.to_stream(buf),
            Packet::InputStep { step } => step.to_stream(buf),
            Packet::Game { phase } => phase.to_stream(buf),
            Packet::Sync { state } => state.to_stream(buf),
        }
        assert(final(buf)@ =~= old(buf)@ + bytes_packet(self@));
    }

    /// Reads a packet at `pos`: its tag, then its field; nothing when the
    /// tag names no packet or the field cannot be read.
    pub fn from_stream(buf: &[u8], pos: usize) -> (r: Option<(Packet, usize)>)
        requires
            pos <= buf@.len(),
        ensures
            match take_packet(buf@.skip(pos as int)) {
                Some((v, rest)) => r matches Some((w, p)) && w@ == v && pos <= p <= buf@.len()
                    && rest == buf@.skip(p as int),
                None => r is None,
            },
    {
        let (code, p) = match read_u8(buf, pos) {
            Some(x) => x,
            None => {
                return None;
            },
        };
        if code == 0 {
            match read_string(buf, p) {
                Some((name, p2)) => Some((Packet::Handshake { name }, p2)),
                None => None,
            }
        } else if code == 1 {
            match read_u32(buf, p) {
                Some((n, p1)) => match read_ids(buf, p1, n) {
                    Some((players, p2)) => Some((Packet::HandshakeReply { players }, p2)),
                    None => None,
                },
                None => None,
            }
        } else if code == 2 {
            match read_string(buf, p) {
                Some((name, p2)) => Some((Packet::PlayerConnect { name }, p2)),
                None => None,
            }
        } else if code == 3 {
            match DisconnectReason::from_stream(buf, p) {
                Some((reason, p2)) => Some((Packet::PlayerDisconnect { reason }, p2)),
                None => None,
            }
        } else if code == 4 {
            match read_string(buf, p) {
                Some((message, p2)) => Some((Packet::ChatMessage { message }, p2)),
                None => None,
            }
        } else if code == 5 {
            match InputState::from_stream(buf, p) {
                Some((state, p2)) => Some((Packet::Input { state }, p2)),
                None => None,
            }
        } else if code == 6 {
            match InputStep::from_stream(buf, p) {
                Some((step, p2)) => Some((Packet::InputStep { step }, p2)),
                None => None,
            }
        } else if code == 7 {
            match GamePhase::from_stream(buf, p) {
                Some((phase, p2)) => Some((Packet::Game { phase }, p2)),
                None => None,
            }
        } else if code == 8 {
            match SyncState::from_stream(buf, p) {
                Some((state, p2)) => Some((Packet::Sync { state }, p2)),
                None => None,
            }
        } else {
            None
        }
    }
}

/// A packet as the host sends it: the sender's id as a `u16`, then the
/// packet.
pub open spec fn bytes_signed_packet(v: PacketView, sender: u16) -> Seq<u8> {
    bytes_u16(sender) + bytes_packet(v)
}

/// What the receiver of signed bytes reads: the sender, then a packet;
/// bytes after the packet are ignored.
pub open spec fn parse_signed_packet(s: Seq<u8>) -> Option<(PacketView, u16)> {
    match take_u16(s) {
        Some((sender, r)) => match take_packet(r) {
            Some((v, _)) => Some((v, sender)),
            None => None,
        },
        None => None,
    }
}

/// What the host reads from the bytes a client sent: a packet; bytes after
/// it are ignored.
pub open spec fn parse_packet(s: Seq<u8>) -> Option<PacketView> {
    match take_packet(s) {
        Some((v, _)) => Some(v),
        None => None,
    }
}

/// The bytes of a packet as the host sends it, prefixed by the sender's id.
pub fn serialize_packet(packet: Packet, sender: u16) -> (bytes: Vec<u8>)
    ensures
        bytes@ == bytes_signed_packet(packet@, sender),
{
    let mut buf: Vec<u8> = Vec::new();
    write_u16(&mut buf, sender);
    packet.to_stream(&mut buf);
    assert(buf@ =~= bytes_signed_packet(packet@, sender));
    buf
}

/// The bytes of a packet as a client sends it: the host knows the sender
/// by its address, so no id goes before it.
pub fn serialize_packet_unsigned(packet: Packet) -> (bytes: Vec<u8>)
    ensures
        bytes@ == bytes_packet(packet@),
{
    let mut buf: Vec<u8> = Vec::new();
    packet.to_stream(&mut buf);
    assert(buf@ =~= bytes_packet(packet@));
    buf
}

/// Reads the sender's id and the packet that follows it; nothing when the
/// bytes hold no such pair.
pub fn deserialize_packet(packet_bytes: Vec<u8>) -> (r: Option<(Packet, u16)>)
    ensures
        match parse_signed_packet(packet_bytes@) {
            Some((v, sender)) => r matches Some((p, s)) && p@ == v && s == sender,
            None => r is None,
        },
{
    let buf = packet_bytes.as_slice();
    assert(buf@.skip(0) =~= buf@);
    match read_u16(buf, 0) {
        Some((sender, p)) => match Packet::from_stream(buf, p) {
            Some((packet, _)) => Some((packet, sender)),
            None => None,
        },
        None => None,
    }
}

/// Reads a packet sent without a sender's id; nothing when the bytes hold
/// no packet.
pub fn deserialize_packet_unsigned(packet_bytes: Vec<u8>) -> (r: Option<Packet>)
    ensures
        match parse_packet(packet_bytes@) {
            Some(v) => r matches Some(p) && p@ == v,
            None => r is None,
        },
{
    let buf = packet_bytes.as_slice();
    assert(buf@.skip(0) =~= buf@);
    match Packet::from_stream(buf, 0) {
        Some((packet, _)) => Some(packet),
        None => None,
    }
}

/// What the host sends is read back by a client as the same packet from the
/// same sender.
pub proof fn lemma_signed_packet_roundtrip(v: PacketView, sender: u16)
    requires
        packet_wf(v),
    ensures
        parse_signed_packet(bytes_signed_packet(v, sender)) == Some((v, sender)),
{
    lemma_packet_roundtrip(v, Seq::empty());
    assert(bytes_packet(v) + Seq::<u8>::empty() =~= bytes_packet(v));
    lemma_take_u16(sender, bytes_packet(v));
}

/// What a client sends is read back by the host as the same packet.
pub proof fn lemma_unsigned_packet_roundtrip(v: PacketView)
    requires
        packet_wf(v),
    ensures
        parse_packet(bytes_packet(v)) == Some(v),
{
    lemma_packet_roundtrip(v, Seq::empty());
    assert(bytes_packet(v) + Seq::<u8>::empty() =~= bytes_packet(v));
}

} // verus!
