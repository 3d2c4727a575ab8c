//! The host's collection of the players' inputs during one step phase, which
//! it bundles into an input step once the phase is over.
use crate::packet::{InputState, InputStep};
use std::collections::{HashMap, HashSet};
use vstd::prelude::*;
use vstd::std_specs::hash::{spec_hash_keys_iter, spec_hash_map_iter};
use vstd::std_specs::iter::IteratorSpec;

verus! {

broadcast use vstd::std_specs::hash::group_hash_axioms;

/// How many frames a step phase lasts.
pub const STEP_PHASE_FRAME_LENGTH: u32 = 10;

/// How many frames the host waits for a player's input before it gives up
/// on the player.
pub const MAX_CLIENT_STATE_SEND_DELAY: u32 = 900;

/// What an [`InputPool`] holds: the generation and the frame within the
/// phase, the players of the match, those who sent an input during this
/// phase and the last input of each.
pub struct InputPoolView {
    pub curr_gen: u64,
    pub curr_frame_index: u32,
    pub players: Set<u16>,
    pub player_states: Set<u16>,
    pub input_states: Map<u16, InputState>,
}

/// The inputs received during the current step phase.
pub struct InputPool {
    pub curr_gen: u64,
    pub curr_frame_index: u32,
    players: HashSet<u16>,
    player_states: HashSet<u16>,
    input_states: HashMap<u16, InputState>,
}

/// `entries` lists each key-value pair of `m` once, in some order.
pub open spec fn lists_entries(entries: Seq<(u16, InputState)>, m: Map<u16, InputState>) -> bool {
    &&& forall|i: int, j: int| 0 <= i < j < entries.len() ==> entries[i].0 != entries[j].0
    &&& forall|i: int|
        0 <= i < entries.len() ==> m.contains_key(#[trigger] entries[i].0) && m[entries[i].0]
            == entries[i].1
    &&& forall|k: u16|
        m.contains_key(k) ==> exists|i: int| 0 <= i < entries.len() && #[trigger] entries[i].0 == k
}

impl View for InputPool {
    type V = InputPoolView;

    closed spec fn view(&self) -> InputPoolView {
        InputPoolView {
            curr_gen: self.curr_gen,
            curr_frame_index: self.curr_frame_index,
            players: self.players@,
            player_states: self.player_states@,
            input_states: self.input_states@,
        }
    }
}

impl InputPoolView {
    /// The players who sent an input are exactly those whose input is held.
    pub open spec fn wf(self) -> bool {
        self.player_states == self.input_states.dom()
    }
}

/// The pairs of `m`, each once.
fn map_entries(m: &HashMap<u16, InputState>) -> (entries: Vec<(u16, InputState)>)
    ensures
        lists_entries(entries@, m@),
{
    let mut entries: Vec<(u16, InputState)> = Vec::new();
    for (k, v) in it: m.iter()
        invariant
            it.seq() == spec_hash_map_iter(m).remaining(),
            it.seq().no_duplicates(),
            entries@.len() == it.index@,
            forall|i: int|
                0 <= i < entries@.len() ==> #[trigger] entries@[i] == (*it.seq()[i].0, *it.seq()[i].1),
    {
        entries.push((*k, *v));
    }
    proof {
        let s = spec_hash_map_iter(m).remaining();
        assert forall|i: int, j: int| 0 <= i < j < entries@.len() implies entries@[i].0
            != entries@[j].0 by {
            assert(entries@[i] == (*s[i].0, *s[i].1));
            assert(entries@[j] == (*s[j].0, *s[j].1));
            if entries@[i].0 == entries@[j].0 {
                assert(m@.contains_key(*s[i].0));
                assert(m@.contains_key(*s[j].0));
                assert(s[i] == s[j]);
            }
        }
        assert forall|i: int| 0 <= i < entries@.len() implies m@.contains_key(
            #[trigger] entries@[i].0,
        ) && m@[entries@[i].0] == entries@[i].1 by {
            assert(entries@[i] == (*s[i].0, *s[i].1));
            assert(m@.contains_key(*s[i].0));
        }
        assert forall|k: u16| m@.contains_key(k) implies exists|i: int|
            0 <= i < entries@.len() && #[trigger] entries@[i].0 == k by {
            assert(s.contains((&k, &m@[k])));
            let i = choose|i: int| 0 <= i < s.len() && s[i] == (&k, &m@[k]);
            assert(entries@[i] == (*s[i].0, *s[i].1));
        }
    }
    entries
}

impl InputPool {
    /// A pool for the given players, at generation 0 with no input yet.
    pub fn new(players: Vec<u16>) -> (pool: InputPool)
        ensures
            pool@.curr_gen == 0,
            pool@.curr_frame_index == 0,
            pool@.players == players@.to_set(),
            pool@.player_states == Set::<u16>::empty(),
            pool@.input_states == Map::<u16, InputState>::empty(),
            pool@.wf(),
    {
        let mut set: HashSet<u16> = HashSet::new();
        let n = players.len();
        let mut i: usize = 0;
        while i < n
            invariant
                n == players@.len(),
                i <= n,
                set@ == players@.take(i as int).to_set(),
            decreases n - i,
        {
            set.insert(players[i]);
            proof {
                assert(players@.take(i + 1) =~= players@.take(i as int).push(players@[i as int]));
                players@.take(i as int).lemma_push_to_set_commute(players@[i as int]);
            }
            i = i + 1;
        }
        assert(players@.take(n as int) =~= players@);
        let pool = InputPool {
            curr_gen: 0,
            curr_frame_index: 0,
            players: set,
            player_states: HashSet::new(),
            input_states: HashMap::new(),
        };
        assert(pool@.player_states =~= pool@.input_states.dom());
        pool
    }

    /// Records `sender`'s input for this phase; a later input of the same
    /// sender in the same phase replaces the earlier one.
    pub fn add_state(&mut self, sender: u16, state: InputState)
        ensures
            final(self)@ == (InputPoolView {
                player_states: old(self)@.player_states.insert(sender),
                input_states: old(self)@.input_states.insert(sender, state),
                ..old(self)@
            }),
            old(self)@.wf() ==> final(self)@.wf(),
    {
        self.player_states.insert(sender);
        self.input_states.insert(sender, state);
    }

    /// Forgets a player: it is no longer waited for and its input is
    /// dropped.
    pub fn remove_player(&mut self, id: u16)
        ensures
            final(self)@ == (InputPoolView {
                players: old(self)@.players.remove(id),
                player_states: old(self)@.player_states.remove(id),
                input_states: old(self)@.input_states.remove(id),
                ..old(self)@
            }),
            old(self)@.wf() ==> final(self)@.wf(),
    {
        self.players.remove(&id);
        self.player_states.remove(&id);
        self.input_states.remove(&id);
    }

    pub fn get_curr_gen(&self) -> (g: u64)
        ensures
            g == self@.curr_gen,
    {
        self.curr_gen
    }

    pub fn get_curr_frame_index(&self) -> (i: u32)
        ensures
            i == self@.curr_frame_index,
    {
        self.curr_frame_index
    }

    /// Whether the frames of the step phase have all passed.
    pub fn is_step_phase_over(&self) -> (b: bool)
        ensures
            b == (self@.curr_frame_index >= STEP_PHASE_FRAME_LENGTH),
    {
        self.curr_frame_index >= STEP_PHASE_FRAME_LENGTH
    }

    /// Whether the host has waited for inputs as long as it may.
    pub fn is_max_delay_exceeded(&self) -> (b: bool)
        ensures
            b == (self@.curr_frame_index >= MAX_CLIENT_STATE_SEND_DELAY),
    {
        self.curr_frame_index >= MAX_CLIENT_STATE_SEND_DELAY
    }

    /// The players who have not sent an input during this phase, each once.
    pub fn check_delayed_players(&mut self) -> (ids: Vec<u16>)
        ensures
            final(self)@ == old(self)@,
            ids@.no_duplicates(),
            ids@.to_set() == old(self)@.players.difference(old(self)@.player_states),
    {
        let mut ids: Vec<u16> = Vec::new();
        let ghost mut src: Seq<int> = Seq::empty();
        let ghost ps = self.player_states@;
        for id in it: self.players.iter()
            invariant
                ps == self.player_states@,
                it.seq() == spec_hash_keys_iter(&self.players).remaining(),
                it.seq().no_duplicates(),
                ids@.no_duplicates(),
                src.len() == ids@.len(),
                forall|i: int|
                    0 <= i < ids@.len() ==> 0 <= #[trigger] src[i] < it.index@ && *it.seq()[src[i]]
                        == ids@[i],
                forall|i: int| 0 <= i < ids@.len() ==> !ps.contains(#[trigger] ids@[i]),
                forall|j: int|
                    0 <= j < it.index@ && !ps.contains(*it.seq()[j]) ==> ids@.contains(
                        *#[trigger] it.seq()[j],
                    ),
        {
            let ghost k = it.index@;
            let ghost s = it.seq();
            let ghost old_ids = ids@;
            if !self.player_states.contains(id) {
                proof {
                    assert forall|i: int| 0 <= i < old_ids.len() implies old_ids[i] != *id by {
                        assert(*s[src[i]] == old_ids[i]);
                        if old_ids[i] == *id {
                            assert(s[src[i]] == s[k]);
                        }
                    }
                }
                ids.push(*id);
                proof {
                    src = src.push(k);
                    assert forall|j: int|
                        0 <= j < k + 1 && !ps.contains(*s[j]) implies ids@.contains(
                        *#[trigger] s[j],
                    ) by {
                        if j < k {
                            let i = choose|i: int| 0 <= i < old_ids.len() && old_ids[i] == *s[j];
                            assert(ids@[i] == *s[j]);
                        } else {
                            assert(ids@[old_ids.len() as int] == *s[j]);
                        }
                    }
                }
            }
        }
        proof {
            let s = spec_hash_keys_iter(&self.players).remaining();
            assert forall|x: u16| #[trigger]
                ids@.to_set().contains(x) <==> self.players@.difference(ps).contains(x) by {
                if ids@.contains(x) {
                    let i = choose|i: int| 0 <= i < ids@.len() && ids@[i] == x;
                    assert(*s[src[i]] == x);
                    assert(s.unref()[src[i]] == x);
                    assert(s.unref().to_set().contains(x));
                }
                if self.players@.contains(x) && !ps.contains(x) {
                    assert(s.unref().to_set().contains(x));
                    let j = choose|j: int| 0 <= j < s.unref().len() && s.unref()[j] == x;
                    assert(*s[j] == x);
                }
            }
            assert(ids@.to_set() =~= self.players@.difference(ps));
        }
        ids
    }

    /// Counts one more frame of the phase.
    pub fn update_states(&mut self)
        requires
            old(self)@.curr_frame_index < u32::MAX,
        ensures
            final(self)@ == (InputPoolView {
                curr_frame_index: (old(self)@.curr_frame_index + 1) as u32,
                ..old(self)@
            }),
    {
        self.curr_frame_index = self.curr_frame_index + 1;
    }

    /// Ends the phase: the inputs received during it become the step of the
    /// next generation, each sender's last input once, and the pool starts
    /// the next phase empty.
    pub fn flush_states(&mut self) -> (step: InputStep)
        requires
            old(self)@.curr_gen < u64::MAX,
        ensures
            final(self)@ == (InputPoolView {
                curr_gen: (old(self)@.curr_gen + 1) as u64,
                curr_frame_index: 0,
                players: old(self)@.players,
                player_states: Set::empty(),
                input_states: Map::empty(),
            }),
            step@.gen == final(self)@.curr_gen,
            lists_entries(step@.states, old(self)@.input_states),
    {
        self.player_states.clear();
        self.curr_frame_index = 0;
        self.curr_gen = self.curr_gen + 1;
        let states = map_entries(&self.input_states);
        self.input_states.clear();
        InputStep::new(states, self.curr_gen)
    }
}

/// What the host does at the end of a frame of the step phase.
pub enum HostStepAction {
    /// Nothing yet.
    Wait,
    /// Send this step to every player.
    Broadcast(InputStep),
    /// These players never sent their first input in time; drop them.
    DropPlayers(Vec<u16>),
}

/// One frame of the host's work, from pool `v` to pool `w` with action
/// `a`: during the phase only the frame counter advances; once the phase
/// is over the inputs go out as the next generation's step, except that the
/// first step waits until every player has sent an input, and players who
/// stay silent beyond the longest delay are dropped.
pub open spec fn serverside_outcome(v: InputPoolView, a: HostStepAction, w: InputPoolView) -> bool {
    let delayed = v.players.difference(v.player_states);
    if v.curr_frame_index < STEP_PHASE_FRAME_LENGTH {
        &&& a is Wait
        &&& w == (InputPoolView { curr_frame_index: (v.curr_frame_index + 1) as u32, ..v })
    } else if v.curr_gen > 0 || delayed.is_empty() {
        &&& a matches HostStepAction::Broadcast(step) && step@.gen == v.curr_gen + 1
            && lists_entries(step@.states, v.input_states)
        &&& w == (InputPoolView {
            curr_gen: (v.curr_gen + 1) as u64,
            curr_frame_index: 1,
            players: v.players,
            player_states: Set::empty(),
            input_states: Map::empty(),
        })
    } else if v.curr_frame_index >= MAX_CLIENT_STATE_SEND_DELAY {
        &&& a matches HostStepAction::DropPlayers(ids) && ids@.no_duplicates()
            && ids@.to_set() == delayed
        &&& w == (InputPoolView { curr_frame_index: (v.curr_frame_index + 1) as u32, ..v })
    } else {
        &&& a is Wait
        &&& w == (InputPoolView { curr_frame_index: (v.curr_frame_index + 1) as u32, ..v })
    }
}

impl InputPool {
    /// The host's work for one frame: once the phase is over, the inputs are
    /// bundled into a step for everyone, except that the first step waits
    /// until every player has sent an input (their signal of being ready),
    /// and players who stay silent beyond the longest delay are dropped.
    /// The frame counter then advances.
    pub fn update_serverside(&mut self) -> (a: HostStepAction)
        requires
            old(self)@.curr_frame_index < u32::MAX,
            old(self)@.curr_frame_index >= STEP_PHASE_FRAME_LENGTH ==> old(self)@.curr_gen
                < u64::MAX,
        ensures
            serverside_outcome(old(self)@, a, final(self)@),
    {
        let mut action = HostStepAction::Wait;
        if self.is_step_phase_over() {
            let delayed = self.check_delayed_players();
            proof {
                if delayed@.len() == 0 {
                    assert(delayed@.to_set() =~= Set::<u16>::empty());
                } else {
                    assert(delayed@.to_set().contains(delayed@[0]));
                }
            }
            if self.curr_gen > 0 || delayed.len() == 0 {
                action = HostStepAction::Broadcast(self.flush_states());
            } else if self.is_max_delay_exceeded() {
                action = HostStepAction::DropPlayers(delayed);
            }
        }
        self.update_states();
        action
    }
}

/// The host's frame in terms of what players see: nothing goes out during
/// a phase; a step goes out only once the phase is over, carries the next
/// generation and opens a fresh phase with no inputs; the first step is
/// never sent while a player has not been heard from; and only players
/// who have not been heard from are ever dropped, none of them before the
/// longest delay.
pub proof fn lemma_host_frame(v: InputPoolView, a: HostStepAction, w: InputPoolView)
    requires
        serverside_outcome(v, a, w),
    ensures
        v.curr_frame_index < STEP_PHASE_FRAME_LENGTH ==> a is Wait && w.curr_gen == v.curr_gen
            && w.curr_frame_index == v.curr_frame_index + 1 && w.input_states == v.input_states,
        a is Broadcast ==> v.curr_frame_index >= STEP_PHASE_FRAME_LENGTH && w.curr_gen
            == v.curr_gen + 1 && w.input_states == Map::<u16, InputState>::empty()
            && w.player_states == Set::<u16>::empty() && w.players == v.players,
        a matches HostStepAction::Broadcast(step) ==> step@.gen == v.curr_gen + 1 && (forall|
            k: u16,
        | #[trigger] v.input_states.contains_key(k) ==> step@.states.contains(
            (k, v.input_states[k]),
        )),
        v.curr_gen == 0 && !v.players.subset_of(v.player_states) ==> !(a is Broadcast),
        a matches HostStepAction::DropPlayers(ids) ==> v.curr_frame_index
            >= MAX_CLIENT_STATE_SEND_DELAY && (forall|i: int|
            0 <= i < ids@.len() ==> v.players.contains(#[trigger] ids@[i])
                && !v.player_states.contains(ids@[i])),
        !(a is Broadcast) ==> w.curr_gen == v.curr_gen && w.input_states == v.input_states,
{
    let delayed = v.players.difference(v.player_states);
    if v.curr_gen == 0 && !v.players.subset_of(v.player_states) {
        let p = choose|p: u16| v.players.contains(p) && !v.player_states.contains(p);
        assert(delayed.contains(p));
    }
    match a {
        HostStepAction::Broadcast(step) => {
            assert forall|k: u16| #[trigger] v.input_states.contains_key(k) implies step@.states.contains(
                (k, v.input_states[k]),
            ) by {
                let i = choose|i: int| 0 <= i < step@.states.len() && #[trigger] step@.states[i].0 == k;
                assert(step@.states[i] == (k, v.input_states[k]));
            }
        },
        HostStepAction::DropPlayers(ids) => {
            assert forall|i: int| 0 <= i < ids@.len() implies v.players.contains(#[trigger] ids@[i])
                && !v.player_states.contains(ids@[i]) by {
                assert(ids@.to_set().contains(ids@[i]));
            }
        },
        HostStepAction::Wait => {},
    }
}

/// Whatever a player sent last during a phase is what the flushed step
/// holds for that player, exactly once.
pub proof fn lemma_flush_keeps_last_input(
    m: Map<u16, InputState>,
    sender: u16,
    state: InputState,
    entries: Seq<(u16, InputState)>,
)
    requires
        lists_entries(entries, m.insert(sender, state)),
    ensures
        exists|i: int| 0 <= i < entries.len() && entries[i] == (sender, state),
        forall|i: int, j: int|
            0 <= i < entries.len() && 0 <= j < entries.len() && entries[i].0 == sender
                && entries[j].0 == sender ==> i == j,
{
    let m2 = m.insert(sender, state);
    assert(m2.contains_key(sender));
    let i = choose|i: int| 0 <= i < entries.len() && #[trigger] entries[i].0 == sender;
    assert(m2[entries[i].0] == entries[i].1);
    assert(entries[i] == (sender, state));
}

/// Right after a phase is flushed every player is delayed, and a player who
/// has sent an input during the phase is not.
pub proof fn lemma_delayed_players(v: InputPoolView, sender: u16, state: InputState)
    ensures
        v.players.difference(Set::<u16>::empty()) == v.players,
        !v.players.difference(v.player_states.insert(sender)).contains(sender),
{
    assert(v.players.difference(Set::<u16>::empty()) =~= v.players);
}

} // verus!
