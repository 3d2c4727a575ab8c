//! The host's bookkeeping of a match: who has joined, and the input pool
//! once the match runs.
use crate::id::{IDView, ID};
use crate::input_pool::{
    serverside_outcome, HostStepAction, InputPool, InputPoolView, STEP_PHASE_FRAME_LENGTH,
};
use crate::packet::{ids_view, InputState};
use vstd::prelude::*;

verus! {

/// What a [`HostSession`] holds: the players in the order they joined, and
/// the input pool once the match has started.
pub struct HostSessionView {
    pub players: Seq<IDView>,
    pub pool: Option<InputPoolView>,
}

/// The host's side of a match outside the network: the joined players and
/// the input pool of the running match.
pub struct HostSession {
    players: Vec<ID>,
    pool: Option<InputPool>,
}

impl View for HostSession {
    type V = HostSessionView;

    closed spec fn view(&self) -> HostSessionView {
        HostSessionView {
            players: ids_view(self.players@),
            pool: match self.pool {
                Some(p) => Some(p@),
                None => None,
            },
        }
    }
}

/// `players` without those numbered `n`, the others in order.
pub open spec fn without(players: Seq<IDView>, n: u16) -> Seq<IDView>
    decreases players.len(),
{
    if players.len() == 0 {
        players
    } else if players.last().n == n {
        without(players.drop_last(), n)
    } else {
        without(players.drop_last(), n).push(players.last())
    }
}

/// A player who left is listed no more, and everyone else who had joined
/// still is.
pub proof fn lemma_without_removes_only(players: Seq<IDView>, n: u16)
    ensures
        forall|i: int| 0 <= i < without(players, n).len() ==> #[trigger] without(players, n)[i].n != n,
        forall|p: IDView| players.contains(p) && p.n != n ==> without(players, n).contains(p),
        forall|p: IDView| without(players, n).contains(p) ==> players.contains(p),
    decreases players.len(),
{
    if players.len() > 0 {
        let rest = players.drop_last();
        lemma_without_removes_only(rest, n);
        assert forall|i: int| 0 <= i < without(players, n).len() implies #[trigger] without(
            players,
            n,
        )[i].n != n by {
            let wr = without(rest, n);
            if players.last().n != n {
                assert(without(players, n) == wr.push(players.last()));
                if i < wr.len() {
                    assert(wr[i].n != n);
                }
            } else {
                assert(wr[i].n != n);
            }
        }
        assert forall|p: IDView| players.contains(p) && p.n != n implies without(
            players,
            n,
        ).contains(p) by {
            let k = choose|k: int| 0 <= k < players.len() && players[k] == p;
            if k < players.len() - 1 {
                assert(rest[k] == p);
                assert(rest.contains(p));
                let w = without(rest, n);
                assert(w.contains(p));
                let j = choose|j: int| 0 <= j < w.len() && w[j] == p;
                if players.last().n != n {
                    assert(w.push(players.last())[j] == p);
                }
            } else {
                assert(without(players, n).last() == p);
            }
        }
        assert forall|p: IDView| without(players, n).contains(p) implies players.contains(p) by {
            let w = without(players, n);
            let wr = without(rest, n);
            let j = choose|j: int| 0 <= j < w.len() && w[j] == p;
            if players.last().n != n {
                assert(w == wr.push(players.last()));
                if j == wr.len() {
                    assert(players[players.len() - 1] == p);
                } else {
                    assert(wr[j] == p);
                    assert(wr.contains(p));
                    assert(rest.contains(p));
                    let k = choose|k: int| 0 <= k < rest.len() && rest[k] == p;
                    assert(players[k] == p);
                }
            } else {
                assert(w == wr);
                assert(wr[j] == p);
                assert(wr.contains(p));
                assert(rest.contains(p));
                let k = choose|k: int| 0 <= k < rest.len() && rest[k] == p;
                assert(players[k] == p);
            }
        }
    }
}

/// The numbers of `players`, in order.
pub open spec fn numbers(players: Seq<IDView>) -> Seq<u16> {
    players.map_values(|p: IDView| p.n)
}

/// Whether the host may run one more frame of the match without a counter
/// running out.
pub open spec fn can_tick(v: HostSessionView) -> bool {
    match v.pool {
        Some(p) => p.curr_frame_index < u32::MAX && (p.curr_frame_index >= STEP_PHASE_FRAME_LENGTH
            ==> p.curr_gen < u64::MAX),
        None => true,
    }
}

impl HostSession {
    /// Nobody has joined and no match runs.
    pub fn new() -> (h: HostSession)
        ensures
            h@.players == Seq::<IDView>::empty(),
            h@.pool is None,
    {
        let h = HostSession { players: Vec::new(), pool: None };
        assert(h@.players =~= Seq::<IDView>::empty());
        h
    }

    /// The joined players, in the order they joined.
    pub fn player_list(&self) -> (l: Vec<ID>)
        ensures
            ids_view(l@) == self@.players,
    {
        let mut l: Vec<ID> = Vec::new();
        let n = self.players.len();
        let mut i: usize = 0;
        while i < n
            invariant
                n == self.players@.len(),
                i <= n,
                ids_view(l@) == ids_view(self.players@).take(i as int),
            decreases n - i,
        {
            let ghost before = l@;
            let d = self.players[i].duplicate();
            l.push(d);
            proof {
                assert(ids_view(l@) =~= ids_view(before).push(self.players@[i as int]@));
                assert(ids_view(l@) =~= ids_view(self.players@).take(i + 1));
            }
            i = i + 1;
        }
        assert(ids_view(self.players@).take(n as int) =~= ids_view(self.players@));
        l
    }

    /// A player joined.
    pub fn register(&mut self, id: &ID)
        ensures
            final(self)@ == (HostSessionView {
                players: old(self)@.players.push(id@),
                pool: old(self)@.pool,
            }),
    {
        let ghost before = self.players@;
        self.players.push(id.duplicate());
        assert(ids_view(self.players@) =~= ids_view(before).push(id@));
    }

    /// A player left: they are dropped from the list and from the pool.
    pub fn remove_player(&mut self, id: u16)
        ensures
            final(self)@.players == without(old(self)@.players, id),
            match old(self)@.pool {
                Some(p) => final(self)@.pool == Some(InputPoolView {
                    players: p.players.remove(id),
                    player_states: p.player_states.remove(id),
                    input_states: p.input_states.remove(id),
                    ..p
                }),
                None => final(self)@.pool is None,
            },
    {
        let mut kept: Vec<ID> = Vec::new();
        let n = self.players.len();
        let mut i: usize = 0;
        while i < n
            invariant
                n == self.players@.len(),
                i <= n,
                ids_view(kept@) == without(ids_view(self.players@).take(i as int), id),
            decreases n - i,
        {
            let ghost before = kept@;
            proof {
                assert(ids_view(self.players@).take(i + 1).drop_last() =~= ids_view(
                    self.players@,
                ).take(i as int));
            }
            if self.players[i].n != id {
                kept.push(self.players[i].duplicate());
                assert(ids_view(kept@) =~= ids_view(before).push(self.players@[i as int]@));
            }
            i = i + 1;
        }
        assert(ids_view(self.players@).take(n as int) =~= ids_view(self.players@));
        self.players = kept;
        match &mut self.pool {
            Some(pool) => pool.remove_player(id),
            None => {},
        }
    }

    /// The match starts: an input pool for the joined players.
    pub fn start_match(&mut self)
        ensures
            final(self)@.players == old(self)@.players,
            final(self)@.pool matches Some(p) && p.curr_gen == 0 && p.curr_frame_index == 0
                && p.players == numbers(old(self)@.players).to_set() && p.player_states
                == Set::<u16>::empty() && p.input_states == Map::<u16, InputState>::empty(),
    {
        let mut ids: Vec<u16> = Vec::new();
        let n = self.players.len();
        let mut i: usize = 0;
        while i < n
            invariant
                n == self.players@.len(),
                i <= n,
                ids@ == numbers(ids_view(self.players@)).take(i as int),
            decreases n - i,
        {
            ids.push(self.players[i].n);
            proof {
                assert(ids@ =~= numbers(ids_view(self.players@)).take(i + 1));
            }
            i = i + 1;
        }
        assert(numbers(ids_view(self.players@)).take(n as int) =~= numbers(
            ids_view(self.players@),
        ));
        self.pool = Some(InputPool::new(ids));
    }

    /// An input arrived from `sender`; it counts only once the match runs.
    pub fn add_input(&mut self, sender: u16, state: InputState)
        ensures
            final(self)@.players == old(self)@.players,
            match old(self)@.pool {
                Some(p) => final(self)@.pool == Some(InputPoolView {
                    player_states: p.player_states.insert(sender),
                    input_states: p.input_states.insert(sender, state),
                    ..p
                }),
                None => final(self)@.pool is None,
            },
    {
        match &mut self.pool {
            Some(pool) => pool.add_state(sender, state),
            None => {},
        }
    }

    /// Whether one more frame may run.
    pub fn can_tick(&self) -> (b: bool)
        ensures
            b == can_tick(self@),
    {
        match &self.pool {
            Some(pool) => pool.get_curr_frame_index() < u32::MAX && (pool.get_curr_frame_index()
                < STEP_PHASE_FRAME_LENGTH || pool.get_curr_gen() < u64::MAX),
            None => true,
        }
    }

    /// One frame of the running match, as the input pool decides it;
    /// nothing before the match starts.
    pub fn tick(&mut self) -> (a: Option<HostStepAction>)
        requires
            can_tick(old(self)@),
        ensures
            final(self)@.players == old(self)@.players,
            old(self)@.pool is None ==> a is None && final(self)@.pool is None,
            old(self)@.pool matches Some(p) ==> (a matches Some(act) && final(self)@.pool matches Some(
                q,
            ) && serverside_outcome(p, act, q)),
    {
        match &mut self.pool {
            Some(pool) => Some(pool.update_serverside()),
            None => None,
        }
    }
}

} // verus!
