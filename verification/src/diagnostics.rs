//! The bounded record of recent simulation events, kept for writing out
//! when a match desyncs or ends.
use crate::ship_data::{ship_id_text, ShipID};
use crate::text::{decimal, push_decimal};
use std::collections::VecDeque;
use vstd::prelude::*;

verus! {

/// How many recent events the record keeps.
pub const MAX_CACHE_SIZE: usize = 220;

/// The most recent events, oldest first, at most [`MAX_CACHE_SIZE`] of them.
pub struct Diagnostics<T> {
    states: VecDeque<T>,
}

/// The record after `s` was added to `states`: the oldest event makes room
/// when the record is full.
pub open spec fn record_after<T>(states: Seq<T>, s: T) -> Seq<T> {
    if states.len() >= MAX_CACHE_SIZE {
        states.drop_first().push(s)
    } else {
        states.push(s)
    }
}

impl<T> View for Diagnostics<T> {
    type V = Seq<T>;

    closed spec fn view(&self) -> Seq<T> {
        self.states@
    }
}

impl<T> Diagnostics<T> {
    #[verifier::type_invariant]
    spec fn bounded(self) -> bool {
        self.states@.len() <= MAX_CACHE_SIZE
    }

    pub fn new() -> (d: Diagnostics<T>)
        ensures
            d@ == Seq::<T>::empty(),
    {
        Diagnostics { states: VecDeque::new() }
    }

    /// How many events are recorded; never more than [`MAX_CACHE_SIZE`].
    pub fn len(&self) -> (n: usize)
        ensures
            n == self@.len(),
            n <= MAX_CACHE_SIZE,
    {
        proof {
            use_type_invariant(self);
        }
        self.states.len()
    }

    /// Records an event, forgetting the oldest when the record is full.
    pub fn add_state(&mut self, state: T)
        ensures
            final(self)@ == record_after(old(self)@, state),
            final(self)@.len() <= MAX_CACHE_SIZE,
    {
        proof {
            use_type_invariant(&*self);
        }
        let mut states = VecDeque::new();
        std::mem::swap(&mut states, &mut self.states);
        if states.len() >= MAX_CACHE_SIZE {
            let _ = states.pop_front();
        }
        states.push_back(state);
        self.states = states;
    }

    /// Hands over the recorded events, oldest first, and empties the record.
    pub fn take_states(&mut self) -> (states: Vec<T>)
        ensures
            states@ == old(self)@,
            final(self)@ == Seq::<T>::empty(),
    {
        let mut queue = VecDeque::new();
        std::mem::swap(&mut queue, &mut self.states);
        let mut states: Vec<T> = Vec::new();
        let ghost all = queue@;
        while queue.len() > 0
            invariant
                all == states@ + queue@,
            decreases queue@.len(),
        {
            match queue.pop_front() {
                Some(s) => {
                    proof {
                        assert(states@.push(s) + queue@ =~= all);
                    }
                    states.push(s);
                },
                None => {},
            }
        }
        assert(states@ =~= all);
        states
    }
}

/// The record holds the last events added, in order: adding to a full
/// record forgets exactly the oldest one.
pub proof fn lemma_record_keeps_latest<T>(states: Seq<T>, s: T)
    requires
        states.len() <= MAX_CACHE_SIZE,
    ensures
        record_after(states, s).len() <= MAX_CACHE_SIZE,
        record_after(states, s).last() == s,
        states.len() < MAX_CACHE_SIZE ==> record_after(states, s).drop_last() == states,
        states.len() == MAX_CACHE_SIZE ==> record_after(states, s).drop_last()
            == states.drop_first(),
{
    assert(states.push(s).drop_last() =~= states);
    assert(states.drop_first().push(s).drop_last() =~= states.drop_first());
}

/// The two collisions between ships that the record notes.
#[derive(Debug, Clone, Copy, PartialEq, Eq, Structural)]
pub enum CollisionKind {
    /// Two ships rammed each other.
    ShipShip,
    /// A ship was hit by another's cannon ball.
    ShipCannonBall,
}

/// The log line of a collision between the ships named `a` and `b` that
/// did `dmg` damage: the tag, `a`, what happened, `b` and the damage, split
/// by semicolons.
pub open spec fn collision_log_text(kind: CollisionKind, a: Seq<char>, b: Seq<char>, dmg: nat) -> Seq<char> {
    let (tag, what) = match kind {
        CollisionKind::ShipShip => ("ShipColl;"@, ";collided with;"@),
        CollisionKind::ShipCannonBall => ("CannonColl;"@, ";shot by;"@),
    };
    tag + a + what + b + ";"@ + decimal(dmg) + " dmg"@
}

/// The log line of a collision of ship `a` with ship `b`, `a` being the one
/// hit.
pub fn collision_log_line(kind: CollisionKind, a: &ShipID, b: &ShipID, dmg: u16) -> (s: String)
    ensures
        s@ == collision_log_text(kind, ship_id_text(a), ship_id_text(b), dmg as nat),
{
    let mut s = String::new();
    match kind {
        CollisionKind::ShipShip => s.append("ShipColl;"),
        CollisionKind::ShipCannonBall => s.append("CannonColl;"),
    }
    let an = a.to_string();
    s.append(an.as_str());
    match kind {
        CollisionKind::ShipShip => s.append(";collided with;"),
        CollisionKind::ShipCannonBall => s.append(";shot by;"),
    }
    let bn = b.to_string();
    s.append(bn.as_str());
    s.append(";");
    push_decimal(&mut s, dmg as u32);
    s.append(" dmg");
    proof {
        let (tag, what) = match kind {
            CollisionKind::ShipShip => ("ShipColl;"@, ";collided with;"@),
            CollisionKind::ShipCannonBall => ("CannonColl;"@, ";shot by;"@),
        };
        assert(s@ =~= tag + ship_id_text(a) + what + ship_id_text(b) + ";"@ + decimal(dmg as nat)
            + " dmg"@);
    }
    s
}

} // verus!
