//! Cannons: the side of the ship each one is mounted on, which of them a
//! volley fires, and the course of a cannon ball.
use vstd::prelude::*;

verus! {

/// Where on its ship a cannon is mounted.
#[derive(Debug, Clone, Copy, PartialEq, Eq, Structural)]
pub enum CannonSide {
    Bowside,
    Portside,
    Nose,
    Stern,
}

/// Where a cannon ball is on its course.
#[derive(Debug, Clone, Copy, PartialEq, Eq, Structural)]
pub enum CannonBallState {
    Travelling,
    Hit,
    Miss,
}

/// Which cannons of a ship fire together.
#[derive(Debug, Clone, Copy, PartialEq, Eq, Structural)]
pub enum Volley {
    /// Every cannon of the ship.
    All,
    /// The cannons mounted on one side.
    Side(CannonSide),
}

/// Whether a cannon on `side` takes part in `volley`.
pub open spec fn fires_in(volley: Volley, side: CannonSide) -> bool {
    match volley {
        Volley::All => true,
        Volley::Side(s) => s == side,
    }
}

/// The sides of a ship's cannons, in the order they are mounted:
/// `per_side` on the bow side, then `per_side` on the port side.
pub open spec fn cannon_layout_spec(per_side: nat) -> Seq<CannonSide> {
    Seq::new(
        2 * per_side,
        |i: int|
            if i < per_side {
                CannonSide::Bowside
            } else {
                CannonSide::Portside
            },
    )
}

/// The sides of the cannons a ship is built with.
pub fn cannon_layout(per_side: u32) -> (sides: Vec<CannonSide>)
    ensures
        sides@ == cannon_layout_spec(per_side as nat),
{
    let mut sides: Vec<CannonSide> = Vec::new();
    let mut i: u32 = 0;
    while i < per_side
        invariant
            i <= per_side,
            sides@.len() == i,
            forall|j: int| 0 <= j < i ==> sides@[j] == CannonSide::Bowside,
        decreases per_side - i,
    {
        sides.push(CannonSide::Bowside);
        i = i + 1;
    }
    let mut k: u32 = 0;
    while k < per_side
        invariant
            k <= per_side,
            sides@.len() == per_side + k,
            forall|j: int| 0 <= j < per_side ==> sides@[j] == CannonSide::Bowside,
            forall|j: int| per_side <= j < per_side + k ==> sides@[j] == CannonSide::Portside,
        decreases per_side - k,
    {
        sides.push(CannonSide::Portside);
        k = k + 1;
    }
    assert(sides@ =~= cannon_layout_spec(per_side as nat));
    sides
}

/// The positions, in mounting order, of the cannons that fire in `volley`.
pub fn cannons_to_fire(sides: &Vec<CannonSide>, volley: Volley) -> (idx: Vec<usize>)
    ensures
        forall|i: int, j: int| 0 <= i < j < idx@.len() ==> idx@[i] < idx@[j],
        forall|i: int| 0 <= i < idx@.len() ==> #[trigger] idx@[i] < sides@.len(),
        forall|k: int|
            0 <= k < sides@.len() ==> (fires_in(volley, #[trigger] sides@[k]) <==> idx@.contains(
                k as usize,
            )),
{
    let mut idx: Vec<usize> = Vec::new();
    let n = sides.len();
    let mut k: usize = 0;
    while k < n
        invariant
            n == sides@.len(),
            k <= n,
            forall|i: int, j: int| 0 <= i < j < idx@.len() ==> idx@[i] < idx@[j],
            forall|i: int| 0 <= i < idx@.len() ==> #[trigger] idx@[i] < k,
            forall|m: int|
                0 <= m < k ==> (fires_in(volley, #[trigger] sides@[m]) <==> idx@.contains(
                    m as usize,
                )),
        decreases n - k,
    {
        let fires = match volley {
            Volley::All => true,
            Volley::Side(s) => s == sides[k],
        };
        let ghost old_idx = idx@;
        if fires {
            idx.push(k);
        }
        proof {
            assert forall|m: int| 0 <= m < k + 1 implies (fires_in(volley, #[trigger] sides@[m])
                <==> idx@.contains(m as usize)) by {
                if m < k {
                    if idx@.contains(m as usize) {
                        let i = choose|i: int| 0 <= i < idx@.len() && idx@[i] == m as usize;
                        if fires && i == old_idx.len() {
                            assert(idx@[i] == k);
                        } else {
                            assert(old_idx[i] == m as usize);
                        }
                    }
                    if old_idx.contains(m as usize) {
                        let i = choose|i: int| 0 <= i < old_idx.len() && old_idx[i] == m as usize;
                        assert(idx@[i] == m as usize);
                    }
                } else {
                    if fires {
                        assert(idx@[old_idx.len() as int] == k);
                    } else {
                        assert(forall|i: int| 0 <= i < idx@.len() ==> idx@[i] != m as usize);
                    }
                }
            }
        }
        k = k + 1;
    }
    idx
}

} // verus!
