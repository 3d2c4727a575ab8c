//! The loading screen's hint, drawn at random from the game's tips.
use rand::Rng;
use vstd::prelude::*;

verus! {

/// How many hints there are.
pub const HINT_COUNT: u32 = 11;

/// A random number from `min` to `max`, both included, drawn with
/// `rand::thread_rng().gen_range(min..=max)` from the `rand` crate, which
/// panics on an empty range. The draw depends on chance: only the range is
/// promised.
#[verifier::external_body]
pub fn rand_u32(min: u32, max: u32) -> (r: u32)
    requires
        min <= max,
    ensures
        min <= r <= max,
{
    rand::thread_rng().gen_range(min..=max)
}

/// The `i`-th hint.
pub open spec fn hint_text(i: int) -> Seq<char> {
    if i == 0 {
        "Ship collisions stun the crew. Duration and damage depend on the ship's defence value."@
    } else if i == 1 {
        "Use the Q and E keys to shoot cannons on star- and portside respectively."@
    } else if i == 2 {
        "What smaller ships lack in firepower, they make up in mobility."@
    } else if i == 3 {
        "Sinking a ship by ramming yields 60% of escudos onboard."@
    } else if i == 4 {
        "Sinking a ship via cannon shot yields 40% of escudos onboard."@
    } else if i == 5 {
        "When your ship sinks due to an accidental collision, you lose 15% of escudos onboard."@
    } else if i == 6 {
        "The more escudos you have, the slower your ship will sail."@
    } else if i == 7 {
        "Use your escudos to buy upgrades and repairs at harbours."@
    } else if i == 8 {
        "Reefs will prove an impassable barrier to heavier ships, while allowing lighter ships to pass."@
    } else if i == 9 {
        "Beware of bandit outposts! They will shoot any ship on sight."@
    } else {
        "Some ships can drop powder kegs into the water, which will detonate upon collision."@
    }
}

/// The `i`-th hint.
pub fn loading_hint(i: u32) -> (s: &'static str)
    requires
        i < HINT_COUNT,
    ensures
        s@ == hint_text(i as int),
{
    if i == 0 {
        "Ship collisions stun the crew. Duration and damage depend on the ship's defence value."
    } else if i == 1 {
        "Use the Q and E keys to shoot cannons on star- and portside respectively."
    } else if i == 2 {
        "What smaller ships lack in firepower, they make up in mobility."
    } else if i == 3 {
        "Sinking a ship by ramming yields 60% of escudos onboard."
    } else if i == 4 {
        "Sinking a ship via cannon shot yields 40% of escudos onboard."
    } else if i == 5 {
        "When your ship sinks due to an accidental collision, you lose 15% of escudos onboard."
    } else if i == 6 {
        "The more escudos you have, the slower your ship will sail."
    } else if i == 7 {
        "Use your escudos to buy upgrades and repairs at harbours."
    } else if i == 8 {
        "Reefs will prove an impassable barrier to heavier ships, while allowing lighter ships to pass."
    } else if i == 9 {
        "Beware of bandit outposts! They will shoot any ship on sight."
    } else {
        "Some ships can drop powder kegs into the water, which will detonate upon collision."
    }
}

/// The hint line of the loading screen for hint `i`.
pub fn hint_line(i: u32) -> (s: String)
    requires
        i < HINT_COUNT,
    ensures
        s@ == "Hint: "@ + hint_text(i as int),
{
    let mut s = String::new();
    s.append("Hint: ");
    s.append(loading_hint(i));
    s
}

/// The hint line of the loading screen, for a hint drawn at random: one of
/// the hints, whichever chance picks.
pub fn random_hint_line() -> (s: String)
    ensures
        exists|i: int| 0 <= i < HINT_COUNT && s@ == "Hint: "@ + hint_text(i),
{
    let i = rand_u32(0, HINT_COUNT - 1);
    hint_line(i)
}

} // verus!
