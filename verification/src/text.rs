//! Decimal rendering of numbers in player-facing text.
use vstd::prelude::*;

verus! {

/// The character of a decimal digit.
pub open spec fn digit_char(d: nat) -> char {
    if d == 0 {
        '0'
    } else if d == 1 {
        '1'
    } else if d == 2 {
        '2'
    } else if d == 3 {
        '3'
    } else if d == 4 {
        '4'
    } else if d == 5 {
        '5'
    } else if d == 6 {
        '6'
    } else if d == 7 {
        '7'
    } else if d == 8 {
        '8'
    } else {
        '9'
    }
}

/// The decimal digits of `n`, most significant first, without leading zeros.
pub open spec fn decimal(n: nat) -> Seq<char>
    decreases n,
{
    if n < 10 {
        seq![digit_char(n)]
    } else {
        decimal(n / 10).push(digit_char(n % 10))
    }
}

fn digit_str(d: u32) -> (s: &'static str)
    requires
        d < 10,
    ensures
        s@ == seq![digit_char(d as nat)],
{
    if d == 0 {
        proof { reveal_strlit("0"); }
        "0"
    } else if d == 1 {
        proof { reveal_strlit("1"); }
        "1"
    } else if d == 2 {
        proof { reveal_strlit("2"); }
        "2"
    } else if d == 3 {
        proof { reveal_strlit("3"); }
        "3"
    } else if d == 4 {
        proof { reveal_strlit("4"); }
        "4"
    } else if d == 5 {
        proof { reveal_strlit("5"); }
        "5"
    } else if d == 6 {
        proof { reveal_strlit("6"); }
        "6"
    } else if d == 7 {
        proof { reveal_strlit("7"); }
        "7"
    } else if d == 8 {
        proof { reveal_strlit("8"); }
        "8"
    } else {
        proof { reveal_strlit("9"); }
        "9"
    }
}

/// Appends the decimal digits of `n`.
pub fn push_decimal(s: &mut String, n: u32)
    ensures
        final(s)@ == old(s)@ + decimal(n as nat),
    decreases n,
{
    if n >= 10 {
        push_decimal(s, n / 10);
    }
    s.append(digit_str(n % 10));
    assert(final(s)@ =~= old(s)@ + decimal(n as nat));
}

/// The major part of the game's version.
pub const PRIMARY_VERSION: u32 = 0;

/// The minor part of the game's version.
pub const SECONDARY_VERSION: u32 = 1;

/// The version as shown to players: `v`, the major part, a dot and the
/// minor part.
pub open spec fn version_text() -> Seq<char> {
    seq!['v'] + decimal(PRIMARY_VERSION as nat) + seq!['.'] + decimal(SECONDARY_VERSION as nat)
}

/// The game's version, such as `v0.1`.
pub fn get_version() -> (s: String)
    ensures
        s@ == version_text(),
{
    let mut s = String::new();
    proof {
        reveal_strlit("v");
        reveal_strlit(".");
    }
    s.append("v");
    push_decimal(&mut s, PRIMARY_VERSION);
    s.append(".");
    push_decimal(&mut s, SECONDARY_VERSION);
    assert(s@ =~= version_text());
    s
}

} // verus!
