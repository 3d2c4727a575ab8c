//! The text and timing of the in-match display: ship stats, the player
//! list, the size of the generated map.
use crate::id::ID;
use crate::text::{decimal, push_decimal};
use vstd::prelude::*;

verus! {

/// The health line of the ship display, such as `120/140 Health`.
pub open spec fn health_text(curr: u16, max: u16) -> Seq<char> {
    decimal(curr as nat) + "/"@ + decimal(max as nat) + " Health"@
}

pub fn health_label(curr: u16, max: u16) -> (s: String)
    ensures
        s@ == health_text(curr, max),
{
    let mut s = String::new();
    push_decimal(&mut s, curr as u32);
    s.append("/");
    push_decimal(&mut s, max as u32);
    s.append(" Health");
    s
}

/// The treasury line of the ship display, such as `100 Escudos`.
pub open spec fn escudos_text(balance: u32) -> Seq<char> {
    decimal(balance as nat) + " Escudos"@
}

pub fn escudos_label(balance: u32) -> (s: String)
    ensures
        s@ == escudos_text(balance),
{
    let mut s = String::new();
    push_decimal(&mut s, balance);
    s.append(" Escudos");
    s
}

/// A line of the in-match player list: name and number, and a host mark.
pub open spec fn player_entry_text(name: Seq<char>, n: u16) -> Seq<char> {
    "  "@ + name + "^"@ + decimal(n as nat) + " "@ + (if n == 0 {
        "(Host)"@
    } else {
        ""@
    })
}

pub fn player_entry(id: &ID) -> (s: String)
    ensures
        s@ == player_entry_text(id.name@, id.n),
{
    let mut s = String::new();
    s.append("  ");
    s.append(id.name.as_str());
    s.append("^");
    push_decimal(&mut s, id.n as u32);
    s.append(" ");
    if id.n == 0 {
        s.append("(Host)");
    } else {
        s.append("");
    }
    proof {
        assert(s@ =~= player_entry_text(id.name@, id.n));
    }
    s
}

/// The side length, in tiles, of the world generated for a match: ten,
/// plus five per player, at most thirty.
pub open spec fn spec_map_size(players: nat) -> int {
    if 10 + 5 * players < 30 {
        (10 + 5 * players) as int
    } else {
        30
    }
}

pub fn map_size(players: usize) -> (n: i64)
    ensures
        n == spec_map_size(players as nat),
{
    if players >= 4 {
        30
    } else {
        10 + 5 * (players as i64)
    }
}

/// The match information is refreshed every tenth generation, once.
pub fn is_match_info_due(curr_gen: u64, last_update_gen: u64) -> (b: bool)
    ensures
        b == (curr_gen % 10 == 0 && curr_gen != last_update_gen),
{
    curr_gen % 10 == 0 && curr_gen != last_update_gen
}

} // verus!
