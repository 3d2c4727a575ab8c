//! Match settings chosen in the lobby: the win condition and the weather.
use crate::wire::{
    bytes_u16,
    bytes_u32,
    bytes_u8,
    lemma_take_u16,
    lemma_take_u32,
    lemma_take_u8,
    read_matches,
    read_u16,
    read_u32,
    read_u8,
    take_u16,
    take_u32,
    take_u8,
    write_u16,
    write_u32,
    write_u8,
};
use vstd::prelude::*;

verus! {

/// How a match is won.
#[derive(Debug, Clone, Copy, PartialEq, Eq, Structural)]
pub enum GameMode {
    /// The first player to collect this many escudos wins.
    Raid(u32),
    /// The first player with this many sinkings wins.
    Deathmatch(u16),
}

/// The weather of a match.
#[derive(Debug, Clone, Copy, PartialEq, Eq, Structural)]
pub enum Weather {
    Sunny,
    Windy,
    Rainy,
    Stormy,
}

/// The settings of a match.
#[derive(Debug, Clone, Copy, PartialEq, Eq, Structural)]
pub struct GameSettings {
    pub mode: GameMode,
    pub weather: Weather,
}

/// A game mode on the wire: a tag byte, then the goal.
pub open spec fn bytes_game_mode(m: GameMode) -> Seq<u8> {
    match m {
        GameMode::Raid(goal) => bytes_u8(0) + bytes_u32(goal),
        GameMode::Deathmatch(goal) => bytes_u8(1) + bytes_u16(goal),
    }
}

pub open spec fn take_game_mode(s: Seq<u8>) -> Option<(GameMode, Seq<u8>)> {
    match take_u8(s) {
        Some((tag, r)) => if tag == 0 {
            match take_u32(r) {
                Some((goal, r2)) => Some((GameMode::Raid(goal), r2)),
                None => None,
            }
        } else if tag == 1 {
            match take_u16(r) {
                Some((goal, r2)) => Some((GameMode::Deathmatch(goal), r2)),
                None => None,
            }
        } else {
            None
        },
        None => None,
    }
}

pub open spec fn weather_code(w: Weather) -> u8 {
    match w {
        Weather::Sunny => 0,
        Weather::Windy => 1,
        Weather::Rainy => 2,
        Weather::Stormy => 3,
    }
}

pub open spec fn weather_of_code(b: u8) -> Option<Weather> {
    if b == 0 {
        Some(Weather::Sunny)
    } else if b == 1 {
        Some(Weather::Windy)
    } else if b == 2 {
        Some(Weather::Rainy)
    } else if b == 3 {
        Some(Weather::Stormy)
    } else {
        None
    }
}

pub open spec fn bytes_weather(w: Weather) -> Seq<u8> {
    bytes_u8(weather_code(w))
}

pub open spec fn take_weather(s: Seq<u8>) -> Option<(Weather, Seq<u8>)> {
    match take_u8(s) {
        Some((b, r)) => match weather_of_code(b) {
            Some(w) => Some((w, r)),
            None => None,
        },
        None => None,
    }
}

/// Settings on the wire: the mode, then the weather.
pub open spec fn bytes_game_settings(g: GameSettings) -> Seq<u8> {
    bytes_game_mode(g.mode) + bytes_weather(g.weather)
}

pub open spec fn take_game_settings(s: Seq<u8>) -> Option<(GameSettings, Seq<u8>)> {
    match take_game_mode(s) {
        Some((mode, r)) => match take_weather(r) {
            Some((weather, r2)) => Some((GameSettings { mode, weather }, r2)),
            None => None,
        },
        None => None,
    }
}

/// Settings read back from their own bytes are the settings written, and
/// reading stops right after them.
pub proof fn lemma_game_settings_roundtrip(g: GameSettings, rest: Seq<u8>)
    ensures
        take_game_settings(bytes_game_settings(g) + rest) == Some((g, rest)),
{
    let w = bytes_weather(g.weather) + rest;
    match g.mode {
        GameMode::Raid(goal) => {
            assert(bytes_game_settings(g) + rest =~= bytes_u8(0) + (bytes_u32(goal) + w));
            lemma_take_u8(0, bytes_u32(goal) + w);
            lemma_take_u32(goal, w);
        },
        GameMode::Deathmatch(goal) => {
            assert(bytes_game_settings(g) + rest =~= bytes_u8(1) + (bytes_u16(goal) + w));
            lemma_take_u8(1, bytes_u16(goal) + w);
            lemma_take_u16(goal, w);
        },
    }
    lemma_take_u8(weather_code(g.weather), rest);
}

impl GameMode {
    pub fn to_stream(&self, buf: &mut Vec<u8>)
        ensures
            final(buf)@ == old(buf)@ + bytes_game_mode(*self),
    {
        match self {
            GameMode::Raid(goal) => {
                write_u8(buf, 0);
                write_u32(buf, *goal);
            },
            GameMode::Deathmatch(goal) => {
                write_u8(buf, 1);
                write_u16(buf, *goal);
            },
        }
        assert(final(buf)@ =~= old(buf)@ + bytes_game_mode(*self));
    }

    /// Reads a mode at `pos`; nothing when bytes are missing or the tag names
    /// no mode.
    pub fn from_stream(buf: &[u8], pos: usize) -> (r: Option<(GameMode, usize)>)
        requires
            pos <= buf@.len(),
        ensures
            read_matches(buf@, pos, r, take_game_mode(buf@.skip(pos as int))),
    {
        match read_u8(buf, pos) {
            Some((tag, p)) => {
                if tag == 0 {
                    match read_u32(buf, p) {
                        Some((goal, p2)) => Some((GameMode::Raid(goal), p2)),
                        None => None,
                    }
                } else if tag == 1 {
                    match read_u16(buf, p) {
                        Some((goal, p2)) => Some((GameMode::Deathmatch(goal), p2)),
                        None => None,
                    }
                } else {
                    None
                }
            },
            None => None,
        }
    }
}

impl Weather {
    pub fn to_stream(&self, buf: &mut Vec<u8>)
        ensures
            final(buf)@ == old(buf)@ + bytes_weather(*self),
    {
        let code: u8 = match self {
            Weather::Sunny => 0,
            Weather::Windy => 1,
            Weather::Rainy => 2,
            Weather::Stormy => 3,
        };
        write_u8(buf, code);
    }

    /// Reads a weather at `pos`; nothing when the byte is missing or names no
    /// weather.
    pub fn from_stream(buf: &[u8], pos: usize) -> (r: Option<(Weather, usize)>)
        requires
            pos <= buf@.len(),
        ensures
            read_matches(buf@, pos, r, take_weather(buf@.skip(pos as int))),
    {
        match read_u8(buf, pos) {
            Some((b, p)) => {
                if b == 0 {
                    Some((Weather::Sunny, p))
                } else if b == 1 {
                    Some((Weather::Windy, p))
                } else if b == 2 {
                    Some((Weather::Rainy, p))
                } else if b == 3 {
                    Some((Weather::Stormy, p))
                } else {
                    None
                }
            },
            None => None,
        }
    }
}

impl GameSettings {
    pub fn new(mode: GameMode, weather: Weather) -> (g: GameSettings)
        ensures
            g.mode == mode,
            g.weather == weather,
    {
        GameSettings { mode, weather }
    }

    /// A raid to 500 escudos in sunny weather.
    pub fn default() -> (g: GameSettings)
        ensures
            g.mode == GameMode::Raid(500),
            g.weather == Weather::Sunny,
    {
        Self::new(GameMode::Raid(500), Weather::Sunny)
    }

    pub fn to_stream(&self, buf: &mut Vec<u8>)
        ensures
            final(buf)@ == old(buf)@ + bytes_game_settings(*self),
    {
        self.mode.to_stream(buf);
        self.weather.to_stream(buf);
        assert(final(buf)@ =~= old(buf)@ + bytes_game_settings(*self));
    }

    /// Reads settings at `pos`; nothing when the mode or the weather cannot
    /// be read.
    pub fn from_stream(buf: &[u8], pos: usize) -> (r: Option<(GameSettings, usize)>)
        requires
            pos <= buf@.len(),
        ensures
            read_matches(buf@, pos, r, take_game_settings(buf@.skip(pos as int))),
    {
        match GameMode::from_stream(buf, pos) {
            Some((mode, p)) => match Weather::from_stream(buf, p) {
                Some((weather, p2)) => Some((GameSettings::new(mode, weather), p2)),
                None => None,
            },
            None => None,
        }
    }
}

} // verus!
