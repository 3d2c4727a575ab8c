//! Why connections end, and who holds authority in a match.
use crate::wire::{bytes_u8, lemma_take_u8, read_matches, read_u8, take_u8, write_u8};
use vstd::prelude::*;

verus! {

/// Why a player left or was removed from a match.
#[derive(Debug, Clone, Copy, PartialEq, Eq, Structural)]
pub enum DisconnectReason {
    Manual,
    Timeout,
    HostShutdown,
    Desync,
}

pub open spec fn disconnect_reason_code(r: DisconnectReason) -> u8 {
    match r {
        DisconnectReason::Manual => 0,
        DisconnectReason::Timeout => 1,
        DisconnectReason::HostShutdown => 2,
        DisconnectReason::Desync => 3,
    }
}

pub open spec fn disconnect_reason_of_code(b: u8) -> Option<DisconnectReason> {
    if b == 0 {
        Some(DisconnectReason::Manual)
    } else if b == 1 {
        Some(DisconnectReason::Timeout)
    } else if b == 2 {
        Some(DisconnectReason::HostShutdown)
    } else if b == 3 {
        Some(DisconnectReason::Desync)
    } else {
        None
    }
}

pub open spec fn bytes_disconnect_reason(r: DisconnectReason) -> Seq<u8> {
    bytes_u8(disconnect_reason_code(r))
}

pub open spec fn take_disconnect_reason(s: Seq<u8>) -> Option<(DisconnectReason, Seq<u8>)> {
    match take_u8(s) {
        Some((b, r)) => match disconnect_reason_of_code(b) {
            Some(d) => Some((d, r)),
            None => None,
        },
        None => None,
    }
}

pub proof fn lemma_take_disconnect_reason(d: DisconnectReason, rest: Seq<u8>)
    ensures
        take_disconnect_reason(bytes_disconnect_reason(d) + rest) == Some((d, rest)),
{
    lemma_take_u8(disconnect_reason_code(d), rest);
}

impl DisconnectReason {
    pub fn to_stream(&self, buf: &mut Vec<u8>)
        ensures
            final(buf)@ == old(buf)@ + bytes_disconnect_reason(*self),
    {
        let code: u8 = match self {
            DisconnectReason::Manual => 0,
            DisconnectReason::Timeout => 1,
            DisconnectReason::HostShutdown => 2,
            DisconnectReason::Desync => 3,
        };
        write_u8(buf, code);
    }

    /// Reads a reason at `pos`; nothing when the byte is missing or names no
    /// reason.
    pub fn from_stream(buf: &[u8], pos: usize) -> (r: Option<(DisconnectReason, usize)>)
        requires
            pos <= buf@.len(),
        ensures
            read_matches(buf@, pos, r, take_disconnect_reason(buf@.skip(pos as int))),
    {
        match read_u8(buf, pos) {
            Some((b, p)) => {
                if b == 0 {
                    Some((DisconnectReason::Manual, p))
                } else if b == 1 {
                    Some((DisconnectReason::Timeout, p))
                } else if b == 2 {
                    Some((DisconnectReason::HostShutdown, p))
                } else if b == 3 {
                    Some((DisconnectReason::Desync, p))
                } else {
                    None
                }
            },
            None => None,
        }
    }
}

/// The player with id 0 hosts the match and holds authority over it.
pub fn is_auth_client(id: u16) -> (b: bool)
    ensures
        b == (id == 0),
{
    id == 0
}

} // verus!
