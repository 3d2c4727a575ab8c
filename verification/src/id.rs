//! Player identities: a chosen name and the number the server assigned.
use crate::wire::{
    bytes_string,
    bytes_u16,
    lemma_take_string,
    lemma_take_u16,
    read_string,
    read_u16,
    string_fits,
    take_string,
    take_u16,
    write_string,
    write_u16,
};
use vstd::prelude::*;

verus! {

/// A player: the name they chose and the number the server gave them.
#[derive(Clone, PartialEq, Eq, Hash)]
pub struct ID {
    pub name: String,
    pub n: u16,
}

/// What an [`ID`] is: a name as characters and a number.
pub struct IDView {
    pub name: Seq<char>,
    pub n: u16,
}

impl View for ID {
    type V = IDView;

    open spec fn view(&self) -> IDView {
        IDView { name: self.name@, n: self.n }
    }
}

/// An id on the wire: the name as a string, then the number.
pub open spec fn bytes_id(id: IDView) -> Seq<u8> {
    bytes_string(id.name) + bytes_u16(id.n)
}

pub open spec fn take_id(s: Seq<u8>) -> Option<(IDView, Seq<u8>)> {
    match take_string(s) {
        Some((name, r)) => match take_u16(r) {
            Some((n, r2)) => Some((IDView { name, n }, r2)),
            None => None,
        },
        None => None,
    }
}

pub proof fn lemma_take_id(id: IDView, rest: Seq<u8>)
    requires
        string_fits(id.name),
    ensures
        take_id(bytes_id(id) + rest) == Some((id, rest)),
{
    assert(bytes_id(id) + rest =~= bytes_string(id.name) + (bytes_u16(id.n) + rest));
    lemma_take_string(id.name, bytes_u16(id.n) + rest);
    lemma_take_u16(id.n, rest);
}

impl ID {
    pub fn new(name: String, n: u16) -> (id: ID)
        ensures
            id.name@ == name@,
            id.n == n,
    {
        ID { name, n }
    }

    /// A copy of this id.
    pub fn duplicate(&self) -> (id: ID)
        ensures
            id@ == self@,
    {
        ID { name: self.name.clone(), n: self.n }
    }

    pub fn to_stream(&self, buf: &mut Vec<u8>)
        ensures
            final(buf)@ == old(buf)@ + bytes_id(self@),
    {
        write_string(buf, &self.name);
        write_u16(buf, self.n);
        assert(final(buf)@ =~= old(buf)@ + bytes_id(self@));
    }

    /// Reads an id at `pos`; nothing when the bytes end early or the name is
    /// not valid UTF-8.
    pub fn from_stream(buf: &[u8], pos: usize) -> (r: Option<(ID, usize)>)
        requires
            pos <= buf@.len(),
        ensures
            match take_id(buf@.skip(pos as int)) {
                Some((v, rest)) => r matches Some((w, p)) && w@ == v && pos <= p <= buf@.len()
                    && rest == buf@.skip(p as int),
                None => r is None,
            },
    {
        match read_string(buf, pos) {
            Some((name, p)) => match read_u16(buf, p) {
                Some((n, p2)) => Some((ID::new(name, n), p2)),
                None => None,
            },
            None => None,
        }
    }
}

} // verus!
