//! Byte-level building blocks of the network format: little-endian integers
//! and `u32`-length-prefixed UTF-8 strings, written into and read back from
//! byte buffers.
use vstd::bytes::*;
use vstd::prelude::*;
use vstd::utf8::*;

verus! {

broadcast use {encode_utf8_valid_utf8, encode_utf8_decode_utf8};

/// Bytes of a single `u8`.
pub open spec fn bytes_u8(v: u8) -> Seq<u8> {
    seq![v]
}

/// Little-endian bytes of a `u16`.
pub open spec fn bytes_u16(v: u16) -> Seq<u8> {
    spec_u16_to_le_bytes(v)
}

/// Little-endian bytes of a `u32`.
pub open spec fn bytes_u32(v: u32) -> Seq<u8> {
    spec_u32_to_le_bytes(v)
}

/// Little-endian bytes of a `u64`.
pub open spec fn bytes_u64(v: u64) -> Seq<u8> {
    spec_u64_to_le_bytes(v)
}

/// A string on the wire: its UTF-8 byte length as a `u32` (truncated to 32
/// bits), then its UTF-8 bytes.
pub open spec fn bytes_string(s: Seq<char>) -> Seq<u8> {
    bytes_u32(encode_utf8(s).len() as u32) + encode_utf8(s)
}

/// A string whose length prefix can hold its UTF-8 byte length.
pub open spec fn string_fits(s: Seq<char>) -> bool {
    encode_utf8(s).len() <= u32::MAX
}

/// Reads one byte from the front of `s`; gives the byte and what follows it.
pub open spec fn take_u8(s: Seq<u8>) -> Option<(u8, Seq<u8>)> {
    if s.len() >= 1 {
        Some((s[0], s.skip(1)))
    } else {
        None
    }
}

/// Reads a little-endian `u16` from the front of `s`.
pub open spec fn take_u16(s: Seq<u8>) -> Option<(u16, Seq<u8>)> {
    if s.len() >= 2 {
        Some((spec_u16_from_le_bytes(s.take(2)), s.skip(2)))
    } else {
        None
    }
}

/// Reads a little-endian `u32` from the front of `s`.
pub open spec fn take_u32(s: Seq<u8>) -> Option<(u32, Seq<u8>)> {
    if s.len() >= 4 {
        Some((spec_u32_from_le_bytes(s.take(4)), s.skip(4)))
    } else {
        None
    }
}

/// Reads a little-endian `u64` from the front of `s`.
pub open spec fn take_u64(s: Seq<u8>) -> Option<(u64, Seq<u8>)> {
    if s.len() >= 8 {
        Some((spec_u64_from_le_bytes(s.take(8)), s.skip(8)))
    } else {
        None
    }
}

/// Reads a length-prefixed string from the front of `s`: fails when the
/// prefix or the announced bytes are missing, or when the bytes are not
/// valid UTF-8.
pub open spec fn take_string(s: Seq<u8>) -> Option<(Seq<char>, Seq<u8>)> {
    match take_u32(s) {
        Some((len, r)) => if r.len() >= len && valid_utf8(r.take(len as int)) {
            Some((decode_utf8(r.take(len as int)), r.skip(len as int)))
        } else {
            None
        },
        None => None,
    }
}

pub proof fn lemma_take_u8(v: u8, rest: Seq<u8>)
    ensures
        take_u8(bytes_u8(v) + rest) == Some((v, rest)),
{
    assert((bytes_u8(v) + rest).skip(1) =~= rest);
}

pub proof fn lemma_take_u16(v: u16, rest: Seq<u8>)
    ensures
        take_u16(bytes_u16(v) + rest) == Some((v, rest)),
        bytes_u16(v).len() == 2,
{
    lemma_auto_spec_u16_to_from_le_bytes();
    assert((bytes_u16(v) + rest).take(2) =~= bytes_u16(v));
    assert((bytes_u16(v) + rest).skip(2) =~= rest);
}

pub proof fn lemma_take_u32(v: u32, rest: Seq<u8>)
    ensures
        take_u32(bytes_u32(v) + rest) == Some((v, rest)),
        bytes_u32(v).len() == 4,
{
    lemma_auto_spec_u32_to_from_le_bytes();
    assert((bytes_u32(v) + rest).take(4) =~= bytes_u32(v));
    assert((bytes_u32(v) + rest).skip(4) =~= rest);
}

pub proof fn lemma_take_u64(v: u64, rest: Seq<u8>)
    ensures
        take_u64(bytes_u64(v) + rest) == Some((v, rest)),
        bytes_u64(v).len() == 8,
{
    lemma_auto_spec_u64_to_from_le_bytes();
    assert((bytes_u64(v) + rest).take(8) =~= bytes_u64(v));
    assert((bytes_u64(v) + rest).skip(8) =~= rest);
}

pub proof fn lemma_take_string(s: Seq<char>, rest: Seq<u8>)
    requires
        string_fits(s),
    ensures
        take_string(bytes_string(s) + rest) == Some((s, rest)),
{
    let e = encode_utf8(s);
    let len = e.len() as u32;
    lemma_take_u32(len, e + rest);
    assert(bytes_string(s) + rest =~= bytes_u32(len) + (e + rest));
    assert((e + rest).take(len as int) =~= e);
    assert((e + rest).skip(len as int) =~= rest);
}

/// Appends one byte.
pub fn write_u8(buf: &mut Vec<u8>, v: u8)
    ensures
        final(buf)@ == old(buf)@ + bytes_u8(v),
{
    buf.push(v);
    assert(final(buf)@ =~= old(buf)@ + bytes_u8(v));
}

fn append_bytes(buf: &mut Vec<u8>, bytes: &[u8])
    ensures
        final(buf)@ == old(buf)@ + bytes@,
{
    let n = bytes.len();
    let mut i: usize = 0;
    while i < n
        invariant
            n == bytes@.len(),
            i <= n,
            buf@ == old(buf)@ + bytes@.take(i as int),
        decreases n - i,
    {
        buf.push(bytes[i]);
        assert(bytes@.take(i + 1) =~= bytes@.take(i as int).push(bytes@[i as int]));
        i = i + 1;
    }
    assert(bytes@.take(n as int) =~= bytes@);
}

/// Appends a little-endian `u16`.
pub fn write_u16(buf: &mut Vec<u8>, v: u16)
    ensures
        final(buf)@ == old(buf)@ + bytes_u16(v),
{
    let b = u16_to_le_bytes(v);
    append_bytes(buf, b.as_slice());
}

/// Appends a little-endian `u32`.
pub fn write_u32(buf: &mut Vec<u8>, v: u32)
    ensures
        final(buf)@ == old(buf)@ + bytes_u32(v),
{
    let b = u32_to_le_bytes(v);
    append_bytes(buf, b.as_slice());
}

/// Appends a little-endian `u64`.
pub fn write_u64(buf: &mut Vec<u8>, v: u64)
    ensures
        final(buf)@ == old(buf)@ + bytes_u64(v),
{
    let b = u64_to_le_bytes(v);
    append_bytes(buf, b.as_slice());
}

/// Appends a string: its UTF-8 byte length as a `u32`, then its UTF-8 bytes.
pub fn write_string(buf: &mut Vec<u8>, s: &String)
    ensures
        final(buf)@ == old(buf)@ + bytes_string(s@),
{
    let bytes = s.as_str().as_bytes();
    let len = bytes.len() as u32;
    write_u32(buf, len);
    append_bytes(buf, bytes);
    assert(final(buf)@ =~= old(buf)@ + bytes_string(s@));
}

/// What a reader that starts at `pos` of `buf` gives back, checked against a
/// reading of the bytes from `pos` on.
pub open spec fn read_matches<T>(
    buf: Seq<u8>,
    pos: usize,
    r: Option<(T, usize)>,
    spec: Option<(T, Seq<u8>)>,
) -> bool {
    match spec {
        Some((v, rest)) => r matches Some((w, p)) && w == v && pos <= p <= buf.len() && rest
            == buf.skip(p as int),
        None => r is None,
    }
}

/// Reads one byte at `pos`.
pub fn read_u8(buf: &[u8], pos: usize) -> (r: Option<(u8, usize)>)
    requires
        pos <= buf@.len(),
    ensures
        read_matches(buf@, pos, r, take_u8(buf@.skip(pos as int))),
{
    if pos < buf.len() {
        assert(buf@.skip(pos as int).skip(1) =~= buf@.skip(pos + 1));
        Some((buf[pos], pos + 1))
    } else {
        None
    }
}

/// Reads a little-endian `u16` at `pos`.
pub fn read_u16(buf: &[u8], pos: usize) -> (r: Option<(u16, usize)>)
    requires
        pos <= buf@.len(),
    ensures
        read_matches(buf@, pos, r, take_u16(buf@.skip(pos as int))),
{
    if buf.len() - pos >= 2 {
        let s = vstd::slice::slice_subrange(buf, pos, pos + 2);
        assert(s@ =~= buf@.skip(pos as int).take(2));
        assert(buf@.skip(pos as int).skip(2) =~= buf@.skip(pos + 2));
        Some((u16_from_le_bytes(s), pos + 2))
    } else {
        None
    }
}

/// Reads a little-endian `u32` at `pos`.
pub fn read_u32(buf: &[u8], pos: usize) -> (r: Option<(u32, usize)>)
    requires
        pos <= buf@.len(),
    ensures
        read_matches(buf@, pos, r, take_u32(buf@.skip(pos as int))),
{
    if buf.len() - pos >= 4 {
        let s = vstd::slice::slice_subrange(buf, pos, pos + 4);
        assert(s@ =~= buf@.skip(pos as int).take(4));
        assert(buf@.skip(pos as int).skip(4) =~= buf@.skip(pos + 4));
        Some((u32_from_le_bytes(s), pos + 4))
    } else {
        None
    }
}

/// Reads a little-endian `u64` at `pos`.
pub fn read_u64(buf: &[u8], pos: usize) -> (r: Option<(u64, usize)>)
    requires
        pos <= buf@.len(),
    ensures
        read_matches(buf@, pos, r, take_u64(buf@.skip(pos as int))),
{
    if buf.len() - pos >= 8 {
        let s = vstd::slice::slice_subrange(buf, pos, pos + 8);
        assert(s@ =~= buf@.skip(pos as int).take(8));
        assert(buf@.skip(pos as int).skip(8) =~= buf@.skip(pos + 8));
        Some((u64_from_le_bytes(s), pos + 8))
    } else {
        None
    }
}

/// `String::from_utf8` from std: gives the string whose UTF-8 encoding the
/// bytes are, or nothing when they are not valid UTF-8.
#[verifier::external_body]
fn string_from_utf8(bytes: Vec<u8>) -> (r: Option<String>)
    ensures
        r is Some <==> valid_utf8(bytes@),
        r matches Some(s) ==> s@ == decode_utf8(bytes@),
{
    String::from_utf8(bytes).ok()
}

/// Reads a length-prefixed UTF-8 string at `pos`.
pub fn read_string(buf: &[u8], pos: usize) -> (r: Option<(String, usize)>)
    requires
        pos <= buf@.len(),
    ensures
        match take_string(buf@.skip(pos as int)) {
            Some((v, rest)) => r matches Some((w, p)) && w@ == v && pos <= p <= buf@.len() && rest
                == buf@.skip(p as int),
            None => r is None,
        },
{
    match read_u32(buf, pos) {
        Some((len, p)) => {
            let len = len as usize;
            if buf.len() - p >= len {
                let s = vstd::slice::slice_subrange(buf, p, p + len);
                let ghost r = buf@.skip(p as int);
                assert(s@ =~= r.take(len as int));
                assert(r.skip(len as int) =~= buf@.skip(p + len));
                let v = vstd::slice::slice_to_vec(s);
                match string_from_utf8(v) {
                    Some(st) => Some((st, p + len)),
                    None => None,
                }
            } else {
                None
            }
        },
        None => None,
    }
}

} // verus!
