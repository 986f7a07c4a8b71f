//! The canonical deterministic binary encoding of instruction fields:
//! fixed-width little-endian integers and length-prefixed byte strings,
//! concatenated with no padding and no reordering.

use vstd::bytes::lemma_auto_spec_u32_to_from_le_bytes;
use vstd::bytes::spec_u32_from_le_bytes;
use vstd::bytes::spec_u32_to_le_bytes;
use vstd::bytes::u32_from_le_bytes;
use vstd::bytes::u32_to_le_bytes;
use vstd::prelude::*;
use vstd::slice::slice_subrange;
use vstd::slice::slice_to_vec;

verus! {

/// The encoding of a variable-length byte string: its 32-bit
/// little-endian length, then the bytes themselves.
pub open spec fn length_prefixed(b: Seq<u8>) -> Seq<u8> {
    spec_u32_to_le_bytes(b.len() as u32) + b
}

/// The encoded form is always 4 bytes longer than the payload.
pub proof fn lemma_length_prefixed_len(b: Seq<u8>)
    ensures
        length_prefixed(b).len() == 4 + b.len(),
{
    lemma_auto_spec_u32_to_from_le_bytes();
}

/// Appends the length-prefixed encoding of `b` to `out`, or leaves
/// `out` untouched when the length does not fit its 32-bit prefix.
pub fn push_length_prefixed(out: &mut Vec<u8>, b: &Vec<u8>) -> (ok: bool)
    ensures
        ok <==> b@.len() <= u32::MAX,
        ok ==> final(out)@ == old(out)@ + length_prefixed(b@),
        !ok ==> final(out)@ == old(out)@,
{
    if b.len() > u32::MAX as usize {
        return false;
    }
    let mut len_bytes = u32_to_le_bytes(b.len() as u32);
    out.append(&mut len_bytes);
    let mut payload = slice_to_vec(b.as_slice());
    out.append(&mut payload);
    true
}

/// What reading one length-prefixed byte string at `pos` yields: the
/// string and the position just past it, or nothing when the input is
/// truncated.
pub open spec fn parse_length_prefixed(d: Seq<u8>, pos: int) -> Option<(Seq<u8>, int)> {
    if pos + 4 <= d.len() {
        let n = spec_u32_from_le_bytes(d.subrange(pos, pos + 4)) as int;
        if pos + 4 + n <= d.len() {
            Some((d.subrange(pos + 4, pos + 4 + n), pos + 4 + n))
        } else {
            None
        }
    } else {
        None
    }
}

/// Reads one length-prefixed byte string at `pos`.
pub fn read_length_prefixed(d: &Vec<u8>, pos: usize) -> (r: Option<(Vec<u8>, usize)>)
    requires
        pos <= d@.len(),
    ensures
        match r {
            Some(p) => parse_length_prefixed(d@, pos as int) == Some((p.0@, p.1 as int)),
            None => parse_length_prefixed(d@, pos as int) is None,
        },
{
    proof {
        lemma_auto_spec_u32_to_from_le_bytes();
    }
    if d.len() - pos < 4 {
        return None;
    }
    let len_slice = slice_subrange(d.as_slice(), pos, pos + 4);
    let n = u32_from_le_bytes(len_slice) as usize;
    if d.len() - pos - 4 < n {
        return None;
    }
    let body = slice_subrange(d.as_slice(), pos + 4, pos + 4 + n);
    Some((slice_to_vec(body), pos + 4 + n))
}

/// Relies on `String::from_utf8` of std: it returns the string whose
/// byte encoding is exactly the given bytes when they are valid, and
/// refuses them otherwise.
#[verifier::external_body]
pub fn string_from_utf8(bytes: Vec<u8>) -> (r: Option<String>)
    ensures
        match r {
            Some(s) => vstd::utf8::valid_utf8(bytes@) && s@ == vstd::utf8::decode_utf8(bytes@),
            None => !vstd::utf8::valid_utf8(bytes@),
        },
{
    match String::from_utf8(bytes) {
        Ok(s) => Some(s),
        Err(_) => None,
    }
}

/// Reading a length-prefixed string back out of a larger buffer
/// recovers exactly the string that was encoded, and leaves the read
/// position just past it.
pub proof fn lemma_parse_length_prefixed(prefix: Seq<u8>, b: Seq<u8>, rest: Seq<u8>)
    requires
        b.len() <= u32::MAX,
    ensures
        parse_length_prefixed(prefix + length_prefixed(b) + rest, prefix.len() as int) == Some(
            (b, prefix.len() as int + 4 + b.len() as int),
        ),
{
    lemma_auto_spec_u32_to_from_le_bytes();
    let d = prefix + length_prefixed(b) + rest;
    let pos = prefix.len() as int;
    assert(d.subrange(pos, pos + 4) =~= spec_u32_to_le_bytes(b.len() as u32));
    assert(spec_u32_from_le_bytes(d.subrange(pos, pos + 4)) == b.len() as u32);
    assert(d.subrange(pos + 4, pos + 4 + b.len()) =~= b);
}

} // verus!
