//! Little-endian fixed-width integer encoding.
//!
//! All multi-byte integers in persisted records are little-endian and
//! fixed-width.  Unsigned 64-bit encoding comes from `vstd::bytes`; signed
//! 64-bit values are carried through their two's-complement unsigned image.

use vstd::prelude::*;
use vstd::bytes::{
    spec_u64_from_le_bytes, spec_u64_to_le_bytes, u64_from_le_bytes, u64_to_le_bytes,
    lemma_auto_spec_u64_to_from_le_bytes,
};
use vstd::slice::{slice_index_get, slice_subrange, slice_to_vec};

verus! {

/// The two's-complement unsigned image of a signed 64-bit value.
pub open spec fn spec_u64_of_i64(t: i64) -> u64 {
    if t >= 0 {
        t as u64
    } else {
        (t + 0x1_0000_0000_0000_0000) as u64
    }
}

/// The signed reading of an unsigned 64-bit two's-complement image.
pub open spec fn spec_i64_of_u64(u: u64) -> i64 {
    if u < 0x8000_0000_0000_0000 {
        u as i64
    } else {
        (u - 0x1_0000_0000_0000_0000) as i64
    }
}

/// The signed and unsigned 64-bit readings invert each other.
pub proof fn lemma_i64_u64_inverse()
    ensures
        forall|t: i64| #[trigger] spec_i64_of_u64(spec_u64_of_i64(t)) == t,
        forall|u: u64| #[trigger] spec_u64_of_i64(spec_i64_of_u64(u)) == u,
{
}

/// Little-endian bytes of a signed 64-bit value.
pub open spec fn spec_i64_to_le_bytes(t: i64) -> Seq<u8> {
    spec_u64_to_le_bytes(spec_u64_of_i64(t))
}

/// Signed 64-bit value read from 8 little-endian bytes.
pub open spec fn spec_i64_from_le_bytes(s: Seq<u8>) -> i64
    recommends
        s.len() == 8,
{
    spec_i64_of_u64(spec_u64_from_le_bytes(s))
}

/// Encoding then decoding a signed 64-bit value gives it back, and the
/// encoding is 8 bytes long.
pub proof fn lemma_auto_i64_le_bytes()
    ensures
        forall|t: i64|
            #![trigger spec_i64_to_le_bytes(t)]
            {
                &&& spec_i64_to_le_bytes(t).len() == 8
                &&& spec_i64_from_le_bytes(spec_i64_to_le_bytes(t)) == t
            },
{
    lemma_auto_spec_u64_to_from_le_bytes();
    lemma_i64_u64_inverse();
}

/// Converts a signed 64-bit value to its unsigned two's-complement image.
pub fn i64_to_u64(t: i64) -> (u: u64)
    ensures
        u == spec_u64_of_i64(t),
{
    if t >= 0 {
        t as u64
    } else {
        let d: i64 = (t + i64::MAX) + 1;
        (d as u64) + 0x8000_0000_0000_0000u64
    }
}

/// Converts an unsigned two's-complement image back to its signed value.
pub fn u64_to_i64(u: u64) -> (t: i64)
    ensures
        t == spec_i64_of_u64(u),
{
    if u < 0x8000_0000_0000_0000u64 {
        u as i64
    } else {
        let d: u64 = u - 0x8000_0000_0000_0000u64;
        ((d as i64) - i64::MAX) - 1
    }
}

/// Reads the byte at position `i`.
pub fn read_u8_at(src: &[u8], i: usize) -> (x: u8)
    requires
        i < src@.len(),
    ensures
        x == src@[i as int],
{
    *slice_index_get(src, i)
}

/// Reads an unsigned 64-bit little-endian value at position `i`.
pub fn read_u64_at(src: &[u8], i: usize) -> (x: u64)
    requires
        i + 8 <= src@.len(),
    ensures
        x == spec_u64_from_le_bytes(src@.subrange(i as int, i + 8)),
{
    let total: usize = src.len();
    proof {
        assert(i + 8 <= total);
    }
    let part = slice_subrange(src, i, i + 8);
    u64_from_le_bytes(part)
}

/// Reads a signed 64-bit little-endian value at position `i`.
pub fn read_i64_at(src: &[u8], i: usize) -> (x: i64)
    requires
        i + 8 <= src@.len(),
    ensures
        x == spec_i64_from_le_bytes(src@.subrange(i as int, i + 8)),
{
    u64_to_i64(read_u64_at(src, i))
}

/// Copies `n` bytes starting at position `i` into a fresh vector.
pub fn read_bytes_at(src: &[u8], i: usize, n: usize) -> (out: Vec<u8>)
    requires
        i + n <= src@.len(),
    ensures
        out@ == src@.subrange(i as int, i + n),
{
    let total: usize = src.len();
    proof {
        assert(i + n <= total);
    }
    slice_to_vec(slice_subrange(src, i, i + n))
}

/// Appends one byte.
pub fn push_u8(out: &mut Vec<u8>, x: u8)
    ensures
        final(out)@ == old(out)@.push(x),
{
    out.push(x);
}

/// Appends the 8 little-endian bytes of an unsigned 64-bit value.
pub fn push_u64(out: &mut Vec<u8>, x: u64)
    ensures
        final(out)@ == old(out)@ + spec_u64_to_le_bytes(x),
{
    let mut part = u64_to_le_bytes(x);
    out.append(&mut part);
}

/// Appends the 8 little-endian bytes of a signed 64-bit value.
pub fn push_i64(out: &mut Vec<u8>, x: i64)
    ensures
        final(out)@ == old(out)@ + spec_i64_to_le_bytes(x),
{
    push_u64(out, i64_to_u64(x));
}

/// Appends a copy of the given bytes.
pub fn push_bytes(out: &mut Vec<u8>, bytes: &Vec<u8>)
    ensures
        final(out)@ == old(out)@ + bytes@,
{
    out.extend_from_slice(bytes.as_slice());
    proof {
        assert(out@ =~= old(out)@ + bytes@);
    }
}

} // verus!
