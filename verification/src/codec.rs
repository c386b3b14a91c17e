//! Little-endian field codec.
//!
//! Account buffers and instruction payloads are flat `repr(C)`-style byte
//! images with no implicit padding: every field is a little-endian integer at
//! a fixed offset.  The helpers here read one field out of a byte slice and
//! append one field to a byte vector, each pinned to the `vstd::bytes`
//! little-endian specs so that struct-level decoders and encoders can state
//! exact round-trip contracts.

use vstd::bytes::*;
use vstd::prelude::*;

verus! {

/// Little-endian image of a signed 64-bit field: the two's-complement bit
/// pattern, encoded as the corresponding unsigned value.
pub open spec fn spec_i64_to_le_bytes(x: i64) -> Seq<u8> {
    spec_u64_to_le_bytes(x as u64)
}

/// Signed 64-bit value read back from its little-endian two's-complement image.
pub open spec fn spec_i64_from_le_bytes(s: Seq<u8>) -> i64 {
    spec_u64_from_le_bytes(s) as i64
}

pub proof fn lemma_auto_spec_i64_to_from_le_bytes()
    ensures
        forall|x: i64|
            {
                &&& (#[trigger] spec_i64_to_le_bytes(x)).len() == 8
                &&& spec_i64_from_le_bytes(spec_i64_to_le_bytes(x)) == x
            },
{
    lemma_auto_spec_u64_to_from_le_bytes();
    assert(forall|x: i64| #[trigger] ((x as u64) as i64) == x) by (bit_vector);
    assert forall|x: i64|
        {
            &&& (#[trigger] spec_i64_to_le_bytes(x)).len() == 8
            &&& spec_i64_from_le_bytes(spec_i64_to_le_bytes(x)) == x
        } by {
        assert(spec_u64_from_le_bytes(spec_u64_to_le_bytes(x as u64)) == x as u64);
        assert(((x as u64) as i64) == x);
    };
}

pub fn read_u8(b: &[u8], off: usize) -> (r: u8)
    requires
        off < b@.len(),
    ensures
        r == b@[off as int],
{
    b[off]
}

pub fn read_u16(b: &[u8], off: usize) -> (r: u16)
    requires
        off + 2 <= b@.len(),
    ensures
        r == spec_u16_from_le_bytes(b@.subrange(off as int, off as int + 2)),
{
    let n = b.len();
    assert(off + 2 <= n);
    u16_from_le_bytes(&b[off..off + 2])
}

pub fn read_u32(b: &[u8], off: usize) -> (r: u32)
    requires
        off + 4 <= b@.len(),
    ensures
        r == spec_u32_from_le_bytes(b@.subrange(off as int, off as int + 4)),
{
    let n = b.len();
    assert(off + 4 <= n);
    u32_from_le_bytes(&b[off..off + 4])
}

pub fn read_u64(b: &[u8], off: usize) -> (r: u64)
    requires
        off + 8 <= b@.len(),
    ensures
        r == spec_u64_from_le_bytes(b@.subrange(off as int, off as int + 8)),
{
    let n = b.len();
    assert(off + 8 <= n);
    u64_from_le_bytes(&b[off..off + 8])
}

pub fn read_i64(b: &[u8], off: usize) -> (r: i64)
    requires
        off + 8 <= b@.len(),
    ensures
        r == spec_i64_from_le_bytes(b@.subrange(off as int, off as int + 8)),
{
    #[verifier::truncate] (read_u64(b, off) as i64)
}

pub fn put_u8(out: &mut Vec<u8>, x: u8)
    ensures
        final(out)@ == old(out)@ + seq![x],
{
    out.push(x);
    assert(final(out)@ =~= old(out)@ + seq![x]);
}

pub fn put_u16(out: &mut Vec<u8>, x: u16)
    ensures
        final(out)@ == old(out)@ + spec_u16_to_le_bytes(x),
{
    let mut t = u16_to_le_bytes(x);
    out.append(&mut t);
}

pub fn put_u32(out: &mut Vec<u8>, x: u32)
    ensures
        final(out)@ == old(out)@ + spec_u32_to_le_bytes(x),
{
    let mut t = u32_to_le_bytes(x);
    out.append(&mut t);
}

pub fn put_u64(out: &mut Vec<u8>, x: u64)
    ensures
        final(out)@ == old(out)@ + spec_u64_to_le_bytes(x),
{
    let mut t = u64_to_le_bytes(x);
    out.append(&mut t);
}

pub fn put_i64(out: &mut Vec<u8>, x: i64)
    ensures
        final(out)@ == old(out)@ + spec_i64_to_le_bytes(x),
{
    put_u64(out, #[verifier::truncate] (x as u64));
}

/// Taking a subrange that lies inside the left operand of a concatenation
/// ignores the right operand.
pub broadcast proof fn lemma_subrange_of_concat_left(a: Seq<u8>, b: Seq<u8>, i: int, j: int)
    requires
        0 <= i <= j <= a.len(),
    ensures
        #[trigger] (a + b).subrange(i, j) == a.subrange(i, j),
{
    assert((a + b).subrange(i, j) =~= a.subrange(i, j));
}

/// The subrange that covers exactly the right operand of a concatenation is
/// that operand.
pub broadcast proof fn lemma_subrange_of_concat_right(a: Seq<u8>, b: Seq<u8>, i: int, j: int)
    requires
        i == a.len(),
        j == a.len() + b.len(),
    ensures
        #[trigger] (a + b).subrange(i, j) == b,
{
    assert((a + b).subrange(i, j) =~= b);
}

} // verus!
