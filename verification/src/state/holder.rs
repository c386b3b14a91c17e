//! The holder account header: the operator count, ahead of the operator
//! slots.

use vstd::bytes::*;
use vstd::prelude::*;

use crate::codec::{
    lemma_auto_spec_i64_to_from_le_bytes, lemma_subrange_of_concat_left,
    lemma_subrange_of_concat_right, put_i64, put_u16, put_u32, put_u64, put_u8, read_i64,
    read_u16, read_u32, read_u64, read_u8, spec_i64_from_le_bytes, spec_i64_to_le_bytes,
};


verus! {

broadcast use lemma_subrange_of_concat_left, lemma_subrange_of_concat_right;

/// Holder Account Header: the account tag and the number of operator
/// slots that follow it.
#[derive(Clone, Copy, Debug, PartialEq)]
pub struct HolderAccountHeader {
    pub tag: u32,
    pub operators_count: u32,
}

pub const HOLDER_ACCOUNT_HEADER_SIZE: usize = 8;

impl HolderAccountHeader {
    /// The `HolderAccountHeader` image that starts at byte offset `off` of a buffer.
    pub open spec fn wire_at(b: Seq<u8>, off: int) -> HolderAccountHeader {
        HolderAccountHeader {
            tag: spec_u32_from_le_bytes(b.subrange(off, off + 4)),
            operators_count: spec_u32_from_le_bytes(b.subrange(off + 4, off + 8)),
        }
    }

    pub fn read_at(b: &[u8], off: usize) -> (r: HolderAccountHeader)
        requires
            off + HOLDER_ACCOUNT_HEADER_SIZE <= b@.len(),
        ensures
            r == Self::wire_at(b@, off as int),
    {
        let n = b.len();
        assert(off + 8 <= n);
        HolderAccountHeader {
            tag: read_u32(b, off),
            operators_count: read_u32(b, off + 4),
        }
    }

    pub fn write(&self, out: &mut Vec<u8>)
        ensures
            final(out)@.len() == old(out)@.len() + HOLDER_ACCOUNT_HEADER_SIZE,
            final(out)@.subrange(0, old(out)@.len() as int) == old(out)@,
            Self::wire_at(final(out)@, old(out)@.len() as int) == *self,
    {
        let ghost base = out@;
        put_u32(out, self.tag);
        put_u32(out, self.operators_count);
        proof {
            lemma_auto_spec_u16_to_from_le_bytes();
            lemma_auto_spec_u32_to_from_le_bytes();
            lemma_auto_spec_u64_to_from_le_bytes();
            lemma_auto_spec_i64_to_from_le_bytes();
            assert(out@ == base + spec_u32_to_le_bytes(self.tag) + spec_u32_to_le_bytes(self.operators_count));
            assert(out@.subrange(base.len() as int, base.len() as int + 4) =~= spec_u32_to_le_bytes(self.tag));
            assert(out@.subrange(base.len() as int + 4, base.len() as int + 8) =~= spec_u32_to_le_bytes(self.operators_count));
            assert(out@.subrange(0, base.len() as int) =~= base);
            assert(Self::wire_at(out@, base.len() as int) == *self);
        }
    }

    pub fn encode(&self) -> (r: Vec<u8>)
        ensures
            r@.len() == HOLDER_ACCOUNT_HEADER_SIZE,
            Self::wire_at(r@, 0) == *self,
    {
        let mut out: Vec<u8> = Vec::new();
        self.write(&mut out);
        out
    }
}

} // verus!
