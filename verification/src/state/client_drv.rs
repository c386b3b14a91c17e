//! The client DRV account header.

use vstd::bytes::*;
use vstd::prelude::*;

use crate::codec::{
    lemma_auto_spec_i64_to_from_le_bytes, lemma_subrange_of_concat_left,
    lemma_subrange_of_concat_right, put_i64, put_u16, put_u32, put_u64, put_u8, read_i64,
    read_u16, read_u32, read_u64, read_u8, spec_i64_from_le_bytes, spec_i64_to_le_bytes,
};
use crate::ids::ClientId;
use crate::types::Discriminator;


verus! {

broadcast use lemma_subrange_of_concat_left, lemma_subrange_of_concat_right;

/// Client DRV Account Header.
#[derive(Clone, Copy, Debug, PartialEq)]
pub struct ClientDrvAccountHeader {
    pub discriminator: Discriminator,
    pub id: ClientId,
    pub count: u32,
    pub slot: u32,
    pub reserved: u32,
}

pub const CLIENT_DRV_ACCOUNT_HEADER_SIZE: usize = 24;

impl ClientDrvAccountHeader {
    /// The `ClientDrvAccountHeader` image that starts at byte offset `off` of a buffer.
    pub open spec fn wire_at(b: Seq<u8>, off: int) -> ClientDrvAccountHeader {
        ClientDrvAccountHeader {
            discriminator: Discriminator::wire_at(b, off),
            id: ClientId(spec_u32_from_le_bytes(b.subrange(off + 8, off + 12))),
            count: spec_u32_from_le_bytes(b.subrange(off + 12, off + 16)),
            slot: spec_u32_from_le_bytes(b.subrange(off + 16, off + 20)),
            reserved: spec_u32_from_le_bytes(b.subrange(off + 20, off + 24)),
        }
    }

    pub fn read_at(b: &[u8], off: usize) -> (r: ClientDrvAccountHeader)
        requires
            off + CLIENT_DRV_ACCOUNT_HEADER_SIZE <= b@.len(),
        ensures
            r == Self::wire_at(b@, off as int),
    {
        let n = b.len();
        assert(off + 24 <= n);
        ClientDrvAccountHeader {
            discriminator: Discriminator::read_at(b, off),
            id: ClientId(read_u32(b, off + 8)),
            count: read_u32(b, off + 12),
            slot: read_u32(b, off + 16),
            reserved: read_u32(b, off + 20),
        }
    }

    pub fn write(&self, out: &mut Vec<u8>)
        ensures
            final(out)@.len() == old(out)@.len() + CLIENT_DRV_ACCOUNT_HEADER_SIZE,
            final(out)@.subrange(0, old(out)@.len() as int) == old(out)@,
            Self::wire_at(final(out)@, old(out)@.len() as int) == *self,
    {
        let ghost base = out@;
        put_u32(out, self.discriminator.tag.0);
        put_u32(out, self.discriminator.version.0);
        put_u32(out, self.id.0);
        put_u32(out, self.count);
        put_u32(out, self.slot);
        put_u32(out, self.reserved);
        proof {
            lemma_auto_spec_u16_to_from_le_bytes();
            lemma_auto_spec_u32_to_from_le_bytes();
            lemma_auto_spec_u64_to_from_le_bytes();
            lemma_auto_spec_i64_to_from_le_bytes();
            assert(out@ == base + spec_u32_to_le_bytes(self.discriminator.tag.0) + spec_u32_to_le_bytes(self.discriminator.version.0) + spec_u32_to_le_bytes(self.id.0) + spec_u32_to_le_bytes(self.count) + spec_u32_to_le_bytes(self.slot) + spec_u32_to_le_bytes(self.reserved));
            assert(out@.subrange(base.len() as int, base.len() as int + 4) =~= spec_u32_to_le_bytes(self.discriminator.tag.0));
            assert(out@.subrange(base.len() as int + 4, base.len() as int + 8) =~= spec_u32_to_le_bytes(self.discriminator.version.0));
            assert(out@.subrange(base.len() as int + 8, base.len() as int + 12) =~= spec_u32_to_le_bytes(self.id.0));
            assert(out@.subrange(base.len() as int + 12, base.len() as int + 16) =~= spec_u32_to_le_bytes(self.count));
            assert(out@.subrange(base.len() as int + 16, base.len() as int + 20) =~= spec_u32_to_le_bytes(self.slot));
            assert(out@.subrange(base.len() as int + 20, base.len() as int + 24) =~= spec_u32_to_le_bytes(self.reserved));
            assert(out@.subrange(0, base.len() as int) =~= base);
            assert(Self::wire_at(out@, base.len() as int) == *self);
        }
    }

    pub fn encode(&self) -> (r: Vec<u8>)
        ensures
            r@.len() == CLIENT_DRV_ACCOUNT_HEADER_SIZE,
            Self::wire_at(r@, 0) == *self,
    {
        let mut out: Vec<u8> = Vec::new();
        self.write(&mut out);
        out
    }
}

} // verus!
