//! The PDF account header.

use vstd::bytes::*;
use vstd::prelude::*;

use crate::codec::{
    lemma_auto_spec_i64_to_from_le_bytes, lemma_subrange_of_concat_left,
    lemma_subrange_of_concat_right, put_i64, put_u16, put_u32, put_u64, put_u8, read_i64,
    read_u16, read_u32, read_u64, read_u8, spec_i64_from_le_bytes, spec_i64_to_le_bytes,
};
use crate::ids::Version;


verus! {

broadcast use lemma_subrange_of_concat_left, lemma_subrange_of_concat_right;

/// PDF Account Header.
#[derive(Clone, Copy, Debug, PartialEq)]
pub struct PdfAccountHeader {
    pub tag: u32,
    pub version: Version,
}

pub const PDF_ACCOUNT_HEADER_SIZE: usize = 8;

impl PdfAccountHeader {
    /// The `PdfAccountHeader` image that starts at byte offset `off` of a buffer.
    pub open spec fn wire_at(b: Seq<u8>, off: int) -> PdfAccountHeader {
        PdfAccountHeader {
            tag: spec_u32_from_le_bytes(b.subrange(off, off + 4)),
            version: Version(spec_u32_from_le_bytes(b.subrange(off + 4, off + 8))),
        }
    }

    pub fn read_at(b: &[u8], off: usize) -> (r: PdfAccountHeader)
        requires
            off + PDF_ACCOUNT_HEADER_SIZE <= b@.len(),
        ensures
            r == Self::wire_at(b@, off as int),
    {
        let n = b.len();
        assert(off + 8 <= n);
        PdfAccountHeader {
            tag: read_u32(b, off),
            version: Version(read_u32(b, off + 4)),
        }
    }

    pub fn write(&self, out: &mut Vec<u8>)
        ensures
            final(out)@.len() == old(out)@.len() + PDF_ACCOUNT_HEADER_SIZE,
            final(out)@.subrange(0, old(out)@.len() as int) == old(out)@,
            Self::wire_at(final(out)@, old(out)@.len() as int) == *self,
    {
        let ghost base = out@;
        put_u32(out, self.tag);
        put_u32(out, self.version.0);
        proof {
            lemma_auto_spec_u16_to_from_le_bytes();
            lemma_auto_spec_u32_to_from_le_bytes();
            lemma_auto_spec_u64_to_from_le_bytes();
            lemma_auto_spec_i64_to_from_le_bytes();
            assert(out@ == base + spec_u32_to_le_bytes(self.tag) + spec_u32_to_le_bytes(self.version.0));
            assert(out@.subrange(base.len() as int, base.len() as int + 4) =~= spec_u32_to_le_bytes(self.tag));
            assert(out@.subrange(base.len() as int + 4, base.len() as int + 8) =~= spec_u32_to_le_bytes(self.version.0));
            assert(out@.subrange(0, base.len() as int) =~= base);
            assert(Self::wire_at(out@, base.len() as int) == *self);
        }
    }

    pub fn encode(&self) -> (r: Vec<u8>)
        ensures
            r@.len() == PDF_ACCOUNT_HEADER_SIZE,
            Self::wire_at(r@, 0) == *self,
    {
        let mut out: Vec<u8> = Vec::new();
        self.write(&mut out);
        out
    }
}

} // verus!
