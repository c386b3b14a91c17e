//! The private-client queue: a header and fixed-width client slots, each
//! vacant when never written or past its expiration time.

use vstd::bytes::*;
use vstd::prelude::*;

use crate::codec::{
    lemma_auto_spec_i64_to_from_le_bytes, lemma_subrange_of_concat_left,
    lemma_subrange_of_concat_right, put_i64, put_u16, put_u32, put_u64, put_u8, read_i64,
    read_u16, read_u32, read_u64, read_u8, spec_i64_from_le_bytes, spec_i64_to_le_bytes,
};
use crate::errors::DeriverseErrorKind;
use crate::types::{AccountType, Address, Discriminator};


verus! {

broadcast use lemma_subrange_of_concat_left, lemma_subrange_of_concat_right;

/// Private Client Header.
#[derive(Clone, Copy, Debug, PartialEq)]
pub struct PrivateClientHeader {
    pub discriminator: Discriminator,
}

pub const PRIVATE_CLIENT_HEADER_SIZE: usize = 8;

impl PrivateClientHeader {
    /// The `PrivateClientHeader` image that starts at byte offset `off` of a buffer.
    pub open spec fn wire_at(b: Seq<u8>, off: int) -> PrivateClientHeader {
        PrivateClientHeader {
            discriminator: Discriminator::wire_at(b, off),
        }
    }

    pub fn read_at(b: &[u8], off: usize) -> (r: PrivateClientHeader)
        requires
            off + PRIVATE_CLIENT_HEADER_SIZE <= b@.len(),
        ensures
            r == Self::wire_at(b@, off as int),
    {
        let n = b.len();
        assert(off + 8 <= n);
        PrivateClientHeader {
            discriminator: Discriminator::read_at(b, off),
        }
    }

    pub fn write(&self, out: &mut Vec<u8>)
        ensures
            final(out)@.len() == old(out)@.len() + PRIVATE_CLIENT_HEADER_SIZE,
            final(out)@.subrange(0, old(out)@.len() as int) == old(out)@,
            Self::wire_at(final(out)@, old(out)@.len() as int) == *self,
    {
        let ghost base = out@;
        put_u32(out, self.discriminator.tag.0);
        put_u32(out, self.discriminator.version.0);
        proof {
            lemma_auto_spec_u16_to_from_le_bytes();
            lemma_auto_spec_u32_to_from_le_bytes();
            lemma_auto_spec_u64_to_from_le_bytes();
            lemma_auto_spec_i64_to_from_le_bytes();
            assert(out@ == base + spec_u32_to_le_bytes(self.discriminator.tag.0) + spec_u32_to_le_bytes(self.discriminator.version.0));
            assert(out@.subrange(base.len() as int, base.len() as int + 4) =~= spec_u32_to_le_bytes(self.discriminator.tag.0));
            assert(out@.subrange(base.len() as int + 4, base.len() as int + 8) =~= spec_u32_to_le_bytes(self.discriminator.version.0));
            assert(out@.subrange(0, base.len() as int) =~= base);
            assert(Self::wire_at(out@, base.len() as int) == *self);
        }
    }

    pub fn encode(&self) -> (r: Vec<u8>)
        ensures
            r@.len() == PRIVATE_CLIENT_HEADER_SIZE,
            Self::wire_at(r@, 0) == *self,
    {
        let mut out: Vec<u8> = Vec::new();
        self.write(&mut out);
        out
    }

    /// Re-validates the stored discriminator before any other field of
    /// the buffer may be trusted: the buffer must be long enough, carry
    /// the expected account tag, and carry the expected schema version.
    pub fn load(b: &[u8], address: &Address, expected_version: u32) -> (r: Result<Self, DeriverseErrorKind>)
        ensures
            ({
                let d = Discriminator::wire_at(b@, 0);
                if b@.len() < PRIVATE_CLIENT_HEADER_SIZE {
                    r == Err::<Self, DeriverseErrorKind>(DeriverseErrorKind::InvalidAccountSize { address: *address, account_type: AccountType::PrivateClients, expected: PRIVATE_CLIENT_HEADER_SIZE, actual: b@.len() as usize })
                } else if d.tag.0 != AccountType::PrivateClients.spec_as_tag() {
                    r == Err::<Self, DeriverseErrorKind>(DeriverseErrorKind::InvalidAccountTag { expected_account_type: AccountType::PrivateClients, actual_tag: d.tag.0, address: *address })
                } else if d.version.0 != expected_version {
                    r == Err::<Self, DeriverseErrorKind>(DeriverseErrorKind::InvalidVersion { address: *address, account_type: AccountType::PrivateClients, expected: expected_version, actual: d.version.0 })
                } else {
                    r == Ok::<Self, DeriverseErrorKind>(Self::wire_at(b@, 0))
                }
            }),
    {
        if b.len() < PRIVATE_CLIENT_HEADER_SIZE {
            return Err(DeriverseErrorKind::InvalidAccountSize { address: *address, account_type: AccountType::PrivateClients, expected: PRIVATE_CLIENT_HEADER_SIZE, actual: b.len() });
        }
        let d = Discriminator::read_at(b, 0);
        let tag = AccountType::PrivateClients.as_tag();
        if d.tag.0 != tag {
            return Err(DeriverseErrorKind::InvalidAccountTag { expected_account_type: AccountType::PrivateClients, actual_tag: d.tag.0, address: *address });
        }
        if d.version.0 != expected_version {
            return Err(DeriverseErrorKind::InvalidVersion { address: *address, account_type: AccountType::PrivateClients, expected: expected_version, actual: d.version.0 });
        }
        Ok(Self::read_at(b, 0))
    }
}

/// One queued private client.
#[derive(Clone, Copy, Debug)]
pub struct PrivateClient {
    pub creation_time: u32,
    pub expiration_time: u32,
    pub wallet: Address,
}

pub const PRIVATE_CLIENT_SIZE: usize = 40;

impl PrivateClient {
    /// Whether this value is exactly what the `PrivateClient` image that starts
    /// at byte offset `off` of the buffer holds.
    pub open spec fn matches_wire(self, b: Seq<u8>, off: int) -> bool {
        &&& self.creation_time == spec_u32_from_le_bytes(b.subrange(off, off + 4))
        &&& self.expiration_time == spec_u32_from_le_bytes(b.subrange(off + 4, off + 8))
        &&& self.wallet.0@ == b.subrange(off + 8, off + 40)
    }

    pub fn read_at(b: &[u8], off: usize) -> (r: PrivateClient)
        requires
            off + PRIVATE_CLIENT_SIZE <= b@.len(),
        ensures
            r.matches_wire(b@, off as int),
    {
        let n = b.len();
        assert(off + 40 <= n);
        PrivateClient {
            creation_time: read_u32(b, off),
            expiration_time: read_u32(b, off + 4),
            wallet: Address::read_at(b, off + 8),
        }
    }

    pub fn write(&self, out: &mut Vec<u8>)
        ensures
            final(out)@.len() == old(out)@.len() + PRIVATE_CLIENT_SIZE,
            final(out)@.subrange(0, old(out)@.len() as int) == old(out)@,
            self.matches_wire(final(out)@, old(out)@.len() as int),
    {
        let ghost base = out@;
        put_u32(out, self.creation_time);
        put_u32(out, self.expiration_time);
        self.wallet.write(out);
        proof {
            lemma_auto_spec_u16_to_from_le_bytes();
            lemma_auto_spec_u32_to_from_le_bytes();
            lemma_auto_spec_u64_to_from_le_bytes();
            lemma_auto_spec_i64_to_from_le_bytes();
            assert(out@ == base + spec_u32_to_le_bytes(self.creation_time) + spec_u32_to_le_bytes(self.expiration_time) + self.wallet.0@);
            assert(out@.subrange(base.len() as int, base.len() as int + 4) =~= spec_u32_to_le_bytes(self.creation_time));
            assert(out@.subrange(base.len() as int + 4, base.len() as int + 8) =~= spec_u32_to_le_bytes(self.expiration_time));
            assert(out@.subrange(base.len() as int + 8, base.len() as int + 40) =~= self.wallet.0@);
            assert(out@.subrange(0, base.len() as int) =~= base);
            assert(self.matches_wire(out@, base.len() as int));
        }
    }

    pub fn encode(&self) -> (r: Vec<u8>)
        ensures
            r@.len() == PRIVATE_CLIENT_SIZE,
            self.matches_wire(r@, 0),
    {
        let mut out: Vec<u8> = Vec::new();
        self.write(&mut out);
        out
    }

    /// A slot is vacant when it was never written or its reservation has
    /// expired.
    pub fn is_vacant(&self, current_time: u32) -> (r: bool)
        ensures
            r == (self.creation_time == 0 || current_time > self.expiration_time),
    {
        self.creation_time == 0 || current_time > self.expiration_time
    }
}

} // verus!
