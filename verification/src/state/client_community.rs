//! The client community account: voting participation and the per-currency
//! community records of one client.

use vstd::bytes::*;
use vstd::prelude::*;

use crate::codec::{
    lemma_auto_spec_i64_to_from_le_bytes, lemma_subrange_of_concat_left,
    lemma_subrange_of_concat_right, put_i64, put_u16, put_u32, put_u64, put_u8, read_i64,
    read_u16, read_u32, read_u64, read_u8, spec_i64_from_le_bytes, spec_i64_to_le_bytes,
};
use crate::errors::DeriverseErrorKind;
use crate::ids::ClientId;
use crate::types::{AccountType, Address, Discriminator};


verus! {

broadcast use lemma_subrange_of_concat_left, lemma_subrange_of_concat_right;

/// Community information record of one client for one currency.  The
/// dividend rate and fees ratio are binary64 parameters of the host-side
/// arithmetic, carried as raw bit patterns.
#[derive(Clone, Copy, Debug, PartialEq)]
pub struct ClientCommunityRecord {
    pub dividends_rate: u64,
    pub dividends_value: i64,
    pub fees_prepayment: i64,
    pub fees_ratio: u64,
    pub ref_rewards: i64,
    pub ref_payments: i64,
    pub last_fees_prepayment_time: u32,
    pub crncy_token_id: u32,
}

pub const CLIENT_COMMUNITY_RECORD_SIZE: usize = 56;

impl ClientCommunityRecord {
    /// The `ClientCommunityRecord` image that starts at byte offset `off` of a buffer.
    pub open spec fn wire_at(b: Seq<u8>, off: int) -> ClientCommunityRecord {
        ClientCommunityRecord {
            dividends_rate: spec_u64_from_le_bytes(b.subrange(off, off + 8)),
            dividends_value: spec_i64_from_le_bytes(b.subrange(off + 8, off + 16)),
            fees_prepayment: spec_i64_from_le_bytes(b.subrange(off + 16, off + 24)),
            fees_ratio: spec_u64_from_le_bytes(b.subrange(off + 24, off + 32)),
            ref_rewards: spec_i64_from_le_bytes(b.subrange(off + 32, off + 40)),
            ref_payments: spec_i64_from_le_bytes(b.subrange(off + 40, off + 48)),
            last_fees_prepayment_time: spec_u32_from_le_bytes(b.subrange(off + 48, off + 52)),
            crncy_token_id: spec_u32_from_le_bytes(b.subrange(off + 52, off + 56)),
        }
    }

    pub fn read_at(b: &[u8], off: usize) -> (r: ClientCommunityRecord)
        requires
            off + CLIENT_COMMUNITY_RECORD_SIZE <= b@.len(),
        ensures
            r == Self::wire_at(b@, off as int),
    {
        let n = b.len();
        assert(off + 56 <= n);
        ClientCommunityRecord {
            dividends_rate: read_u64(b, off),
            dividends_value: read_i64(b, off + 8),
            fees_prepayment: read_i64(b, off + 16),
            fees_ratio: read_u64(b, off + 24),
            ref_rewards: read_i64(b, off + 32),
            ref_payments: read_i64(b, off + 40),
            last_fees_prepayment_time: read_u32(b, off + 48),
            crncy_token_id: read_u32(b, off + 52),
        }
    }

    pub fn write(&self, out: &mut Vec<u8>)
        ensures
            final(out)@.len() == old(out)@.len() + CLIENT_COMMUNITY_RECORD_SIZE,
            final(out)@.subrange(0, old(out)@.len() as int) == old(out)@,
            Self::wire_at(final(out)@, old(out)@.len() as int) == *self,
    {
        let ghost base = out@;
        put_u64(out, self.dividends_rate);
        put_i64(out, self.dividends_value);
        put_i64(out, self.fees_prepayment);
        put_u64(out, self.fees_ratio);
        put_i64(out, self.ref_rewards);
        put_i64(out, self.ref_payments);
        put_u32(out, self.last_fees_prepayment_time);
        put_u32(out, self.crncy_token_id);
        proof {
            lemma_auto_spec_u16_to_from_le_bytes();
            lemma_auto_spec_u32_to_from_le_bytes();
            lemma_auto_spec_u64_to_from_le_bytes();
            lemma_auto_spec_i64_to_from_le_bytes();
            assert(out@ == base + spec_u64_to_le_bytes(self.dividends_rate) + spec_i64_to_le_bytes(self.dividends_value) + spec_i64_to_le_bytes(self.fees_prepayment) + spec_u64_to_le_bytes(self.fees_ratio) + spec_i64_to_le_bytes(self.ref_rewards) + spec_i64_to_le_bytes(self.ref_payments) + spec_u32_to_le_bytes(self.last_fees_prepayment_time) + spec_u32_to_le_bytes(self.crncy_token_id));
            assert(out@.subrange(base.len() as int, base.len() as int + 8) =~= spec_u64_to_le_bytes(self.dividends_rate));
            assert(out@.subrange(base.len() as int + 8, base.len() as int + 16) =~= spec_i64_to_le_bytes(self.dividends_value));
            assert(out@.subrange(base.len() as int + 16, base.len() as int + 24) =~= spec_i64_to_le_bytes(self.fees_prepayment));
            assert(out@.subrange(base.len() as int + 24, base.len() as int + 32) =~= spec_u64_to_le_bytes(self.fees_ratio));
            assert(out@.subrange(base.len() as int + 32, base.len() as int + 40) =~= spec_i64_to_le_bytes(self.ref_rewards));
            assert(out@.subrange(base.len() as int + 40, base.len() as int + 48) =~= spec_i64_to_le_bytes(self.ref_payments));
            assert(out@.subrange(base.len() as int + 48, base.len() as int + 52) =~= spec_u32_to_le_bytes(self.last_fees_prepayment_time));
            assert(out@.subrange(base.len() as int + 52, base.len() as int + 56) =~= spec_u32_to_le_bytes(self.crncy_token_id));
            assert(out@.subrange(0, base.len() as int) =~= base);
            assert(Self::wire_at(out@, base.len() as int) == *self);
        }
    }

    pub fn encode(&self) -> (r: Vec<u8>)
        ensures
            r@.len() == CLIENT_COMMUNITY_RECORD_SIZE,
            Self::wire_at(r@, 0) == *self,
    {
        let mut out: Vec<u8> = Vec::new();
        self.write(&mut out);
        out
    }
}

/// Client Community Account Header.  `count` is the length of the
/// `ClientCommunityRecord` array that follows.
#[derive(Clone, Copy, Debug, PartialEq)]
pub struct ClientCommunityAccountHeader {
    pub discriminator: Discriminator,
    pub id: ClientId,
    pub last_voting_time: u32,
    pub last_voting_counter: u32,
    pub current_voting_counter: u32,
    pub current_voting_tokens: i64,
    pub last_voting_tokens: i64,
    pub last_choice: u32,
    pub slot: u32,
    pub drvs_tokens: i64,
    pub count: u32,
    pub reserved: u32,
}

pub const CLIENT_COMMUNITY_ACCOUNT_HEADER_SIZE: usize = 64;

impl ClientCommunityAccountHeader {
    /// The `ClientCommunityAccountHeader` image that starts at byte offset `off` of a buffer.
    pub open spec fn wire_at(b: Seq<u8>, off: int) -> ClientCommunityAccountHeader {
        ClientCommunityAccountHeader {
            discriminator: Discriminator::wire_at(b, off),
            id: ClientId(spec_u32_from_le_bytes(b.subrange(off + 8, off + 12))),
            last_voting_time: spec_u32_from_le_bytes(b.subrange(off + 12, off + 16)),
            last_voting_counter: spec_u32_from_le_bytes(b.subrange(off + 16, off + 20)),
            current_voting_counter: spec_u32_from_le_bytes(b.subrange(off + 20, off + 24)),
            current_voting_tokens: spec_i64_from_le_bytes(b.subrange(off + 24, off + 32)),
            last_voting_tokens: spec_i64_from_le_bytes(b.subrange(off + 32, off + 40)),
            last_choice: spec_u32_from_le_bytes(b.subrange(off + 40, off + 44)),
            slot: spec_u32_from_le_bytes(b.subrange(off + 44, off + 48)),
            drvs_tokens: spec_i64_from_le_bytes(b.subrange(off + 48, off + 56)),
            count: spec_u32_from_le_bytes(b.subrange(off + 56, off + 60)),
            reserved: spec_u32_from_le_bytes(b.subrange(off + 60, off + 64)),
        }
    }

    pub fn read_at(b: &[u8], off: usize) -> (r: ClientCommunityAccountHeader)
        requires
            off + CLIENT_COMMUNITY_ACCOUNT_HEADER_SIZE <= b@.len(),
        ensures
            r == Self::wire_at(b@, off as int),
    {
        let n = b.len();
        assert(off + 64 <= n);
        ClientCommunityAccountHeader {
            discriminator: Discriminator::read_at(b, off),
            id: ClientId(read_u32(b, off + 8)),
            last_voting_time: read_u32(b, off + 12),
            last_voting_counter: read_u32(b, off + 16),
            current_voting_counter: read_u32(b, off + 20),
            current_voting_tokens: read_i64(b, off + 24),
            last_voting_tokens: read_i64(b, off + 32),
            last_choice: read_u32(b, off + 40),
            slot: read_u32(b, off + 44),
            drvs_tokens: read_i64(b, off + 48),
            count: read_u32(b, off + 56),
            reserved: read_u32(b, off + 60),
        }
    }

    pub fn write(&self, out: &mut Vec<u8>)
        ensures
            final(out)@.len() == old(out)@.len() + CLIENT_COMMUNITY_ACCOUNT_HEADER_SIZE,
            final(out)@.subrange(0, old(out)@.len() as int) == old(out)@,
            Self::wire_at(final(out)@, old(out)@.len() as int) == *self,
    {
        let ghost base = out@;
        put_u32(out, self.discriminator.tag.0);
        put_u32(out, self.discriminator.version.0);
        put_u32(out, self.id.0);
        put_u32(out, self.last_voting_time);
        put_u32(out, self.last_voting_counter);
        put_u32(out, self.current_voting_counter);
        put_i64(out, self.current_voting_tokens);
        put_i64(out, self.last_voting_tokens);
        put_u32(out, self.last_choice);
        put_u32(out, self.slot);
        put_i64(out, self.drvs_tokens);
        put_u32(out, self.count);
        put_u32(out, self.reserved);
        proof {
            lemma_auto_spec_u16_to_from_le_bytes();
            lemma_auto_spec_u32_to_from_le_bytes();
            lemma_auto_spec_u64_to_from_le_bytes();
            lemma_auto_spec_i64_to_from_le_bytes();
            assert(out@ == base + spec_u32_to_le_bytes(self.discriminator.tag.0) + spec_u32_to_le_bytes(self.discriminator.version.0) + spec_u32_to_le_bytes(self.id.0) + spec_u32_to_le_bytes(self.last_voting_time) + spec_u32_to_le_bytes(self.last_voting_counter) + spec_u32_to_le_bytes(self.current_voting_counter) + spec_i64_to_le_bytes(self.current_voting_tokens) + spec_i64_to_le_bytes(self.last_voting_tokens) + spec_u32_to_le_bytes(self.last_choice) + spec_u32_to_le_bytes(self.slot) + spec_i64_to_le_bytes(self.drvs_tokens) + spec_u32_to_le_bytes(self.count) + spec_u32_to_le_bytes(self.reserved));
            assert(out@.subrange(base.len() as int, base.len() as int + 4) =~= spec_u32_to_le_bytes(self.discriminator.tag.0));
            assert(out@.subrange(base.len() as int + 4, base.len() as int + 8) =~= spec_u32_to_le_bytes(self.discriminator.version.0));
            assert(out@.subrange(base.len() as int + 8, base.len() as int + 12) =~= spec_u32_to_le_bytes(self.id.0));
            assert(out@.subrange(base.len() as int + 12, base.len() as int + 16) =~= spec_u32_to_le_bytes(self.last_voting_time));
            assert(out@.subrange(base.len() as int + 16, base.len() as int + 20) =~= spec_u32_to_le_bytes(self.last_voting_counter));
            assert(out@.subrange(base.len() as int + 20, base.len() as int + 24) =~= spec_u32_to_le_bytes(self.current_voting_counter));
            assert(out@.subrange(base.len() as int + 24, base.len() as int + 32) =~= spec_i64_to_le_bytes(self.current_voting_tokens));
            assert(out@.subrange(base.len() as int + 32, base.len() as int + 40) =~= spec_i64_to_le_bytes(self.last_voting_tokens));
            assert(out@.subrange(base.len() as int + 40, base.len() as int + 44) =~= spec_u32_to_le_bytes(self.last_choice));
            assert(out@.subrange(base.len() as int + 44, base.len() as int + 48) =~= spec_u32_to_le_bytes(self.slot));
            assert(out@.subrange(base.len() as int + 48, base.len() as int + 56) =~= spec_i64_to_le_bytes(self.drvs_tokens));
            assert(out@.subrange(base.len() as int + 56, base.len() as int + 60) =~= spec_u32_to_le_bytes(self.count));
            assert(out@.subrange(base.len() as int + 60, base.len() as int + 64) =~= spec_u32_to_le_bytes(self.reserved));
            assert(out@.subrange(0, base.len() as int) =~= base);
            assert(Self::wire_at(out@, base.len() as int) == *self);
        }
    }

    pub fn encode(&self) -> (r: Vec<u8>)
        ensures
            r@.len() == CLIENT_COMMUNITY_ACCOUNT_HEADER_SIZE,
            Self::wire_at(r@, 0) == *self,
    {
        let mut out: Vec<u8> = Vec::new();
        self.write(&mut out);
        out
    }

    /// Re-validates the stored discriminator before any other field of
    /// the buffer may be trusted: the buffer must be long enough, carry
    /// the expected account tag, and carry the expected schema version.
    pub fn load(b: &[u8], address: &Address, expected_version: u32) -> (r: Result<Self, DeriverseErrorKind>)
        ensures
            ({
                let d = Discriminator::wire_at(b@, 0);
                if b@.len() < CLIENT_COMMUNITY_ACCOUNT_HEADER_SIZE {
                    r == Err::<Self, DeriverseErrorKind>(DeriverseErrorKind::InvalidAccountSize { address: *address, account_type: AccountType::ClientCommunity, expected: CLIENT_COMMUNITY_ACCOUNT_HEADER_SIZE, actual: b@.len() as usize })
                } else if d.tag.0 != AccountType::ClientCommunity.spec_as_tag() {
                    r == Err::<Self, DeriverseErrorKind>(DeriverseErrorKind::InvalidAccountTag { expected_account_type: AccountType::ClientCommunity, actual_tag: d.tag.0, address: *address })
                } else if d.version.0 != expected_version {
                    r == Err::<Self, DeriverseErrorKind>(DeriverseErrorKind::InvalidVersion { address: *address, account_type: AccountType::ClientCommunity, expected: expected_version, actual: d.version.0 })
                } else {
                    r == Ok::<Self, DeriverseErrorKind>(Self::wire_at(b@, 0))
                }
            }),
    {
        if b.len() < CLIENT_COMMUNITY_ACCOUNT_HEADER_SIZE {
            return Err(DeriverseErrorKind::InvalidAccountSize { address: *address, account_type: AccountType::ClientCommunity, expected: CLIENT_COMMUNITY_ACCOUNT_HEADER_SIZE, actual: b.len() });
        }
        let d = Discriminator::read_at(b, 0);
        let tag = AccountType::ClientCommunity.as_tag();
        if d.tag.0 != tag {
            return Err(DeriverseErrorKind::InvalidAccountTag { expected_account_type: AccountType::ClientCommunity, actual_tag: d.tag.0, address: *address });
        }
        if d.version.0 != expected_version {
            return Err(DeriverseErrorKind::InvalidVersion { address: *address, account_type: AccountType::ClientCommunity, expected: expected_version, actual: d.version.0 });
        }
        Ok(Self::read_at(b, 0))
    }
}

} // verus!
