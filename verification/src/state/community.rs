//! The community account header: the DRVS supply, the running voting
//! totals and the voted trading parameters.

use vstd::bytes::*;
use vstd::prelude::*;

use crate::codec::{
    lemma_auto_spec_i64_to_from_le_bytes, lemma_subrange_of_concat_left,
    lemma_subrange_of_concat_right, put_i64, put_u16, put_u32, put_u64, put_u8, read_i64,
    read_u16, read_u32, read_u64, read_u8, spec_i64_from_le_bytes, spec_i64_to_le_bytes,
};
use crate::errors::DeriverseErrorKind;
use crate::types::{AccountType, Address, Discriminator};


verus! {

broadcast use lemma_subrange_of_concat_left, lemma_subrange_of_concat_right;

/// Community Account Header: current and previous voting totals, the
/// voting counter (its value modulo 6 selects the voting topic), and the
/// raw records of the voted rates.  `count` is the length of the
/// base-currency record array that follows.
#[derive(Clone, Copy, Debug, PartialEq)]
pub struct CommunityAccountHeader {
    pub discriminator: Discriminator,
    pub drvs_tokens: i64,
    pub min_amount: i64,
    pub voting_supply: i64,
    pub prev_voting_supply: i64,
    pub voting_decr: i64,
    pub prev_voting_decr: i64,
    pub voting_unchange: i64,
    pub prev_voting_unchange: i64,
    pub voting_incr: i64,
    pub prev_voting_incr: i64,
    pub voting_counter: u32,
    pub voting_start_slot: u32,
    pub voting_end_time: u32,
    pub spot_fee_rate: u32,
    pub perp_fee_rate: u32,
    pub spot_pool_ratio: u32,
    pub margin_call_penalty_rate: u32,
    pub fees_prepayment_for_max_discount: u32,
    pub max_discount: u32,
    pub reserved_value1: u32,
    pub reserved_value2: u32,
    pub reserved_value3: u32,
    pub reserved_value4: u32,
    pub reserved_value5: u32,
    pub reserved_value6: u32,
    pub reserved_value7: u32,
    pub reserved_value8: u32,
    pub count: u32,
}

pub const COMMUNITY_ACCOUNT_HEADER_SIZE: usize = 160;

impl CommunityAccountHeader {
    /// The `CommunityAccountHeader` image that starts at byte offset `off` of a buffer.
    pub open spec fn wire_at(b: Seq<u8>, off: int) -> CommunityAccountHeader {
        CommunityAccountHeader {
            discriminator: Discriminator::wire_at(b, off),
            drvs_tokens: spec_i64_from_le_bytes(b.subrange(off + 8, off + 16)),
            min_amount: spec_i64_from_le_bytes(b.subrange(off + 16, off + 24)),
            voting_supply: spec_i64_from_le_bytes(b.subrange(off + 24, off + 32)),
            prev_voting_supply: spec_i64_from_le_bytes(b.subrange(off + 32, off + 40)),
            voting_decr: spec_i64_from_le_bytes(b.subrange(off + 40, off + 48)),
            prev_voting_decr: spec_i64_from_le_bytes(b.subrange(off + 48, off + 56)),
            voting_unchange: spec_i64_from_le_bytes(b.subrange(off + 56, off + 64)),
            prev_voting_unchange: spec_i64_from_le_bytes(b.subrange(off + 64, off + 72)),
            voting_incr: spec_i64_from_le_bytes(b.subrange(off + 72, off + 80)),
            prev_voting_incr: spec_i64_from_le_bytes(b.subrange(off + 80, off + 88)),
            voting_counter: spec_u32_from_le_bytes(b.subrange(off + 88, off + 92)),
            voting_start_slot: spec_u32_from_le_bytes(b.subrange(off + 92, off + 96)),
            voting_end_time: spec_u32_from_le_bytes(b.subrange(off + 96, off + 100)),
            spot_fee_rate: spec_u32_from_le_bytes(b.subrange(off + 100, off + 104)),
            perp_fee_rate: spec_u32_from_le_bytes(b.subrange(off + 104, off + 108)),
            spot_pool_ratio: spec_u32_from_le_bytes(b.subrange(off + 108, off + 112)),
            margin_call_penalty_rate: spec_u32_from_le_bytes(b.subrange(off + 112, off + 116)),
            fees_prepayment_for_max_discount: spec_u32_from_le_bytes(b.subrange(off + 116, off + 120)),
            max_discount: spec_u32_from_le_bytes(b.subrange(off + 120, off + 124)),
            reserved_value1: spec_u32_from_le_bytes(b.subrange(off + 124, off + 128)),
            reserved_value2: spec_u32_from_le_bytes(b.subrange(off + 128, off + 132)),
            reserved_value3: spec_u32_from_le_bytes(b.subrange(off + 132, off + 136)),
            reserved_value4: spec_u32_from_le_bytes(b.subrange(off + 136, off + 140)),
            reserved_value5: spec_u32_from_le_bytes(b.subrange(off + 140, off + 144)),
            reserved_value6: spec_u32_from_le_bytes(b.subrange(off + 144, off + 148)),
            reserved_value7: spec_u32_from_le_bytes(b.subrange(off + 148, off + 152)),
            reserved_value8: spec_u32_from_le_bytes(b.subrange(off + 152, off + 156)),
            count: spec_u32_from_le_bytes(b.subrange(off + 156, off + 160)),
        }
    }

    pub fn read_at(b: &[u8], off: usize) -> (r: CommunityAccountHeader)
        requires
            off + COMMUNITY_ACCOUNT_HEADER_SIZE <= b@.len(),
        ensures
            r == Self::wire_at(b@, off as int),
    {
        let n = b.len();
        assert(off + 160 <= n);
        CommunityAccountHeader {
            discriminator: Discriminator::read_at(b, off),
            drvs_tokens: read_i64(b, off + 8),
            min_amount: read_i64(b, off + 16),
            voting_supply: read_i64(b, off + 24),
            prev_voting_supply: read_i64(b, off + 32),
            voting_decr: read_i64(b, off + 40),
            prev_voting_decr: read_i64(b, off + 48),
            voting_unchange: read_i64(b, off + 56),
            prev_voting_unchange: read_i64(b, off + 64),
            voting_incr: read_i64(b, off + 72),
            prev_voting_incr: read_i64(b, off + 80),
            voting_counter: read_u32(b, off + 88),
            voting_start_slot: read_u32(b, off + 92),
            voting_end_time: read_u32(b, off + 96),
            spot_fee_rate: read_u32(b, off + 100),
            perp_fee_rate: read_u32(b, off + 104),
            spot_pool_ratio: read_u32(b, off + 108),
            margin_call_penalty_rate: read_u32(b, off + 112),
            fees_prepayment_for_max_discount: read_u32(b, off + 116),
            max_discount: read_u32(b, off + 120),
            reserved_value1: read_u32(b, off + 124),
            reserved_value2: read_u32(b, off + 128),
            reserved_value3: read_u32(b, off + 132),
            reserved_value4: read_u32(b, off + 136),
            reserved_value5: read_u32(b, off + 140),
            reserved_value6: read_u32(b, off + 144),
            reserved_value7: read_u32(b, off + 148),
            reserved_value8: read_u32(b, off + 152),
            count: read_u32(b, off + 156),
        }
    }

    pub fn write(&self, out: &mut Vec<u8>)
        ensures
            final(out)@.len() == old(out)@.len() + COMMUNITY_ACCOUNT_HEADER_SIZE,
            final(out)@.subrange(0, old(out)@.len() as int) == old(out)@,
            Self::wire_at(final(out)@, old(out)@.len() as int) == *self,
    {
        let ghost base = out@;
        put_u32(out, self.discriminator.tag.0);
        put_u32(out, self.discriminator.version.0);
        put_i64(out, self.drvs_tokens);
        put_i64(out, self.min_amount);
        put_i64(out, self.voting_supply);
        put_i64(out, self.prev_voting_supply);
        put_i64(out, self.voting_decr);
        put_i64(out, self.prev_voting_decr);
        put_i64(out, self.voting_unchange);
        put_i64(out, self.prev_voting_unchange);
        put_i64(out, self.voting_incr);
        put_i64(out, self.prev_voting_incr);
        put_u32(out, self.voting_counter);
        put_u32(out, self.voting_start_slot);
        put_u32(out, self.voting_end_time);
        put_u32(out, self.spot_fee_rate);
        put_u32(out, self.perp_fee_rate);
        put_u32(out, self.spot_pool_ratio);
        put_u32(out, self.margin_call_penalty_rate);
        put_u32(out, self.fees_prepayment_for_max_discount);
        put_u32(out, self.max_discount);
        put_u32(out, self.reserved_value1);
        put_u32(out, self.reserved_value2);
        put_u32(out, self.reserved_value3);
        put_u32(out, self.reserved_value4);
        put_u32(out, self.reserved_value5);
        put_u32(out, self.reserved_value6);
        put_u32(out, self.reserved_value7);
        put_u32(out, self.reserved_value8);
        put_u32(out, self.count);
        proof {
            lemma_auto_spec_u16_to_from_le_bytes();
            lemma_auto_spec_u32_to_from_le_bytes();
            lemma_auto_spec_u64_to_from_le_bytes();
            lemma_auto_spec_i64_to_from_le_bytes();
            assert(out@ == base + spec_u32_to_le_bytes(self.discriminator.tag.0) + spec_u32_to_le_bytes(self.discriminator.version.0) + spec_i64_to_le_bytes(self.drvs_tokens) + spec_i64_to_le_bytes(self.min_amount) + spec_i64_to_le_bytes(self.voting_supply) + spec_i64_to_le_bytes(self.prev_voting_supply) + spec_i64_to_le_bytes(self.voting_decr) + spec_i64_to_le_bytes(self.prev_voting_decr) + spec_i64_to_le_bytes(self.voting_unchange) + spec_i64_to_le_bytes(self.prev_voting_unchange) + spec_i64_to_le_bytes(self.voting_incr) + spec_i64_to_le_bytes(self.prev_voting_incr) + spec_u32_to_le_bytes(self.voting_counter) + spec_u32_to_le_bytes(self.voting_start_slot) + spec_u32_to_le_bytes(self.voting_end_time) + spec_u32_to_le_bytes(self.spot_fee_rate) + spec_u32_to_le_bytes(self.perp_fee_rate) + spec_u32_to_le_bytes(self.spot_pool_ratio) + spec_u32_to_le_bytes(self.margin_call_penalty_rate) + spec_u32_to_le_bytes(self.fees_prepayment_for_max_discount) + spec_u32_to_le_bytes(self.max_discount) + spec_u32_to_le_bytes(self.reserved_value1) + spec_u32_to_le_bytes(self.reserved_value2) + spec_u32_to_le_bytes(self.reserved_value3) + spec_u32_to_le_bytes(self.reserved_value4) + spec_u32_to_le_bytes(self.reserved_value5) + spec_u32_to_le_bytes(self.reserved_value6) + spec_u32_to_le_bytes(self.reserved_value7) + spec_u32_to_le_bytes(self.reserved_value8) + spec_u32_to_le_bytes(self.count));
            assert(out@.subrange(base.len() as int, base.len() as int + 4) =~= spec_u32_to_le_bytes(self.discriminator.tag.0));
            assert(out@.subrange(base.len() as int + 4, base.len() as int + 8) =~= spec_u32_to_le_bytes(self.discriminator.version.0));
            assert(out@.subrange(base.len() as int + 8, base.len() as int + 16) =~= spec_i64_to_le_bytes(self.drvs_tokens));
            assert(out@.subrange(base.len() as int + 16, base.len() as int + 24) =~= spec_i64_to_le_bytes(self.min_amount));
            assert(out@.subrange(base.len() as int + 24, base.len() as int + 32) =~= spec_i64_to_le_bytes(self.voting_supply));
            assert(out@.subrange(base.len() as int + 32, base.len() as int + 40) =~= spec_i64_to_le_bytes(self.prev_voting_supply));
            assert(out@.subrange(base.len() as int + 40, base.len() as int + 48) =~= spec_i64_to_le_bytes(self.voting_decr));
            assert(out@.subrange(base.len() as int + 48, base.len() as int + 56) =~= spec_i64_to_le_bytes(self.prev_voting_decr));
            assert(out@.subrange(base.len() as int + 56, base.len() as int + 64) =~= spec_i64_to_le_bytes(self.voting_unchange));
            assert(out@.subrange(base.len() as int + 64, base.len() as int + 72) =~= spec_i64_to_le_bytes(self.prev_voting_unchange));
            assert(out@.subrange(base.len() as int + 72, base.len() as int + 80) =~= spec_i64_to_le_bytes(self.voting_incr));
            assert(out@.subrange(base.len() as int + 80, base.len() as int + 88) =~= spec_i64_to_le_bytes(self.prev_voting_incr));
            assert(out@.subrange(base.len() as int + 88, base.len() as int + 92) =~= spec_u32_to_le_bytes(self.voting_counter));
            assert(out@.subrange(base.len() as int + 92, base.len() as int + 96) =~= spec_u32_to_le_bytes(self.voting_start_slot));
            assert(out@.subrange(base.len() as int + 96, base.len() as int + 100) =~= spec_u32_to_le_bytes(self.voting_end_time));
            assert(out@.subrange(base.len() as int + 100, base.len() as int + 104) =~= spec_u32_to_le_bytes(self.spot_fee_rate));
            assert(out@.subrange(base.len() as int + 104, base.len() as int + 108) =~= spec_u32_to_le_bytes(self.perp_fee_rate));
            assert(out@.subrange(base.len() as int + 108, base.len() as int + 112) =~= spec_u32_to_le_bytes(self.spot_pool_ratio));
            assert(out@.subrange(base.len() as int + 112, base.len() as int + 116) =~= spec_u32_to_le_bytes(self.margin_call_penalty_rate));
            assert(out@.subrange(base.len() as int + 116, base.len() as int + 120) =~= spec_u32_to_le_bytes(self.fees_prepayment_for_max_discount));
            assert(out@.subrange(base.len() as int + 120, base.len() as int + 124) =~= spec_u32_to_le_bytes(self.max_discount));
            assert(out@.subrange(base.len() as int + 124, base.len() as int + 128) =~= spec_u32_to_le_bytes(self.reserved_value1));
            assert(out@.subrange(base.len() as int + 128, base.len() as int + 132) =~= spec_u32_to_le_bytes(self.reserved_value2));
            assert(out@.subrange(base.len() as int + 132, base.len() as int + 136) =~= spec_u32_to_le_bytes(self.reserved_value3));
            assert(out@.subrange(base.len() as int + 136, base.len() as int + 140) =~= spec_u32_to_le_bytes(self.reserved_value4));
            assert(out@.subrange(base.len() as int + 140, base.len() as int + 144) =~= spec_u32_to_le_bytes(self.reserved_value5));
            assert(out@.subrange(base.len() as int + 144, base.len() as int + 148) =~= spec_u32_to_le_bytes(self.reserved_value6));
            assert(out@.subrange(base.len() as int + 148, base.len() as int + 152) =~= spec_u32_to_le_bytes(self.reserved_value7));
            assert(out@.subrange(base.len() as int + 152, base.len() as int + 156) =~= spec_u32_to_le_bytes(self.reserved_value8));
            assert(out@.subrange(base.len() as int + 156, base.len() as int + 160) =~= spec_u32_to_le_bytes(self.count));
            assert(out@.subrange(0, base.len() as int) =~= base);
            assert(Self::wire_at(out@, base.len() as int) == *self);
        }
    }

    pub fn encode(&self) -> (r: Vec<u8>)
        ensures
            r@.len() == COMMUNITY_ACCOUNT_HEADER_SIZE,
            Self::wire_at(r@, 0) == *self,
    {
        let mut out: Vec<u8> = Vec::new();
        self.write(&mut out);
        out
    }

    /// Re-validates the stored discriminator before any other field of
    /// the buffer may be trusted: the buffer must be long enough, carry
    /// the expected account tag, and carry the expected schema version.
    pub fn load(b: &[u8], address: &Address, expected_version: u32) -> (r: Result<Self, DeriverseErrorKind>)
        ensures
            ({
                let d = Discriminator::wire_at(b@, 0);
                if b@.len() < COMMUNITY_ACCOUNT_HEADER_SIZE {
                    r == Err::<Self, DeriverseErrorKind>(DeriverseErrorKind::InvalidAccountSize { address: *address, account_type: AccountType::Community, expected: COMMUNITY_ACCOUNT_HEADER_SIZE, actual: b@.len() as usize })
                } else if d.tag.0 != AccountType::Community.spec_as_tag() {
                    r == Err::<Self, DeriverseErrorKind>(DeriverseErrorKind::InvalidAccountTag { expected_account_type: AccountType::Community, actual_tag: d.tag.0, address: *address })
                } else if d.version.0 != expected_version {
                    r == Err::<Self, DeriverseErrorKind>(DeriverseErrorKind::InvalidVersion { address: *address, account_type: AccountType::Community, expected: expected_version, actual: d.version.0 })
                } else {
                    r == Ok::<Self, DeriverseErrorKind>(Self::wire_at(b@, 0))
                }
            }),
    {
        if b.len() < COMMUNITY_ACCOUNT_HEADER_SIZE {
            return Err(DeriverseErrorKind::InvalidAccountSize { address: *address, account_type: AccountType::Community, expected: COMMUNITY_ACCOUNT_HEADER_SIZE, actual: b.len() });
        }
        let d = Discriminator::read_at(b, 0);
        let tag = AccountType::Community.as_tag();
        if d.tag.0 != tag {
            return Err(DeriverseErrorKind::InvalidAccountTag { expected_account_type: AccountType::Community, actual_tag: d.tag.0, address: *address });
        }
        if d.version.0 != expected_version {
            return Err(DeriverseErrorKind::InvalidVersion { address: *address, account_type: AccountType::Community, expected: expected_version, actual: d.version.0 });
        }
        Ok(Self::read_at(b, 0))
    }
}

} // verus!
