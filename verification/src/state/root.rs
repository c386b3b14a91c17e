//! The root account: global counters, the platform addresses and the
//! referral-program parameters.  Every token or instrument reference in an
//! instruction payload is checked against the counters stored here.

use vstd::bytes::*;
use vstd::prelude::*;

use crate::codec::{
    lemma_auto_spec_i64_to_from_le_bytes, lemma_subrange_of_concat_left,
    lemma_subrange_of_concat_right, put_i64, put_u16, put_u32, put_u64, put_u8, read_i64,
    read_u16, read_u32, read_u64, read_u8, spec_i64_from_le_bytes, spec_i64_to_le_bytes,
};
use crate::errors::DeriverseErrorKind;
use crate::types::{AccountType, Address, Discriminator, ROOT_MASK_PRIVATE_MODE};


verus! {

broadcast use lemma_subrange_of_concat_left, lemma_subrange_of_concat_right;

/// Root State: the counts of clients, tokens and instruments registered
/// on the platform, the owning addresses, and the referral parameters.
/// The referral discount, ratio and seat fee are binary64 parameters of
/// the host-side arithmetic, carried as raw bit patterns.
#[derive(Clone, Copy, Debug)]
pub struct RootState {
    pub discriminator: Discriminator,
    pub operator_address: Address,
    pub holder_address: Address,
    pub drvs_mint_address: Address,
    pub lut_address: Address,
    pub airdrop_authority_address: Address,
    pub private_mode_authority_address: Address,
    pub ref_program_duration: u32,
    pub ref_link_duration: u32,
    pub ref_discount: u64,
    pub ref_ratio: u64,
    pub clients_count: u32,
    pub tokens_count: u32,
    pub instr_count: u32,
    pub ref_counter: u32,
    pub mask: u32,
    pub points_program_expiration: u32,
    pub purchasing_perp_seat_fee: u64,
}

pub const ROOT_ACCOUNT_SIZE: usize = 256;

impl RootState {
    /// Whether this value is exactly what the `RootState` image that starts
    /// at byte offset `off` of the buffer holds.
    pub open spec fn matches_wire(self, b: Seq<u8>, off: int) -> bool {
        &&& self.discriminator == Discriminator::wire_at(b, off)
        &&& self.operator_address.0@ == b.subrange(off + 8, off + 40)
        &&& self.holder_address.0@ == b.subrange(off + 40, off + 72)
        &&& self.drvs_mint_address.0@ == b.subrange(off + 72, off + 104)
        &&& self.lut_address.0@ == b.subrange(off + 104, off + 136)
        &&& self.airdrop_authority_address.0@ == b.subrange(off + 136, off + 168)
        &&& self.private_mode_authority_address.0@ == b.subrange(off + 168, off + 200)
        &&& self.ref_program_duration == spec_u32_from_le_bytes(b.subrange(off + 200, off + 204))
        &&& self.ref_link_duration == spec_u32_from_le_bytes(b.subrange(off + 204, off + 208))
        &&& self.ref_discount == spec_u64_from_le_bytes(b.subrange(off + 208, off + 216))
        &&& self.ref_ratio == spec_u64_from_le_bytes(b.subrange(off + 216, off + 224))
        &&& self.clients_count == spec_u32_from_le_bytes(b.subrange(off + 224, off + 228))
        &&& self.tokens_count == spec_u32_from_le_bytes(b.subrange(off + 228, off + 232))
        &&& self.instr_count == spec_u32_from_le_bytes(b.subrange(off + 232, off + 236))
        &&& self.ref_counter == spec_u32_from_le_bytes(b.subrange(off + 236, off + 240))
        &&& self.mask == spec_u32_from_le_bytes(b.subrange(off + 240, off + 244))
        &&& self.points_program_expiration == spec_u32_from_le_bytes(b.subrange(off + 244, off + 248))
        &&& self.purchasing_perp_seat_fee == spec_u64_from_le_bytes(b.subrange(off + 248, off + 256))
    }

    pub fn read_at(b: &[u8], off: usize) -> (r: RootState)
        requires
            off + ROOT_ACCOUNT_SIZE <= b@.len(),
        ensures
            r.matches_wire(b@, off as int),
    {
        let n = b.len();
        assert(off + 256 <= n);
        RootState {
            discriminator: Discriminator::read_at(b, off),
            operator_address: Address::read_at(b, off + 8),
            holder_address: Address::read_at(b, off + 40),
            drvs_mint_address: Address::read_at(b, off + 72),
            lut_address: Address::read_at(b, off + 104),
            airdrop_authority_address: Address::read_at(b, off + 136),
            private_mode_authority_address: Address::read_at(b, off + 168),
            ref_program_duration: read_u32(b, off + 200),
            ref_link_duration: read_u32(b, off + 204),
            ref_discount: read_u64(b, off + 208),
            ref_ratio: read_u64(b, off + 216),
            clients_count: read_u32(b, off + 224),
            tokens_count: read_u32(b, off + 228),
            instr_count: read_u32(b, off + 232),
            ref_counter: read_u32(b, off + 236),
            mask: read_u32(b, off + 240),
            points_program_expiration: read_u32(b, off + 244),
            purchasing_perp_seat_fee: read_u64(b, off + 248),
        }
    }

    pub fn write(&self, out: &mut Vec<u8>)
        ensures
            final(out)@.len() == old(out)@.len() + ROOT_ACCOUNT_SIZE,
            final(out)@.subrange(0, old(out)@.len() as int) == old(out)@,
            self.matches_wire(final(out)@, old(out)@.len() as int),
    {
        let ghost base = out@;
        put_u32(out, self.discriminator.tag.0);
        put_u32(out, self.discriminator.version.0);
        self.operator_address.write(out);
        self.holder_address.write(out);
        self.drvs_mint_address.write(out);
        self.lut_address.write(out);
        self.airdrop_authority_address.write(out);
        self.private_mode_authority_address.write(out);
        put_u32(out, self.ref_program_duration);
        put_u32(out, self.ref_link_duration);
        put_u64(out, self.ref_discount);
        put_u64(out, self.ref_ratio);
        put_u32(out, self.clients_count);
        put_u32(out, self.tokens_count);
        put_u32(out, self.instr_count);
        put_u32(out, self.ref_counter);
        put_u32(out, self.mask);
        put_u32(out, self.points_program_expiration);
        put_u64(out, self.purchasing_perp_seat_fee);
        proof {
            lemma_auto_spec_u16_to_from_le_bytes();
            lemma_auto_spec_u32_to_from_le_bytes();
            lemma_auto_spec_u64_to_from_le_bytes();
            lemma_auto_spec_i64_to_from_le_bytes();
            assert(out@ == base + spec_u32_to_le_bytes(self.discriminator.tag.0) + spec_u32_to_le_bytes(self.discriminator.version.0) + self.operator_address.0@ + self.holder_address.0@ + self.drvs_mint_address.0@ + self.lut_address.0@ + self.airdrop_authority_address.0@ + self.private_mode_authority_address.0@ + spec_u32_to_le_bytes(self.ref_program_duration) + spec_u32_to_le_bytes(self.ref_link_duration) + spec_u64_to_le_bytes(self.ref_discount) + spec_u64_to_le_bytes(self.ref_ratio) + spec_u32_to_le_bytes(self.clients_count) + spec_u32_to_le_bytes(self.tokens_count) + spec_u32_to_le_bytes(self.instr_count) + spec_u32_to_le_bytes(self.ref_counter) + spec_u32_to_le_bytes(self.mask) + spec_u32_to_le_bytes(self.points_program_expiration) + spec_u64_to_le_bytes(self.purchasing_perp_seat_fee));
            assert(out@.subrange(base.len() as int, base.len() as int + 4) =~= spec_u32_to_le_bytes(self.discriminator.tag.0));
            assert(out@.subrange(base.len() as int + 4, base.len() as int + 8) =~= spec_u32_to_le_bytes(self.discriminator.version.0));
            assert(out@.subrange(base.len() as int + 8, base.len() as int + 40) =~= self.operator_address.0@);
            assert(out@.subrange(base.len() as int + 40, base.len() as int + 72) =~= self.holder_address.0@);
            assert(out@.subrange(base.len() as int + 72, base.len() as int + 104) =~= self.drvs_mint_address.0@);
            assert(out@.subrange(base.len() as int + 104, base.len() as int + 136) =~= self.lut_address.0@);
            assert(out@.subrange(base.len() as int + 136, base.len() as int + 168) =~= self.airdrop_authority_address.0@);
            assert(out@.subrange(base.len() as int + 168, base.len() as int + 200) =~= self.private_mode_authority_address.0@);
            assert(out@.subrange(base.len() as int + 200, base.len() as int + 204) =~= spec_u32_to_le_bytes(self.ref_program_duration));
            assert(out@.subrange(base.len() as int + 204, base.len() as int + 208) =~= spec_u32_to_le_bytes(self.ref_link_duration));
            assert(out@.subrange(base.len() as int + 208, base.len() as int + 216) =~= spec_u64_to_le_bytes(self.ref_discount));
            assert(out@.subrange(base.len() as int + 216, base.len() as int + 224) =~= spec_u64_to_le_bytes(self.ref_ratio));
            assert(out@.subrange(base.len() as int + 224, base.len() as int + 228) =~= spec_u32_to_le_bytes(self.clients_count));
            assert(out@.subrange(base.len() as int + 228, base.len() as int + 232) =~= spec_u32_to_le_bytes(self.tokens_count));
            assert(out@.subrange(base.len() as int + 232, base.len() as int + 236) =~= spec_u32_to_le_bytes(self.instr_count));
            assert(out@.subrange(base.len() as int + 236, base.len() as int + 240) =~= spec_u32_to_le_bytes(self.ref_counter));
            assert(out@.subrange(base.len() as int + 240, base.len() as int + 244) =~= spec_u32_to_le_bytes(self.mask));
            assert(out@.subrange(base.len() as int + 244, base.len() as int + 248) =~= spec_u32_to_le_bytes(self.points_program_expiration));
            assert(out@.subrange(base.len() as int + 248, base.len() as int + 256) =~= spec_u64_to_le_bytes(self.purchasing_perp_seat_fee));
            assert(out@.subrange(0, base.len() as int) =~= base);
            assert(self.matches_wire(out@, base.len() as int));
        }
    }

    pub fn encode(&self) -> (r: Vec<u8>)
        ensures
            r@.len() == ROOT_ACCOUNT_SIZE,
            self.matches_wire(r@, 0),
    {
        let mut out: Vec<u8> = Vec::new();
        self.write(&mut out);
        out
    }

    /// Whether the platform runs in private mode (bit 0 of the mask).
    pub fn private_mode(&self) -> (r: bool)
        ensures
            r == (self.mask & ROOT_MASK_PRIVATE_MODE != 0),
    {
        self.mask & ROOT_MASK_PRIVATE_MODE != 0
    }

    /// Re-validates the stored discriminator before any other field of
    /// the buffer may be trusted: the buffer must be long enough, carry
    /// the expected account tag, and carry the expected schema version.
    pub fn load(b: &[u8], address: &Address, expected_version: u32) -> (r: Result<Self, DeriverseErrorKind>)
        ensures
            ({
                let d = Discriminator::wire_at(b@, 0);
                if b@.len() < ROOT_ACCOUNT_SIZE {
                    r == Err::<Self, DeriverseErrorKind>(DeriverseErrorKind::InvalidAccountSize { address: *address, account_type: AccountType::Root, expected: ROOT_ACCOUNT_SIZE, actual: b@.len() as usize })
                } else if d.tag.0 != AccountType::Root.spec_as_tag() {
                    r == Err::<Self, DeriverseErrorKind>(DeriverseErrorKind::InvalidAccountTag { expected_account_type: AccountType::Root, actual_tag: d.tag.0, address: *address })
                } else if d.version.0 != expected_version {
                    r == Err::<Self, DeriverseErrorKind>(DeriverseErrorKind::InvalidVersion { address: *address, account_type: AccountType::Root, expected: expected_version, actual: d.version.0 })
                } else {
                    match r {
                        Ok(h) => h.matches_wire(b@, 0),
                        Err(_) => false,
                    }
                }
            }),
    {
        if b.len() < ROOT_ACCOUNT_SIZE {
            return Err(DeriverseErrorKind::InvalidAccountSize { address: *address, account_type: AccountType::Root, expected: ROOT_ACCOUNT_SIZE, actual: b.len() });
        }
        let d = Discriminator::read_at(b, 0);
        let tag = AccountType::Root.as_tag();
        if d.tag.0 != tag {
            return Err(DeriverseErrorKind::InvalidAccountTag { expected_account_type: AccountType::Root, actual_tag: d.tag.0, address: *address });
        }
        if d.version.0 != expected_version {
            return Err(DeriverseErrorKind::InvalidVersion { address: *address, account_type: AccountType::Root, expected: expected_version, actual: d.version.0 });
        }
        Ok(Self::read_at(b, 0))
    }
}

} // verus!
