//! The primary account of a client: its wallet, referral state, trading
//! milestones and the length of the asset record array that follows.

use vstd::bytes::*;
use vstd::prelude::*;

use crate::codec::{
    lemma_auto_spec_i64_to_from_le_bytes, lemma_subrange_of_concat_left,
    lemma_subrange_of_concat_right, put_i64, put_u16, put_u32, put_u64, put_u8, read_i64,
    read_u16, read_u32, read_u64, read_u8, spec_i64_from_le_bytes, spec_i64_to_le_bytes,
};
use crate::errors::DeriverseErrorKind;
use crate::ids::ClientId;
use crate::types::{AccountType, Address, Discriminator};


verus! {

broadcast use lemma_subrange_of_concat_left, lemma_subrange_of_concat_right;

/// Client Primary Account Header.  The referral discounts and ratios
/// are binary64 parameters of the host-side arithmetic, carried as raw
/// bit patterns; the vault-mode instrument list is carried as eight
/// consecutive slots.
#[derive(Clone, Copy, Debug)]
pub struct ClientPrimaryAccountHeader {
    pub discriminator: Discriminator,
    pub wallet_address: Address,
    pub lut_address: Address,
    pub ref_address: Address,
    pub vm_wallet_address: Address,
    pub vm_instr_0: u32,
    pub vm_instr_1: u32,
    pub vm_instr_2: u32,
    pub vm_instr_3: u32,
    pub vm_instr_4: u32,
    pub vm_instr_5: u32,
    pub vm_instr_6: u32,
    pub vm_instr_7: u32,
    pub vm_withdraw_token_id: u32,
    pub vm_mask: u32,
    pub vm_withdraw_amount: i64,
    pub first_ref_link_discount: u64,
    pub second_ref_link_discount: u64,
    pub first_ref_link_ratio: u64,
    pub second_ref_link_ratio: u64,
    pub ref_program_discount: u64,
    pub ref_program_ratio: u64,
    pub reserved: i64,
    pub mask: i64,
    pub id: ClientId,
    pub ref_client_id: ClientId,
    pub ref_counter: u32,
    pub first_ref_link_id: u32,
    pub second_ref_link_id: u32,
    pub first_ref_link_expiration: u32,
    pub second_ref_link_expiration: u32,
    pub ref_program_expiration: u32,
    pub spot_trades: u32,
    pub perp_trades: u32,
    pub lp_trades: u32,
    pub points: u32,
    pub slot: u32,
    pub assets_count: u32,
    pub spot_filled_orders: u32,
    pub perp_filled_orders: u32,
    pub reserved_value1: i64,
    pub reserved_value2: i64,
    pub reserved_value3: i64,
    pub reserved_value4: i64,
    pub reserved_value5: i64,
    pub reserved_value6: i64,
    pub reserved_value7: i64,
    pub reserved_value8: i64,
}

pub const CLIENT_PRIMARY_ACCOUNT_HEADER_SIZE: usize = 376;

impl ClientPrimaryAccountHeader {
    /// Whether this value is exactly what the `ClientPrimaryAccountHeader` image that starts
    /// at byte offset `off` of the buffer holds.
    pub open spec fn matches_wire(self, b: Seq<u8>, off: int) -> bool {
        &&& self.discriminator == Discriminator::wire_at(b, off)
        &&& self.wallet_address.0@ == b.subrange(off + 8, off + 40)
        &&& self.lut_address.0@ == b.subrange(off + 40, off + 72)
        &&& self.ref_address.0@ == b.subrange(off + 72, off + 104)
        &&& self.vm_wallet_address.0@ == b.subrange(off + 104, off + 136)
        &&& self.vm_instr_0 == spec_u32_from_le_bytes(b.subrange(off + 136, off + 140))
        &&& self.vm_instr_1 == spec_u32_from_le_bytes(b.subrange(off + 140, off + 144))
        &&& self.vm_instr_2 == spec_u32_from_le_bytes(b.subrange(off + 144, off + 148))
        &&& self.vm_instr_3 == spec_u32_from_le_bytes(b.subrange(off + 148, off + 152))
        &&& self.vm_instr_4 == spec_u32_from_le_bytes(b.subrange(off + 152, off + 156))
        &&& self.vm_instr_5 == spec_u32_from_le_bytes(b.subrange(off + 156, off + 160))
        &&& self.vm_instr_6 == spec_u32_from_le_bytes(b.subrange(off + 160, off + 164))
        &&& self.vm_instr_7 == spec_u32_from_le_bytes(b.subrange(off + 164, off + 168))
        &&& self.vm_withdraw_token_id == spec_u32_from_le_bytes(b.subrange(off + 168, off + 172))
        &&& self.vm_mask == spec_u32_from_le_bytes(b.subrange(off + 172, off + 176))
        &&& self.vm_withdraw_amount == spec_i64_from_le_bytes(b.subrange(off + 176, off + 184))
        &&& self.first_ref_link_discount == spec_u64_from_le_bytes(b.subrange(off + 184, off + 192))
        &&& self.second_ref_link_discount == spec_u64_from_le_bytes(b.subrange(off + 192, off + 200))
        &&& self.first_ref_link_ratio == spec_u64_from_le_bytes(b.subrange(off + 200, off + 208))
        &&& self.second_ref_link_ratio == spec_u64_from_le_bytes(b.subrange(off + 208, off + 216))
        &&& self.ref_program_discount == spec_u64_from_le_bytes(b.subrange(off + 216, off + 224))
        &&& self.ref_program_ratio == spec_u64_from_le_bytes(b.subrange(off + 224, off + 232))
        &&& self.reserved == spec_i64_from_le_bytes(b.subrange(off + 232, off + 240))
        &&& self.mask == spec_i64_from_le_bytes(b.subrange(off + 240, off + 248))
        &&& self.id == ClientId(spec_u32_from_le_bytes(b.subrange(off + 248, off + 252)))
        &&& self.ref_client_id == ClientId(spec_u32_from_le_bytes(b.subrange(off + 252, off + 256)))
        &&& self.ref_counter == spec_u32_from_le_bytes(b.subrange(off + 256, off + 260))
        &&& self.first_ref_link_id == spec_u32_from_le_bytes(b.subrange(off + 260, off + 264))
        &&& self.second_ref_link_id == spec_u32_from_le_bytes(b.subrange(off + 264, off + 268))
        &&& self.first_ref_link_expiration == spec_u32_from_le_bytes(b.subrange(off + 268, off + 272))
        &&& self.second_ref_link_expiration == spec_u32_from_le_bytes(b.subrange(off + 272, off + 276))
        &&& self.ref_program_expiration == spec_u32_from_le_bytes(b.subrange(off + 276, off + 280))
        &&& self.spot_trades == spec_u32_from_le_bytes(b.subrange(off + 280, off + 284))
        &&& self.perp_trades == spec_u32_from_le_bytes(b.subrange(off + 284, off + 288))
        &&& self.lp_trades == spec_u32_from_le_bytes(b.subrange(off + 288, off + 292))
        &&& self.points == spec_u32_from_le_bytes(b.subrange(off + 292, off + 296))
        &&& self.slot == spec_u32_from_le_bytes(b.subrange(off + 296, off + 300))
        &&& self.assets_count == spec_u32_from_le_bytes(b.subrange(off + 300, off + 304))
        &&& self.spot_filled_orders == spec_u32_from_le_bytes(b.subrange(off + 304, off + 308))
        &&& self.perp_filled_orders == spec_u32_from_le_bytes(b.subrange(off + 308, off + 312))
        &&& self.reserved_value1 == spec_i64_from_le_bytes(b.subrange(off + 312, off + 320))
        &&& self.reserved_value2 == spec_i64_from_le_bytes(b.subrange(off + 320, off + 328))
        &&& self.reserved_value3 == spec_i64_from_le_bytes(b.subrange(off + 328, off + 336))
        &&& self.reserved_value4 == spec_i64_from_le_bytes(b.subrange(off + 336, off + 344))
        &&& self.reserved_value5 == spec_i64_from_le_bytes(b.subrange(off + 344, off + 352))
        &&& self.reserved_value6 == spec_i64_from_le_bytes(b.subrange(off + 352, off + 360))
        &&& self.reserved_value7 == spec_i64_from_le_bytes(b.subrange(off + 360, off + 368))
        &&& self.reserved_value8 == spec_i64_from_le_bytes(b.subrange(off + 368, off + 376))
    }

    pub fn read_at(b: &[u8], off: usize) -> (r: ClientPrimaryAccountHeader)
        requires
            off + CLIENT_PRIMARY_ACCOUNT_HEADER_SIZE <= b@.len(),
        ensures
            r.matches_wire(b@, off as int),
    {
        let n = b.len();
        assert(off + 376 <= n);
        ClientPrimaryAccountHeader {
            discriminator: Discriminator::read_at(b, off),
            wallet_address: Address::read_at(b, off + 8),
            lut_address: Address::read_at(b, off + 40),
            ref_address: Address::read_at(b, off + 72),
            vm_wallet_address: Address::read_at(b, off + 104),
            vm_instr_0: read_u32(b, off + 136),
            vm_instr_1: read_u32(b, off + 140),
            vm_instr_2: read_u32(b, off + 144),
            vm_instr_3: read_u32(b, off + 148),
            vm_instr_4: read_u32(b, off + 152),
            vm_instr_5: read_u32(b, off + 156),
            vm_instr_6: read_u32(b, off + 160),
            vm_instr_7: read_u32(b, off + 164),
            vm_withdraw_token_id: read_u32(b, off + 168),
            vm_mask: read_u32(b, off + 172),
            vm_withdraw_amount: read_i64(b, off + 176),
            first_ref_link_discount: read_u64(b, off + 184),
            second_ref_link_discount: read_u64(b, off + 192),
            first_ref_link_ratio: read_u64(b, off + 200),
            second_ref_link_ratio: read_u64(b, off + 208),
            ref_program_discount: read_u64(b, off + 216),
            ref_program_ratio: read_u64(b, off + 224),
            reserved: read_i64(b, off + 232),
            mask: read_i64(b, off + 240),
            id: ClientId(read_u32(b, off + 248)),
            ref_client_id: ClientId(read_u32(b, off + 252)),
            ref_counter: read_u32(b, off + 256),
            first_ref_link_id: read_u32(b, off + 260),
            second_ref_link_id: read_u32(b, off + 264),
            first_ref_link_expiration: read_u32(b, off + 268),
            second_ref_link_expiration: read_u32(b, off + 272),
            ref_program_expiration: read_u32(b, off + 276),
            spot_trades: read_u32(b, off + 280),
            perp_trades: read_u32(b, off + 284),
            lp_trades: read_u32(b, off + 288),
            points: read_u32(b, off + 292),
            slot: read_u32(b, off + 296),
            assets_count: read_u32(b, off + 300),
            spot_filled_orders: read_u32(b, off + 304),
            perp_filled_orders: read_u32(b, off + 308),
            reserved_value1: read_i64(b, off + 312),
            reserved_value2: read_i64(b, off + 320),
            reserved_value3: read_i64(b, off + 328),
            reserved_value4: read_i64(b, off + 336),
            reserved_value5: read_i64(b, off + 344),
            reserved_value6: read_i64(b, off + 352),
            reserved_value7: read_i64(b, off + 360),
            reserved_value8: read_i64(b, off + 368),
        }
    }

    #[verifier::rlimit(100)]
    #[verifier::spinoff_prover]
    pub fn write(&self, out: &mut Vec<u8>)
        ensures
            final(out)@.len() == old(out)@.len() + CLIENT_PRIMARY_ACCOUNT_HEADER_SIZE,
            final(out)@.subrange(0, old(out)@.len() as int) == old(out)@,
            self.matches_wire(final(out)@, old(out)@.len() as int),
    {
        let ghost base = out@;
        put_u32(out, self.discriminator.tag.0);
        put_u32(out, self.discriminator.version.0);
        self.wallet_address.write(out);
        self.lut_address.write(out);
        self.ref_address.write(out);
        self.vm_wallet_address.write(out);
        put_u32(out, self.vm_instr_0);
        put_u32(out, self.vm_instr_1);
        put_u32(out, self.vm_instr_2);
        put_u32(out, self.vm_instr_3);
        put_u32(out, self.vm_instr_4);
        put_u32(out, self.vm_instr_5);
        put_u32(out, self.vm_instr_6);
        put_u32(out, self.vm_instr_7);
        put_u32(out, self.vm_withdraw_token_id);
        put_u32(out, self.vm_mask);
        put_i64(out, self.vm_withdraw_amount);
        put_u64(out, self.first_ref_link_discount);
        put_u64(out, self.second_ref_link_discount);
        put_u64(out, self.first_ref_link_ratio);
        put_u64(out, self.second_ref_link_ratio);
        put_u64(out, self.ref_program_discount);
        put_u64(out, self.ref_program_ratio);
        put_i64(out, self.reserved);
        put_i64(out, self.mask);
        put_u32(out, self.id.0);
        put_u32(out, self.ref_client_id.0);
        put_u32(out, self.ref_counter);
        put_u32(out, self.first_ref_link_id);
        put_u32(out, self.second_ref_link_id);
        put_u32(out, self.first_ref_link_expiration);
        put_u32(out, self.second_ref_link_expiration);
        put_u32(out, self.ref_program_expiration);
        put_u32(out, self.spot_trades);
        put_u32(out, self.perp_trades);
        put_u32(out, self.lp_trades);
        put_u32(out, self.points);
        put_u32(out, self.slot);
        put_u32(out, self.assets_count);
        put_u32(out, self.spot_filled_orders);
        put_u32(out, self.perp_filled_orders);
        put_i64(out, self.reserved_value1);
        put_i64(out, self.reserved_value2);
        put_i64(out, self.reserved_value3);
        put_i64(out, self.reserved_value4);
        put_i64(out, self.reserved_value5);
        put_i64(out, self.reserved_value6);
        put_i64(out, self.reserved_value7);
        put_i64(out, self.reserved_value8);
        proof {
            lemma_auto_spec_u16_to_from_le_bytes();
            lemma_auto_spec_u32_to_from_le_bytes();
            lemma_auto_spec_u64_to_from_le_bytes();
            lemma_auto_spec_i64_to_from_le_bytes();
            assert(out@ == base + spec_u32_to_le_bytes(self.discriminator.tag.0) + spec_u32_to_le_bytes(self.discriminator.version.0) + self.wallet_address.0@ + self.lut_address.0@ + self.ref_address.0@ + self.vm_wallet_address.0@ + spec_u32_to_le_bytes(self.vm_instr_0) + spec_u32_to_le_bytes(self.vm_instr_1) + spec_u32_to_le_bytes(self.vm_instr_2) + spec_u32_to_le_bytes(self.vm_instr_3) + spec_u32_to_le_bytes(self.vm_instr_4) + spec_u32_to_le_bytes(self.vm_instr_5) + spec_u32_to_le_bytes(self.vm_instr_6) + spec_u32_to_le_bytes(self.vm_instr_7) + spec_u32_to_le_bytes(self.vm_withdraw_token_id) + spec_u32_to_le_bytes(self.vm_mask) + spec_i64_to_le_bytes(self.vm_withdraw_amount) + spec_u64_to_le_bytes(self.first_ref_link_discount) + spec_u64_to_le_bytes(self.second_ref_link_discount) + spec_u64_to_le_bytes(self.first_ref_link_ratio) + spec_u64_to_le_bytes(self.second_ref_link_ratio) + spec_u64_to_le_bytes(self.ref_program_discount) + spec_u64_to_le_bytes(self.ref_program_ratio) + spec_i64_to_le_bytes(self.reserved) + spec_i64_to_le_bytes(self.mask) + spec_u32_to_le_bytes(self.id.0) + spec_u32_to_le_bytes(self.ref_client_id.0) + spec_u32_to_le_bytes(self.ref_counter) + spec_u32_to_le_bytes(self.first_ref_link_id) + spec_u32_to_le_bytes(self.second_ref_link_id) + spec_u32_to_le_bytes(self.first_ref_link_expiration) + spec_u32_to_le_bytes(self.second_ref_link_expiration) + spec_u32_to_le_bytes(self.ref_program_expiration) + spec_u32_to_le_bytes(self.spot_trades) + spec_u32_to_le_bytes(self.perp_trades) + spec_u32_to_le_bytes(self.lp_trades) + spec_u32_to_le_bytes(self.points) + spec_u32_to_le_bytes(self.slot) + spec_u32_to_le_bytes(self.assets_count) + spec_u32_to_le_bytes(self.spot_filled_orders) + spec_u32_to_le_bytes(self.perp_filled_orders) + spec_i64_to_le_bytes(self.reserved_value1) + spec_i64_to_le_bytes(self.reserved_value2) + spec_i64_to_le_bytes(self.reserved_value3) + spec_i64_to_le_bytes(self.reserved_value4) + spec_i64_to_le_bytes(self.reserved_value5) + spec_i64_to_le_bytes(self.reserved_value6) + spec_i64_to_le_bytes(self.reserved_value7) + spec_i64_to_le_bytes(self.reserved_value8));
            assert(out@.subrange(base.len() as int, base.len() as int + 4) =~= spec_u32_to_le_bytes(self.discriminator.tag.0));
            assert(out@.subrange(base.len() as int + 4, base.len() as int + 8) =~= spec_u32_to_le_bytes(self.discriminator.version.0));
            assert(out@.subrange(base.len() as int + 8, base.len() as int + 40) =~= self.wallet_address.0@);
            assert(out@.subrange(base.len() as int + 40, base.len() as int + 72) =~= self.lut_address.0@);
            assert(out@.subrange(base.len() as int + 72, base.len() as int + 104) =~= self.ref_address.0@);
            assert(out@.subrange(base.len() as int + 104, base.len() as int + 136) =~= self.vm_wallet_address.0@);
            assert(out@.subrange(base.len() as int + 136, base.len() as int + 140) =~= spec_u32_to_le_bytes(self.vm_instr_0));
            assert(out@.subrange(base.len() as int + 140, base.len() as int + 144) =~= spec_u32_to_le_bytes(self.vm_instr_1));
            assert(out@.subrange(base.len() as int + 144, base.len() as int + 148) =~= spec_u32_to_le_bytes(self.vm_instr_2));
            assert(out@.subrange(base.len() as int + 148, base.len() as int + 152) =~= spec_u32_to_le_bytes(self.vm_instr_3));
            assert(out@.subrange(base.len() as int + 152, base.len() as int + 156) =~= spec_u32_to_le_bytes(self.vm_instr_4));
            assert(out@.subrange(base.len() as int + 156, base.len() as int + 160) =~= spec_u32_to_le_bytes(self.vm_instr_5));
            assert(out@.subrange(base.len() as int + 160, base.len() as int + 164) =~= spec_u32_to_le_bytes(self.vm_instr_6));
            assert(out@.subrange(base.len() as int + 164, base.len() as int + 168) =~= spec_u32_to_le_bytes(self.vm_instr_7));
            assert(out@.subrange(base.len() as int + 168, base.len() as int + 172) =~= spec_u32_to_le_bytes(self.vm_withdraw_token_id));
            assert(out@.subrange(base.len() as int + 172, base.len() as int + 176) =~= spec_u32_to_le_bytes(self.vm_mask));
            assert(out@.subrange(base.len() as int + 176, base.len() as int + 184) =~= spec_i64_to_le_bytes(self.vm_withdraw_amount));
            assert(out@.subrange(base.len() as int + 184, base.len() as int + 192) =~= spec_u64_to_le_bytes(self.first_ref_link_discount));
            assert(out@.subrange(base.len() as int + 192, base.len() as int + 200) =~= spec_u64_to_le_bytes(self.second_ref_link_discount));
            assert(out@.subrange(base.len() as int + 200, base.len() as int + 208) =~= spec_u64_to_le_bytes(self.first_ref_link_ratio));
            assert(out@.subrange(base.len() as int + 208, base.len() as int + 216) =~= spec_u64_to_le_bytes(self.second_ref_link_ratio));
            assert(out@.subrange(base.len() as int + 216, base.len() as int + 224) =~= spec_u64_to_le_bytes(self.ref_program_discount));
            assert(out@.subrange(base.len() as int + 224, base.len() as int + 232) =~= spec_u64_to_le_bytes(self.ref_program_ratio));
            assert(out@.subrange(base.len() as int + 232, base.len() as int + 240) =~= spec_i64_to_le_bytes(self.reserved));
            assert(out@.subrange(base.len() as int + 240, base.len() as int + 248) =~= spec_i64_to_le_bytes(self.mask));
            assert(out@.subrange(base.len() as int + 248, base.len() as int + 252) =~= spec_u32_to_le_bytes(self.id.0));
            assert(out@.subrange(base.len() as int + 252, base.len() as int + 256) =~= spec_u32_to_le_bytes(self.ref_client_id.0));
            assert(out@.subrange(base.len() as int + 256, base.len() as int + 260) =~= spec_u32_to_le_bytes(self.ref_counter));
            assert(out@.subrange(base.len() as int + 260, base.len() as int + 264) =~= spec_u32_to_le_bytes(self.first_ref_link_id));
            assert(out@.subrange(base.len() as int + 264, base.len() as int + 268) =~= spec_u32_to_le_bytes(self.second_ref_link_id));
            assert(out@.subrange(base.len() as int + 268, base.len() as int + 272) =~= spec_u32_to_le_bytes(self.first_ref_link_expiration));
            assert(out@.subrange(base.len() as int + 272, base.len() as int + 276) =~= spec_u32_to_le_bytes(self.second_ref_link_expiration));
            assert(out@.subrange(base.len() as int + 276, base.len() as int + 280) =~= spec_u32_to_le_bytes(self.ref_program_expiration));
            assert(out@.subrange(base.len() as int + 280, base.len() as int + 284) =~= spec_u32_to_le_bytes(self.spot_trades));
            assert(out@.subrange(base.len() as int + 284, base.len() as int + 288) =~= spec_u32_to_le_bytes(self.perp_trades));
            assert(out@.subrange(base.len() as int + 288, base.len() as int + 292) =~= spec_u32_to_le_bytes(self.lp_trades));
            assert(out@.subrange(base.len() as int + 292, base.len() as int + 296) =~= spec_u32_to_le_bytes(self.points));
            assert(out@.subrange(base.len() as int + 296, base.len() as int + 300) =~= spec_u32_to_le_bytes(self.slot));
            assert(out@.subrange(base.len() as int + 300, base.len() as int + 304) =~= spec_u32_to_le_bytes(self.assets_count));
            assert(out@.subrange(base.len() as int + 304, base.len() as int + 308) =~= spec_u32_to_le_bytes(self.spot_filled_orders));
            assert(out@.subrange(base.len() as int + 308, base.len() as int + 312) =~= spec_u32_to_le_bytes(self.perp_filled_orders));
            assert(out@.subrange(base.len() as int + 312, base.len() as int + 320) =~= spec_i64_to_le_bytes(self.reserved_value1));
            assert(out@.subrange(base.len() as int + 320, base.len() as int + 328) =~= spec_i64_to_le_bytes(self.reserved_value2));
            assert(out@.subrange(base.len() as int + 328, base.len() as int + 336) =~= spec_i64_to_le_bytes(self.reserved_value3));
            assert(out@.subrange(base.len() as int + 336, base.len() as int + 344) =~= spec_i64_to_le_bytes(self.reserved_value4));
            assert(out@.subrange(base.len() as int + 344, base.len() as int + 352) =~= spec_i64_to_le_bytes(self.reserved_value5));
            assert(out@.subrange(base.len() as int + 352, base.len() as int + 360) =~= spec_i64_to_le_bytes(self.reserved_value6));
            assert(out@.subrange(base.len() as int + 360, base.len() as int + 368) =~= spec_i64_to_le_bytes(self.reserved_value7));
            assert(out@.subrange(base.len() as int + 368, base.len() as int + 376) =~= spec_i64_to_le_bytes(self.reserved_value8));
            assert(out@.subrange(0, base.len() as int) =~= base);
            assert(self.matches_wire(out@, base.len() as int));
        }
    }

    pub fn encode(&self) -> (r: Vec<u8>)
        ensures
            r@.len() == CLIENT_PRIMARY_ACCOUNT_HEADER_SIZE,
            self.matches_wire(r@, 0),
    {
        let mut out: Vec<u8> = Vec::new();
        self.write(&mut out);
        out
    }

    /// Re-validates the stored discriminator before any other field of
    /// the buffer may be trusted: the buffer must be long enough, carry
    /// the expected account tag, and carry the expected schema version.
    pub fn load(b: &[u8], address: &Address, expected_version: u32) -> (r: Result<Self, DeriverseErrorKind>)
        ensures
            ({
                let d = Discriminator::wire_at(b@, 0);
                if b@.len() < CLIENT_PRIMARY_ACCOUNT_HEADER_SIZE {
                    r == Err::<Self, DeriverseErrorKind>(DeriverseErrorKind::InvalidAccountSize { address: *address, account_type: AccountType::ClientPrimary, expected: CLIENT_PRIMARY_ACCOUNT_HEADER_SIZE, actual: b@.len() as usize })
                } else if d.tag.0 != AccountType::ClientPrimary.spec_as_tag() {
                    r == Err::<Self, DeriverseErrorKind>(DeriverseErrorKind::InvalidAccountTag { expected_account_type: AccountType::ClientPrimary, actual_tag: d.tag.0, address: *address })
                } else if d.version.0 != expected_version {
                    r == Err::<Self, DeriverseErrorKind>(DeriverseErrorKind::InvalidVersion { address: *address, account_type: AccountType::ClientPrimary, expected: expected_version, actual: d.version.0 })
                } else {
                    match r {
                        Ok(h) => h.matches_wire(b@, 0),
                        Err(_) => false,
                    }
                }
            }),
    {
        if b.len() < CLIENT_PRIMARY_ACCOUNT_HEADER_SIZE {
            return Err(DeriverseErrorKind::InvalidAccountSize { address: *address, account_type: AccountType::ClientPrimary, expected: CLIENT_PRIMARY_ACCOUNT_HEADER_SIZE, actual: b.len() });
        }
        let d = Discriminator::read_at(b, 0);
        let tag = AccountType::ClientPrimary.as_tag();
        if d.tag.0 != tag {
            return Err(DeriverseErrorKind::InvalidAccountTag { expected_account_type: AccountType::ClientPrimary, actual_tag: d.tag.0, address: *address });
        }
        if d.version.0 != expected_version {
            return Err(DeriverseErrorKind::InvalidVersion { address: *address, account_type: AccountType::ClientPrimary, expected: expected_version, actual: d.version.0 });
        }
        Ok(Self::read_at(b, 0))
    }
}

} // verus!
