//! Spot trading accounts: the shared trade-account header and the
//! per-client info records, indexed by the temporary client slot id.

use vstd::bytes::*;
use vstd::prelude::*;

use crate::codec::{
    lemma_auto_spec_i64_to_from_le_bytes, lemma_subrange_of_concat_left,
    lemma_subrange_of_concat_right, put_i64, put_u16, put_u32, put_u64, put_u8, read_i64,
    read_u16, read_u32, read_u64, read_u8, spec_i64_from_le_bytes, spec_i64_to_le_bytes,
};
use crate::errors::DeriverseErrorKind;
use crate::ids::{ClientId, InstrId};
use crate::types::{AccountType, Address, Discriminator};


verus! {

broadcast use lemma_subrange_of_concat_left, lemma_subrange_of_concat_right;

/// Header shared by every spot trading account of one instrument; the
/// const tag parameter keeps the discriminator tag distinct per account
/// kind.
#[derive(Clone, Copy, Debug, PartialEq)]
pub struct SpotTradeAccountHeader<const TAG: u32> {
    pub discriminator: Discriminator,
    pub instr_id: InstrId,
    pub slot: u32,
    pub asset_token_id: u32,
    pub crncy_token_id: u32,
}

pub const SPOT_TRADE_ACCOUNT_HEADER_SIZE: usize = 24;

impl<const TAG: u32> SpotTradeAccountHeader<TAG> {
    /// The `SpotTradeAccountHeader` image that starts at byte offset `off` of a buffer.
    pub open spec fn wire_at(b: Seq<u8>, off: int) -> SpotTradeAccountHeader<TAG> {
        SpotTradeAccountHeader {
            discriminator: Discriminator::wire_at(b, off),
            instr_id: InstrId(spec_u32_from_le_bytes(b.subrange(off + 8, off + 12))),
            slot: spec_u32_from_le_bytes(b.subrange(off + 12, off + 16)),
            asset_token_id: spec_u32_from_le_bytes(b.subrange(off + 16, off + 20)),
            crncy_token_id: spec_u32_from_le_bytes(b.subrange(off + 20, off + 24)),
        }
    }

    pub fn read_at(b: &[u8], off: usize) -> (r: SpotTradeAccountHeader<TAG>)
        requires
            off + SPOT_TRADE_ACCOUNT_HEADER_SIZE <= b@.len(),
        ensures
            r == Self::wire_at(b@, off as int),
    {
        let n = b.len();
        assert(off + 24 <= n);
        SpotTradeAccountHeader {
            discriminator: Discriminator::read_at(b, off),
            instr_id: InstrId(read_u32(b, off + 8)),
            slot: read_u32(b, off + 12),
            asset_token_id: read_u32(b, off + 16),
            crncy_token_id: read_u32(b, off + 20),
        }
    }

    pub fn write(&self, out: &mut Vec<u8>)
        ensures
            final(out)@.len() == old(out)@.len() + SPOT_TRADE_ACCOUNT_HEADER_SIZE,
            final(out)@.subrange(0, old(out)@.len() as int) == old(out)@,
            Self::wire_at(final(out)@, old(out)@.len() as int) == *self,
    {
        let ghost base = out@;
        put_u32(out, self.discriminator.tag.0);
        put_u32(out, self.discriminator.version.0);
        put_u32(out, self.instr_id.0);
        put_u32(out, self.slot);
        put_u32(out, self.asset_token_id);
        put_u32(out, self.crncy_token_id);
        proof {
            lemma_auto_spec_u16_to_from_le_bytes();
            lemma_auto_spec_u32_to_from_le_bytes();
            lemma_auto_spec_u64_to_from_le_bytes();
            lemma_auto_spec_i64_to_from_le_bytes();
            assert(out@ == base + spec_u32_to_le_bytes(self.discriminator.tag.0) + spec_u32_to_le_bytes(self.discriminator.version.0) + spec_u32_to_le_bytes(self.instr_id.0) + spec_u32_to_le_bytes(self.slot) + spec_u32_to_le_bytes(self.asset_token_id) + spec_u32_to_le_bytes(self.crncy_token_id));
            assert(out@.subrange(base.len() as int, base.len() as int + 4) =~= spec_u32_to_le_bytes(self.discriminator.tag.0));
            assert(out@.subrange(base.len() as int + 4, base.len() as int + 8) =~= spec_u32_to_le_bytes(self.discriminator.version.0));
            assert(out@.subrange(base.len() as int + 8, base.len() as int + 12) =~= spec_u32_to_le_bytes(self.instr_id.0));
            assert(out@.subrange(base.len() as int + 12, base.len() as int + 16) =~= spec_u32_to_le_bytes(self.slot));
            assert(out@.subrange(base.len() as int + 16, base.len() as int + 20) =~= spec_u32_to_le_bytes(self.asset_token_id));
            assert(out@.subrange(base.len() as int + 20, base.len() as int + 24) =~= spec_u32_to_le_bytes(self.crncy_token_id));
            assert(out@.subrange(0, base.len() as int) =~= base);
            assert(Self::wire_at(out@, base.len() as int) == *self);
        }
    }

    pub fn encode(&self) -> (r: Vec<u8>)
        ensures
            r@.len() == SPOT_TRADE_ACCOUNT_HEADER_SIZE,
            Self::wire_at(r@, 0) == *self,
    {
        let mut out: Vec<u8> = Vec::new();
        self.write(&mut out);
        out
    }

    /// Re-validates the stored discriminator before any other field of
    /// the buffer may be trusted: the buffer must be long enough, carry
    /// the expected account tag, and carry the expected schema version.
    pub fn load(b: &[u8], address: &Address, expected_version: u32) -> (r: Result<Self, DeriverseErrorKind>)
        ensures
            ({
                let d = Discriminator::wire_at(b@, 0);
                if b@.len() < SPOT_TRADE_ACCOUNT_HEADER_SIZE {
                    r == Err::<Self, DeriverseErrorKind>(match AccountType::spec_from_tag(TAG) {
                        Some(at) => DeriverseErrorKind::InvalidAccountSize { address: *address, account_type: at, expected: SPOT_TRADE_ACCOUNT_HEADER_SIZE, actual: b@.len() as usize },
                        None => DeriverseErrorKind::UnsupportedAccountTag { tag: TAG },
                    })
                } else if d.tag.0 != TAG {
                    r == Err::<Self, DeriverseErrorKind>(match AccountType::spec_from_tag(TAG) {
                        Some(at) => DeriverseErrorKind::InvalidAccountTag { expected_account_type: at, actual_tag: d.tag.0, address: *address },
                        None => DeriverseErrorKind::UnsupportedAccountTag { tag: TAG },
                    })
                } else if d.version.0 != expected_version {
                    r == Err::<Self, DeriverseErrorKind>(match AccountType::spec_from_tag(TAG) {
                        Some(at) => DeriverseErrorKind::InvalidVersion { address: *address, account_type: at, expected: expected_version, actual: d.version.0 },
                        None => DeriverseErrorKind::UnsupportedAccountTag { tag: TAG },
                    })
                } else {
                    r == Ok::<Self, DeriverseErrorKind>(Self::wire_at(b@, 0))
                }
            }),
    {
        if b.len() < SPOT_TRADE_ACCOUNT_HEADER_SIZE {
            return Err(match AccountType::from_tag(TAG) {
                Some(at) => DeriverseErrorKind::InvalidAccountSize { address: *address, account_type: at, expected: SPOT_TRADE_ACCOUNT_HEADER_SIZE, actual: b.len() },
                None => DeriverseErrorKind::UnsupportedAccountTag { tag: TAG },
            });
        }
        let d = Discriminator::read_at(b, 0);
        if d.tag.0 != TAG {
            return Err(match AccountType::from_tag(TAG) {
                Some(at) => DeriverseErrorKind::InvalidAccountTag { expected_account_type: at, actual_tag: d.tag.0, address: *address },
                None => DeriverseErrorKind::UnsupportedAccountTag { tag: TAG },
            });
        }
        if d.version.0 != expected_version {
            return Err(match AccountType::from_tag(TAG) {
                Some(at) => DeriverseErrorKind::InvalidVersion { address: *address, account_type: at, expected: expected_version, actual: d.version.0 },
                None => DeriverseErrorKind::UnsupportedAccountTag { tag: TAG },
            });
        }
        Ok(Self::read_at(b, 0))
    }
}

/// Spot Client Info: the original client id, the heads of the client
/// order lists, and the tokens available to withdraw.
#[derive(Clone, Copy, Debug, PartialEq)]
pub struct SpotClientInfo {
    pub client: ClientId,
    pub filled_orders: u32,
    pub bids_entry: u32,
    pub asks_entry: u32,
    pub avail_asset_tokens: i64,
    pub avail_crncy_tokens: i64,
}

pub const SPOT_CLIENT_INFO_SIZE: usize = 32;

impl SpotClientInfo {
    /// The `SpotClientInfo` image that starts at byte offset `off` of a buffer.
    pub open spec fn wire_at(b: Seq<u8>, off: int) -> SpotClientInfo {
        SpotClientInfo {
            client: ClientId(spec_u32_from_le_bytes(b.subrange(off, off + 4))),
            filled_orders: spec_u32_from_le_bytes(b.subrange(off + 4, off + 8)),
            bids_entry: spec_u32_from_le_bytes(b.subrange(off + 8, off + 12)),
            asks_entry: spec_u32_from_le_bytes(b.subrange(off + 12, off + 16)),
            avail_asset_tokens: spec_i64_from_le_bytes(b.subrange(off + 16, off + 24)),
            avail_crncy_tokens: spec_i64_from_le_bytes(b.subrange(off + 24, off + 32)),
        }
    }

    pub fn read_at(b: &[u8], off: usize) -> (r: SpotClientInfo)
        requires
            off + SPOT_CLIENT_INFO_SIZE <= b@.len(),
        ensures
            r == Self::wire_at(b@, off as int),
    {
        let n = b.len();
        assert(off + 32 <= n);
        SpotClientInfo {
            client: ClientId(read_u32(b, off)),
            filled_orders: read_u32(b, off + 4),
            bids_entry: read_u32(b, off + 8),
            asks_entry: read_u32(b, off + 12),
            avail_asset_tokens: read_i64(b, off + 16),
            avail_crncy_tokens: read_i64(b, off + 24),
        }
    }

    pub fn write(&self, out: &mut Vec<u8>)
        ensures
            final(out)@.len() == old(out)@.len() + SPOT_CLIENT_INFO_SIZE,
            final(out)@.subrange(0, old(out)@.len() as int) == old(out)@,
            Self::wire_at(final(out)@, old(out)@.len() as int) == *self,
    {
        let ghost base = out@;
        put_u32(out, self.client.0);
        put_u32(out, self.filled_orders);
        put_u32(out, self.bids_entry);
        put_u32(out, self.asks_entry);
        put_i64(out, self.avail_asset_tokens);
        put_i64(out, self.avail_crncy_tokens);
        proof {
            lemma_auto_spec_u16_to_from_le_bytes();
            lemma_auto_spec_u32_to_from_le_bytes();
            lemma_auto_spec_u64_to_from_le_bytes();
            lemma_auto_spec_i64_to_from_le_bytes();
            assert(out@ == base + spec_u32_to_le_bytes(self.client.0) + spec_u32_to_le_bytes(self.filled_orders) + spec_u32_to_le_bytes(self.bids_entry) + spec_u32_to_le_bytes(self.asks_entry) + spec_i64_to_le_bytes(self.avail_asset_tokens) + spec_i64_to_le_bytes(self.avail_crncy_tokens));
            assert(out@.subrange(base.len() as int, base.len() as int + 4) =~= spec_u32_to_le_bytes(self.client.0));
            assert(out@.subrange(base.len() as int + 4, base.len() as int + 8) =~= spec_u32_to_le_bytes(self.filled_orders));
            assert(out@.subrange(base.len() as int + 8, base.len() as int + 12) =~= spec_u32_to_le_bytes(self.bids_entry));
            assert(out@.subrange(base.len() as int + 12, base.len() as int + 16) =~= spec_u32_to_le_bytes(self.asks_entry));
            assert(out@.subrange(base.len() as int + 16, base.len() as int + 24) =~= spec_i64_to_le_bytes(self.avail_asset_tokens));
            assert(out@.subrange(base.len() as int + 24, base.len() as int + 32) =~= spec_i64_to_le_bytes(self.avail_crncy_tokens));
            assert(out@.subrange(0, base.len() as int) =~= base);
            assert(Self::wire_at(out@, base.len() as int) == *self);
        }
    }

    pub fn encode(&self) -> (r: Vec<u8>)
        ensures
            r@.len() == SPOT_CLIENT_INFO_SIZE,
            Self::wire_at(r@, 0) == *self,
    {
        let mut out: Vec<u8> = Vec::new();
        self.write(&mut out);
        out
    }
}

/// Spot Client Info 2: the tokens locked in resting orders and the
/// slots of the last updates per side.
#[derive(Clone, Copy, Debug, PartialEq)]
pub struct SpotClientInfo2 {
    pub in_orders_asset_tokens: i64,
    pub in_orders_crncy_tokens: i64,
    pub bid_slot: u32,
    pub ask_slot: u32,
    pub reserved: i64,
}

pub const SPOT_CLIENT_INFO2_SIZE: usize = 32;

impl SpotClientInfo2 {
    /// The `SpotClientInfo2` image that starts at byte offset `off` of a buffer.
    pub open spec fn wire_at(b: Seq<u8>, off: int) -> SpotClientInfo2 {
        SpotClientInfo2 {
            in_orders_asset_tokens: spec_i64_from_le_bytes(b.subrange(off, off + 8)),
            in_orders_crncy_tokens: spec_i64_from_le_bytes(b.subrange(off + 8, off + 16)),
            bid_slot: spec_u32_from_le_bytes(b.subrange(off + 16, off + 20)),
            ask_slot: spec_u32_from_le_bytes(b.subrange(off + 20, off + 24)),
            reserved: spec_i64_from_le_bytes(b.subrange(off + 24, off + 32)),
        }
    }

    pub fn read_at(b: &[u8], off: usize) -> (r: SpotClientInfo2)
        requires
            off + SPOT_CLIENT_INFO2_SIZE <= b@.len(),
        ensures
            r == Self::wire_at(b@, off as int),
    {
        let n = b.len();
        assert(off + 32 <= n);
        SpotClientInfo2 {
            in_orders_asset_tokens: read_i64(b, off),
            in_orders_crncy_tokens: read_i64(b, off + 8),
            bid_slot: read_u32(b, off + 16),
            ask_slot: read_u32(b, off + 20),
            reserved: read_i64(b, off + 24),
        }
    }

    pub fn write(&self, out: &mut Vec<u8>)
        ensures
            final(out)@.len() == old(out)@.len() + SPOT_CLIENT_INFO2_SIZE,
            final(out)@.subrange(0, old(out)@.len() as int) == old(out)@,
            Self::wire_at(final(out)@, old(out)@.len() as int) == *self,
    {
        let ghost base = out@;
        put_i64(out, self.in_orders_asset_tokens);
        put_i64(out, self.in_orders_crncy_tokens);
        put_u32(out, self.bid_slot);
        put_u32(out, self.ask_slot);
        put_i64(out, self.reserved);
        proof {
            lemma_auto_spec_u16_to_from_le_bytes();
            lemma_auto_spec_u32_to_from_le_bytes();
            lemma_auto_spec_u64_to_from_le_bytes();
            lemma_auto_spec_i64_to_from_le_bytes();
            assert(out@ == base + spec_i64_to_le_bytes(self.in_orders_asset_tokens) + spec_i64_to_le_bytes(self.in_orders_crncy_tokens) + spec_u32_to_le_bytes(self.bid_slot) + spec_u32_to_le_bytes(self.ask_slot) + spec_i64_to_le_bytes(self.reserved));
            assert(out@.subrange(base.len() as int, base.len() as int + 8) =~= spec_i64_to_le_bytes(self.in_orders_asset_tokens));
            assert(out@.subrange(base.len() as int + 8, base.len() as int + 16) =~= spec_i64_to_le_bytes(self.in_orders_crncy_tokens));
            assert(out@.subrange(base.len() as int + 16, base.len() as int + 20) =~= spec_u32_to_le_bytes(self.bid_slot));
            assert(out@.subrange(base.len() as int + 20, base.len() as int + 24) =~= spec_u32_to_le_bytes(self.ask_slot));
            assert(out@.subrange(base.len() as int + 24, base.len() as int + 32) =~= spec_i64_to_le_bytes(self.reserved));
            assert(out@.subrange(0, base.len() as int) =~= base);
            assert(Self::wire_at(out@, base.len() as int) == *self);
        }
    }

    pub fn encode(&self) -> (r: Vec<u8>)
        ensures
            r@.len() == SPOT_CLIENT_INFO2_SIZE,
            Self::wire_at(r@, 0) == *self,
    {
        let mut out: Vec<u8> = Vec::new();
        self.write(&mut out);
        out
    }
}

} // verus!
