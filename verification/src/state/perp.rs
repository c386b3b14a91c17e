//! Perp trading accounts: the shared trade-account header and the five
//! per-client info records, indexed by the temporary client slot id.

use vstd::bytes::*;
use vstd::prelude::*;

use crate::codec::{
    lemma_auto_spec_i64_to_from_le_bytes, lemma_subrange_of_concat_left,
    lemma_subrange_of_concat_right, put_i64, put_u16, put_u32, put_u64, put_u8, read_i64,
    read_u16, read_u32, read_u64, read_u8, spec_i64_from_le_bytes, spec_i64_to_le_bytes,
};
use crate::errors::DeriverseErrorKind;
use crate::ids::{ClientId, InstrId};
use crate::types::{AccountType, Address, Discriminator, OrderSide};


verus! {

broadcast use lemma_subrange_of_concat_left, lemma_subrange_of_concat_right;

/// Header shared by every perp trading account of one instrument; the
/// const tag parameter keeps the discriminator tag distinct per account
/// kind.
#[derive(Clone, Copy, Debug, PartialEq)]
pub struct PerpTradeAccountHeader<const TAG: u32> {
    pub discriminator: Discriminator,
    pub id: InstrId,
    pub slot: u32,
    pub asset_token_id: u32,
    pub crncy_token_id: u32,
}

pub const PERP_TRADE_ACCOUNT_HEADER_SIZE: usize = 24;

impl<const TAG: u32> PerpTradeAccountHeader<TAG> {
    /// The `PerpTradeAccountHeader` image that starts at byte offset `off` of a buffer.
    pub open spec fn wire_at(b: Seq<u8>, off: int) -> PerpTradeAccountHeader<TAG> {
        PerpTradeAccountHeader {
            discriminator: Discriminator::wire_at(b, off),
            id: InstrId(spec_u32_from_le_bytes(b.subrange(off + 8, off + 12))),
            slot: spec_u32_from_le_bytes(b.subrange(off + 12, off + 16)),
            asset_token_id: spec_u32_from_le_bytes(b.subrange(off + 16, off + 20)),
            crncy_token_id: spec_u32_from_le_bytes(b.subrange(off + 20, off + 24)),
        }
    }

    pub fn read_at(b: &[u8], off: usize) -> (r: PerpTradeAccountHeader<TAG>)
        requires
            off + PERP_TRADE_ACCOUNT_HEADER_SIZE <= b@.len(),
        ensures
            r == Self::wire_at(b@, off as int),
    {
        let n = b.len();
        assert(off + 24 <= n);
        PerpTradeAccountHeader {
            discriminator: Discriminator::read_at(b, off),
            id: InstrId(read_u32(b, off + 8)),
            slot: read_u32(b, off + 12),
            asset_token_id: read_u32(b, off + 16),
            crncy_token_id: read_u32(b, off + 20),
        }
    }

    pub fn write(&self, out: &mut Vec<u8>)
        ensures
            final(out)@.len() == old(out)@.len() + PERP_TRADE_ACCOUNT_HEADER_SIZE,
            final(out)@.subrange(0, old(out)@.len() as int) == old(out)@,
            Self::wire_at(final(out)@, old(out)@.len() as int) == *self,
    {
        let ghost base = out@;
        put_u32(out, self.discriminator.tag.0);
        put_u32(out, self.discriminator.version.0);
        put_u32(out, self.id.0);
        put_u32(out, self.slot);
        put_u32(out, self.asset_token_id);
        put_u32(out, self.crncy_token_id);
        proof {
            lemma_auto_spec_u16_to_from_le_bytes();
            lemma_auto_spec_u32_to_from_le_bytes();
            lemma_auto_spec_u64_to_from_le_bytes();
            lemma_auto_spec_i64_to_from_le_bytes();
            assert(out@ == base + spec_u32_to_le_bytes(self.discriminator.tag.0) + spec_u32_to_le_bytes(self.discriminator.version.0) + spec_u32_to_le_bytes(self.id.0) + spec_u32_to_le_bytes(self.slot) + spec_u32_to_le_bytes(self.asset_token_id) + spec_u32_to_le_bytes(self.crncy_token_id));
            assert(out@.subrange(base.len() as int, base.len() as int + 4) =~= spec_u32_to_le_bytes(self.discriminator.tag.0));
            assert(out@.subrange(base.len() as int + 4, base.len() as int + 8) =~= spec_u32_to_le_bytes(self.discriminator.version.0));
            assert(out@.subrange(base.len() as int + 8, base.len() as int + 12) =~= spec_u32_to_le_bytes(self.id.0));
            assert(out@.subrange(base.len() as int + 12, base.len() as int + 16) =~= spec_u32_to_le_bytes(self.slot));
            assert(out@.subrange(base.len() as int + 16, base.len() as int + 20) =~= spec_u32_to_le_bytes(self.asset_token_id));
            assert(out@.subrange(base.len() as int + 20, base.len() as int + 24) =~= spec_u32_to_le_bytes(self.crncy_token_id));
            assert(out@.subrange(0, base.len() as int) =~= base);
            assert(Self::wire_at(out@, base.len() as int) == *self);
        }
    }

    pub fn encode(&self) -> (r: Vec<u8>)
        ensures
            r@.len() == PERP_TRADE_ACCOUNT_HEADER_SIZE,
            Self::wire_at(r@, 0) == *self,
    {
        let mut out: Vec<u8> = Vec::new();
        self.write(&mut out);
        out
    }

    /// Re-validates the stored discriminator before any other field of
    /// the buffer may be trusted: the buffer must be long enough, carry
    /// the expected account tag, and carry the expected schema version.
    pub fn load(b: &[u8], address: &Address, expected_version: u32) -> (r: Result<Self, DeriverseErrorKind>)
        ensures
            ({
                let d = Discriminator::wire_at(b@, 0);
                if b@.len() < PERP_TRADE_ACCOUNT_HEADER_SIZE {
                    r == Err::<Self, DeriverseErrorKind>(match AccountType::spec_from_tag(TAG) {
                        Some(at) => DeriverseErrorKind::InvalidAccountSize { address: *address, account_type: at, expected: PERP_TRADE_ACCOUNT_HEADER_SIZE, actual: b@.len() as usize },
                        None => DeriverseErrorKind::UnsupportedAccountTag { tag: TAG },
                    })
                } else if d.tag.0 != TAG {
                    r == Err::<Self, DeriverseErrorKind>(match AccountType::spec_from_tag(TAG) {
                        Some(at) => DeriverseErrorKind::InvalidAccountTag { expected_account_type: at, actual_tag: d.tag.0, address: *address },
                        None => DeriverseErrorKind::UnsupportedAccountTag { tag: TAG },
                    })
                } else if d.version.0 != expected_version {
                    r == Err::<Self, DeriverseErrorKind>(match AccountType::spec_from_tag(TAG) {
                        Some(at) => DeriverseErrorKind::InvalidVersion { address: *address, account_type: at, expected: expected_version, actual: d.version.0 },
                        None => DeriverseErrorKind::UnsupportedAccountTag { tag: TAG },
                    })
                } else {
                    r == Ok::<Self, DeriverseErrorKind>(Self::wire_at(b@, 0))
                }
            }),
    {
        if b.len() < PERP_TRADE_ACCOUNT_HEADER_SIZE {
            return Err(match AccountType::from_tag(TAG) {
                Some(at) => DeriverseErrorKind::InvalidAccountSize { address: *address, account_type: at, expected: PERP_TRADE_ACCOUNT_HEADER_SIZE, actual: b.len() },
                None => DeriverseErrorKind::UnsupportedAccountTag { tag: TAG },
            });
        }
        let d = Discriminator::read_at(b, 0);
        if d.tag.0 != TAG {
            return Err(match AccountType::from_tag(TAG) {
                Some(at) => DeriverseErrorKind::InvalidAccountTag { expected_account_type: at, actual_tag: d.tag.0, address: *address },
                None => DeriverseErrorKind::UnsupportedAccountTag { tag: TAG },
            });
        }
        if d.version.0 != expected_version {
            return Err(match AccountType::from_tag(TAG) {
                Some(at) => DeriverseErrorKind::InvalidVersion { address: *address, account_type: at, expected: expected_version, actual: d.version.0 },
                None => DeriverseErrorKind::UnsupportedAccountTag { tag: TAG },
            });
        }
        Ok(Self::read_at(b, 0))
    }
}

/// Perp Client Info: available funds, the open position, and the funds
/// and contracts locked in resting orders.
#[derive(Clone, Copy, Debug, PartialEq)]
pub struct PerpClientInfo {
    pub funds: i64,
    pub perps: i64,
    pub in_orders_funds: i64,
    pub in_orders_perps: i64,
}

pub const PERP_CLIENT_INFO_SIZE: usize = 32;

impl PerpClientInfo {
    /// The `PerpClientInfo` image that starts at byte offset `off` of a buffer.
    pub open spec fn wire_at(b: Seq<u8>, off: int) -> PerpClientInfo {
        PerpClientInfo {
            funds: spec_i64_from_le_bytes(b.subrange(off, off + 8)),
            perps: spec_i64_from_le_bytes(b.subrange(off + 8, off + 16)),
            in_orders_funds: spec_i64_from_le_bytes(b.subrange(off + 16, off + 24)),
            in_orders_perps: spec_i64_from_le_bytes(b.subrange(off + 24, off + 32)),
        }
    }

    pub fn read_at(b: &[u8], off: usize) -> (r: PerpClientInfo)
        requires
            off + PERP_CLIENT_INFO_SIZE <= b@.len(),
        ensures
            r == Self::wire_at(b@, off as int),
    {
        let n = b.len();
        assert(off + 32 <= n);
        PerpClientInfo {
            funds: read_i64(b, off),
            perps: read_i64(b, off + 8),
            in_orders_funds: read_i64(b, off + 16),
            in_orders_perps: read_i64(b, off + 24),
        }
    }

    pub fn write(&self, out: &mut Vec<u8>)
        ensures
            final(out)@.len() == old(out)@.len() + PERP_CLIENT_INFO_SIZE,
            final(out)@.subrange(0, old(out)@.len() as int) == old(out)@,
            Self::wire_at(final(out)@, old(out)@.len() as int) == *self,
    {
        let ghost base = out@;
        put_i64(out, self.funds);
        put_i64(out, self.perps);
        put_i64(out, self.in_orders_funds);
        put_i64(out, self.in_orders_perps);
        proof {
            lemma_auto_spec_u16_to_from_le_bytes();
            lemma_auto_spec_u32_to_from_le_bytes();
            lemma_auto_spec_u64_to_from_le_bytes();
            lemma_auto_spec_i64_to_from_le_bytes();
            assert(out@ == base + spec_i64_to_le_bytes(self.funds) + spec_i64_to_le_bytes(self.perps) + spec_i64_to_le_bytes(self.in_orders_funds) + spec_i64_to_le_bytes(self.in_orders_perps));
            assert(out@.subrange(base.len() as int, base.len() as int + 8) =~= spec_i64_to_le_bytes(self.funds));
            assert(out@.subrange(base.len() as int + 8, base.len() as int + 16) =~= spec_i64_to_le_bytes(self.perps));
            assert(out@.subrange(base.len() as int + 16, base.len() as int + 24) =~= spec_i64_to_le_bytes(self.in_orders_funds));
            assert(out@.subrange(base.len() as int + 24, base.len() as int + 32) =~= spec_i64_to_le_bytes(self.in_orders_perps));
            assert(out@.subrange(0, base.len() as int) =~= base);
            assert(Self::wire_at(out@, base.len() as int) == *self);
        }
    }

    pub fn encode(&self) -> (r: Vec<u8>)
        ensures
            r@.len() == PERP_CLIENT_INFO_SIZE,
            Self::wire_at(r@, 0) == *self,
    {
        let mut out: Vec<u8> = Vec::new();
        self.write(&mut out);
        out
    }
}

/// Perp Client Info 2: position cost, realised result, last update
/// slots per side, the edge-price tree node, and the packed mask whose
/// low byte is the current leverage and whose top bit is the position
/// side.
#[derive(Clone, Copy, Debug, PartialEq)]
pub struct PerpClientInfo2 {
    pub cost: i64,
    pub result: i64,
    pub bid_slot: u32,
    pub ask_slot: u32,
    pub px_node: u32,
    pub mask: u32,
}

pub const PERP_CLIENT_INFO2_SIZE: usize = 32;

impl PerpClientInfo2 {
    /// The `PerpClientInfo2` image that starts at byte offset `off` of a buffer.
    pub open spec fn wire_at(b: Seq<u8>, off: int) -> PerpClientInfo2 {
        PerpClientInfo2 {
            cost: spec_i64_from_le_bytes(b.subrange(off, off + 8)),
            result: spec_i64_from_le_bytes(b.subrange(off + 8, off + 16)),
            bid_slot: spec_u32_from_le_bytes(b.subrange(off + 16, off + 20)),
            ask_slot: spec_u32_from_le_bytes(b.subrange(off + 20, off + 24)),
            px_node: spec_u32_from_le_bytes(b.subrange(off + 24, off + 28)),
            mask: spec_u32_from_le_bytes(b.subrange(off + 28, off + 32)),
        }
    }

    pub fn read_at(b: &[u8], off: usize) -> (r: PerpClientInfo2)
        requires
            off + PERP_CLIENT_INFO2_SIZE <= b@.len(),
        ensures
            r == Self::wire_at(b@, off as int),
    {
        let n = b.len();
        assert(off + 32 <= n);
        PerpClientInfo2 {
            cost: read_i64(b, off),
            result: read_i64(b, off + 8),
            bid_slot: read_u32(b, off + 16),
            ask_slot: read_u32(b, off + 20),
            px_node: read_u32(b, off + 24),
            mask: read_u32(b, off + 28),
        }
    }

    pub fn write(&self, out: &mut Vec<u8>)
        ensures
            final(out)@.len() == old(out)@.len() + PERP_CLIENT_INFO2_SIZE,
            final(out)@.subrange(0, old(out)@.len() as int) == old(out)@,
            Self::wire_at(final(out)@, old(out)@.len() as int) == *self,
    {
        let ghost base = out@;
        put_i64(out, self.cost);
        put_i64(out, self.result);
        put_u32(out, self.bid_slot);
        put_u32(out, self.ask_slot);
        put_u32(out, self.px_node);
        put_u32(out, self.mask);
        proof {
            lemma_auto_spec_u16_to_from_le_bytes();
            lemma_auto_spec_u32_to_from_le_bytes();
            lemma_auto_spec_u64_to_from_le_bytes();
            lemma_auto_spec_i64_to_from_le_bytes();
            assert(out@ == base + spec_i64_to_le_bytes(self.cost) + spec_i64_to_le_bytes(self.result) + spec_u32_to_le_bytes(self.bid_slot) + spec_u32_to_le_bytes(self.ask_slot) + spec_u32_to_le_bytes(self.px_node) + spec_u32_to_le_bytes(self.mask));
            assert(out@.subrange(base.len() as int, base.len() as int + 8) =~= spec_i64_to_le_bytes(self.cost));
            assert(out@.subrange(base.len() as int + 8, base.len() as int + 16) =~= spec_i64_to_le_bytes(self.result));
            assert(out@.subrange(base.len() as int + 16, base.len() as int + 20) =~= spec_u32_to_le_bytes(self.bid_slot));
            assert(out@.subrange(base.len() as int + 20, base.len() as int + 24) =~= spec_u32_to_le_bytes(self.ask_slot));
            assert(out@.subrange(base.len() as int + 24, base.len() as int + 28) =~= spec_u32_to_le_bytes(self.px_node));
            assert(out@.subrange(base.len() as int + 28, base.len() as int + 32) =~= spec_u32_to_le_bytes(self.mask));
            assert(out@.subrange(0, base.len() as int) =~= base);
            assert(Self::wire_at(out@, base.len() as int) == *self);
        }
    }

    pub fn encode(&self) -> (r: Vec<u8>)
        ensures
            r@.len() == PERP_CLIENT_INFO2_SIZE,
            Self::wire_at(r@, 0) == *self,
    {
        let mut out: Vec<u8> = Vec::new();
        self.write(&mut out);
        out
    }

    /// Records the ledger slot of the latest update on the given side.
    pub fn set_slot(&mut self, new_slot: u32, side: OrderSide)
        ensures
            final(self).bid_slot == if side == OrderSide::Bid { new_slot } else { old(self).bid_slot },
            final(self).ask_slot == if side == OrderSide::Ask { new_slot } else { old(self).ask_slot },
            final(self).cost == old(self).cost,
            final(self).result == old(self).result,
            final(self).px_node == old(self).px_node,
            final(self).mask == old(self).mask,
    {
        match side {
            OrderSide::Bid => self.bid_slot = new_slot,
            OrderSide::Ask => self.ask_slot = new_slot,
        }
    }

    /// Whether the position is short: the most significant bit of the mask.
    pub fn is_short(&self) -> (r: bool)
        ensures
            r == (self.mask & 0x80000000 != 0),
    {
        self.mask & 0x80000000 != 0
    }

    /// The client's current leverage, packed into the low byte of the mask.
    pub fn leverage(&self) -> (r: i64)
        ensures
            r == (self.mask & 0xFF) as i64,
    {
        (self.mask & 0xFF) as i64
    }
}

/// Perp Client Info 3: the original client id, the heads of the client
/// order lists, and the running fee and rebate statistics.
#[derive(Clone, Copy, Debug, PartialEq)]
pub struct PerpClientInfo3 {
    pub client: ClientId,
    pub filled_orders: u32,
    pub bids_entry: u32,
    pub asks_entry: u32,
    pub fees: i64,
    pub rebates: i64,
}

pub const PERP_CLIENT_INFO3_SIZE: usize = 32;

impl PerpClientInfo3 {
    /// The `PerpClientInfo3` image that starts at byte offset `off` of a buffer.
    pub open spec fn wire_at(b: Seq<u8>, off: int) -> PerpClientInfo3 {
        PerpClientInfo3 {
            client: ClientId(spec_u32_from_le_bytes(b.subrange(off, off + 4))),
            filled_orders: spec_u32_from_le_bytes(b.subrange(off + 4, off + 8)),
            bids_entry: spec_u32_from_le_bytes(b.subrange(off + 8, off + 12)),
            asks_entry: spec_u32_from_le_bytes(b.subrange(off + 12, off + 16)),
            fees: spec_i64_from_le_bytes(b.subrange(off + 16, off + 24)),
            rebates: spec_i64_from_le_bytes(b.subrange(off + 24, off + 32)),
        }
    }

    pub fn read_at(b: &[u8], off: usize) -> (r: PerpClientInfo3)
        requires
            off + PERP_CLIENT_INFO3_SIZE <= b@.len(),
        ensures
            r == Self::wire_at(b@, off as int),
    {
        let n = b.len();
        assert(off + 32 <= n);
        PerpClientInfo3 {
            client: ClientId(read_u32(b, off)),
            filled_orders: read_u32(b, off + 4),
            bids_entry: read_u32(b, off + 8),
            asks_entry: read_u32(b, off + 12),
            fees: read_i64(b, off + 16),
            rebates: read_i64(b, off + 24),
        }
    }

    pub fn write(&self, out: &mut Vec<u8>)
        ensures
            final(out)@.len() == old(out)@.len() + PERP_CLIENT_INFO3_SIZE,
            final(out)@.subrange(0, old(out)@.len() as int) == old(out)@,
            Self::wire_at(final(out)@, old(out)@.len() as int) == *self,
    {
        let ghost base = out@;
        put_u32(out, self.client.0);
        put_u32(out, self.filled_orders);
        put_u32(out, self.bids_entry);
        put_u32(out, self.asks_entry);
        put_i64(out, self.fees);
        put_i64(out, self.rebates);
        proof {
            lemma_auto_spec_u16_to_from_le_bytes();
            lemma_auto_spec_u32_to_from_le_bytes();
            lemma_auto_spec_u64_to_from_le_bytes();
            lemma_auto_spec_i64_to_from_le_bytes();
            assert(out@ == base + spec_u32_to_le_bytes(self.client.0) + spec_u32_to_le_bytes(self.filled_orders) + spec_u32_to_le_bytes(self.bids_entry) + spec_u32_to_le_bytes(self.asks_entry) + spec_i64_to_le_bytes(self.fees) + spec_i64_to_le_bytes(self.rebates));
            assert(out@.subrange(base.len() as int, base.len() as int + 4) =~= spec_u32_to_le_bytes(self.client.0));
            assert(out@.subrange(base.len() as int + 4, base.len() as int + 8) =~= spec_u32_to_le_bytes(self.filled_orders));
            assert(out@.subrange(base.len() as int + 8, base.len() as int + 12) =~= spec_u32_to_le_bytes(self.bids_entry));
            assert(out@.subrange(base.len() as int + 12, base.len() as int + 16) =~= spec_u32_to_le_bytes(self.asks_entry));
            assert(out@.subrange(base.len() as int + 16, base.len() as int + 24) =~= spec_i64_to_le_bytes(self.fees));
            assert(out@.subrange(base.len() as int + 24, base.len() as int + 32) =~= spec_i64_to_le_bytes(self.rebates));
            assert(out@.subrange(0, base.len() as int) =~= base);
            assert(Self::wire_at(out@, base.len() as int) == *self);
        }
    }

    pub fn encode(&self) -> (r: Vec<u8>)
        ensures
            r@.len() == PERP_CLIENT_INFO3_SIZE,
            Self::wire_at(r@, 0) == *self,
    {
        let mut out: Vec<u8> = Vec::new();
        self.write(&mut out);
        out
    }
}

/// Perp Client Info 4: socialized-loss bookkeeping.  The last rate is a
/// binary64 value carried as its raw bit pattern.
#[derive(Clone, Copy, Debug, PartialEq)]
pub struct PerpClientInfo4 {
    pub last_soc_loss_rate: u64,
    pub last_soc_loss_perps: i64,
    pub soc_loss_funds: i64,
    pub loss_coverage: i64,
}

pub const PERP_CLIENT_INFO4_SIZE: usize = 32;

impl PerpClientInfo4 {
    /// The `PerpClientInfo4` image that starts at byte offset `off` of a buffer.
    pub open spec fn wire_at(b: Seq<u8>, off: int) -> PerpClientInfo4 {
        PerpClientInfo4 {
            last_soc_loss_rate: spec_u64_from_le_bytes(b.subrange(off, off + 8)),
            last_soc_loss_perps: spec_i64_from_le_bytes(b.subrange(off + 8, off + 16)),
            soc_loss_funds: spec_i64_from_le_bytes(b.subrange(off + 16, off + 24)),
            loss_coverage: spec_i64_from_le_bytes(b.subrange(off + 24, off + 32)),
        }
    }

    pub fn read_at(b: &[u8], off: usize) -> (r: PerpClientInfo4)
        requires
            off + PERP_CLIENT_INFO4_SIZE <= b@.len(),
        ensures
            r == Self::wire_at(b@, off as int),
    {
        let n = b.len();
        assert(off + 32 <= n);
        PerpClientInfo4 {
            last_soc_loss_rate: read_u64(b, off),
            last_soc_loss_perps: read_i64(b, off + 8),
            soc_loss_funds: read_i64(b, off + 16),
            loss_coverage: read_i64(b, off + 24),
        }
    }

    pub fn write(&self, out: &mut Vec<u8>)
        ensures
            final(out)@.len() == old(out)@.len() + PERP_CLIENT_INFO4_SIZE,
            final(out)@.subrange(0, old(out)@.len() as int) == old(out)@,
            Self::wire_at(final(out)@, old(out)@.len() as int) == *self,
    {
        let ghost base = out@;
        put_u64(out, self.last_soc_loss_rate);
        put_i64(out, self.last_soc_loss_perps);
        put_i64(out, self.soc_loss_funds);
        put_i64(out, self.loss_coverage);
        proof {
            lemma_auto_spec_u16_to_from_le_bytes();
            lemma_auto_spec_u32_to_from_le_bytes();
            lemma_auto_spec_u64_to_from_le_bytes();
            lemma_auto_spec_i64_to_from_le_bytes();
            assert(out@ == base + spec_u64_to_le_bytes(self.last_soc_loss_rate) + spec_i64_to_le_bytes(self.last_soc_loss_perps) + spec_i64_to_le_bytes(self.soc_loss_funds) + spec_i64_to_le_bytes(self.loss_coverage));
            assert(out@.subrange(base.len() as int, base.len() as int + 8) =~= spec_u64_to_le_bytes(self.last_soc_loss_rate));
            assert(out@.subrange(base.len() as int + 8, base.len() as int + 16) =~= spec_i64_to_le_bytes(self.last_soc_loss_perps));
            assert(out@.subrange(base.len() as int + 16, base.len() as int + 24) =~= spec_i64_to_le_bytes(self.soc_loss_funds));
            assert(out@.subrange(base.len() as int + 24, base.len() as int + 32) =~= spec_i64_to_le_bytes(self.loss_coverage));
            assert(out@.subrange(0, base.len() as int) =~= base);
            assert(Self::wire_at(out@, base.len() as int) == *self);
        }
    }

    pub fn encode(&self) -> (r: Vec<u8>)
        ensures
            r@.len() == PERP_CLIENT_INFO4_SIZE,
            Self::wire_at(r@, 0) == *self,
    {
        let mut out: Vec<u8> = Vec::new();
        self.write(&mut out);
        out
    }
}

/// Perp Client Info 5: funding bookkeeping and the rebalance-tree key.
/// The last funding rate is a binary64 value carried as its raw bit
/// pattern.
#[derive(Clone, Copy, Debug, PartialEq)]
pub struct PerpClientInfo5 {
    pub funding_funds: i64,
    pub last_funding_rate: u64,
    pub reserved: i64,
    pub rebalance_time: u32,
    pub funding_node: u32,
}

pub const PERP_CLIENT_INFO5_SIZE: usize = 32;

impl PerpClientInfo5 {
    /// The `PerpClientInfo5` image that starts at byte offset `off` of a buffer.
    pub open spec fn wire_at(b: Seq<u8>, off: int) -> PerpClientInfo5 {
        PerpClientInfo5 {
            funding_funds: spec_i64_from_le_bytes(b.subrange(off, off + 8)),
            last_funding_rate: spec_u64_from_le_bytes(b.subrange(off + 8, off + 16)),
            reserved: spec_i64_from_le_bytes(b.subrange(off + 16, off + 24)),
            rebalance_time: spec_u32_from_le_bytes(b.subrange(off + 24, off + 28)),
            funding_node: spec_u32_from_le_bytes(b.subrange(off + 28, off + 32)),
        }
    }

    pub fn read_at(b: &[u8], off: usize) -> (r: PerpClientInfo5)
        requires
            off + PERP_CLIENT_INFO5_SIZE <= b@.len(),
        ensures
            r == Self::wire_at(b@, off as int),
    {
        let n = b.len();
        assert(off + 32 <= n);
        PerpClientInfo5 {
            funding_funds: read_i64(b, off),
            last_funding_rate: read_u64(b, off + 8),
            reserved: read_i64(b, off + 16),
            rebalance_time: read_u32(b, off + 24),
            funding_node: read_u32(b, off + 28),
        }
    }

    pub fn write(&self, out: &mut Vec<u8>)
        ensures
            final(out)@.len() == old(out)@.len() + PERP_CLIENT_INFO5_SIZE,
            final(out)@.subrange(0, old(out)@.len() as int) == old(out)@,
            Self::wire_at(final(out)@, old(out)@.len() as int) == *self,
    {
        let ghost base = out@;
        put_i64(out, self.funding_funds);
        put_u64(out, self.last_funding_rate);
        put_i64(out, self.reserved);
        put_u32(out, self.rebalance_time);
        put_u32(out, self.funding_node);
        proof {
            lemma_auto_spec_u16_to_from_le_bytes();
            lemma_auto_spec_u32_to_from_le_bytes();
            lemma_auto_spec_u64_to_from_le_bytes();
            lemma_auto_spec_i64_to_from_le_bytes();
            assert(out@ == base + spec_i64_to_le_bytes(self.funding_funds) + spec_u64_to_le_bytes(self.last_funding_rate) + spec_i64_to_le_bytes(self.reserved) + spec_u32_to_le_bytes(self.rebalance_time) + spec_u32_to_le_bytes(self.funding_node));
            assert(out@.subrange(base.len() as int, base.len() as int + 8) =~= spec_i64_to_le_bytes(self.funding_funds));
            assert(out@.subrange(base.len() as int + 8, base.len() as int + 16) =~= spec_u64_to_le_bytes(self.last_funding_rate));
            assert(out@.subrange(base.len() as int + 16, base.len() as int + 24) =~= spec_i64_to_le_bytes(self.reserved));
            assert(out@.subrange(base.len() as int + 24, base.len() as int + 28) =~= spec_u32_to_le_bytes(self.rebalance_time));
            assert(out@.subrange(base.len() as int + 28, base.len() as int + 32) =~= spec_u32_to_le_bytes(self.funding_node));
            assert(out@.subrange(0, base.len() as int) =~= base);
            assert(Self::wire_at(out@, base.len() as int) == *self);
        }
    }

    pub fn encode(&self) -> (r: Vec<u8>)
        ensures
            r@.len() == PERP_CLIENT_INFO5_SIZE,
            Self::wire_at(r@, 0) == *self,
    {
        let mut out: Vec<u8> = Vec::new();
        self.write(&mut out);
        out
    }
}

} // verus!
