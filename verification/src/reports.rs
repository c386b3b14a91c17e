//! Report codec: one fixed-width struct per business event, emitted as a
//! program log after a state-mutating instruction and consumed by
//! off-chain indexers matching on the leading tag byte.  Values are
//! already validated when a report is built, so reports only encode;
//! the decoders exist for the indexers and give the symmetric round trip.

use vstd::bytes::*;
use vstd::prelude::*;

use crate::codec::{
    lemma_auto_spec_i64_to_from_le_bytes, lemma_subrange_of_concat_left,
    lemma_subrange_of_concat_right, put_i64, put_u16, put_u32, put_u64, put_u8, read_i64,
    read_u16, read_u32, read_u64, read_u8, spec_i64_from_le_bytes, spec_i64_to_le_bytes,
};
use crate::ids::{ClientId, InstrId};
use crate::types::Address;

verus! {

broadcast use lemma_subrange_of_concat_left, lemma_subrange_of_concat_right;

// Log type tags, the first byte of every report.
pub const DEPOSIT: u8 = 1;

pub const WITHDRAW: u8 = 2;

pub const PERP_DEPOSIT: u8 = 3;

pub const PERP_WITHDRAW: u8 = 4;

pub const FEES_DEPOSIT: u8 = 5;

pub const FEES_WITHDRAW: u8 = 6;

pub const SPOT_LP_TRADE: u8 = 7;

pub const EARNINGS: u8 = 8;

pub const DRVS_AIRDROP: u8 = 9;

pub const SPOT_PLACE_ORDER: u8 = 10;

pub const SPOT_FILL_ORDER: u8 = 11;

pub const SPOT_NEW_ORDER: u8 = 12;

pub const SPOT_ORDER_CANCEL: u8 = 13;

pub const SPOT_ORDER_REVOKE: u8 = 14;

pub const SPOT_FEES: u8 = 15;

pub const SPOT_PLACE_MASS_CANCEL: u8 = 16;

pub const SPOT_MASS_CANCEL: u8 = 17;

pub const PERP_PLACE_ORDER: u8 = 18;

pub const PERP_FILL_ORDER: u8 = 19;

pub const PERP_NEW_ORDER: u8 = 20;

pub const PERP_ORDER_CANCEL: u8 = 21;

pub const PERP_ORDER_REVOKE: u8 = 22;

pub const PERP_FEES: u8 = 23;

pub const PERP_FUNDING: u8 = 24;

pub const PERP_PLACE_MASS_CANCEL: u8 = 25;

pub const PERP_MASS_CANCEL: u8 = 26;

pub const PERP_SOC_LOSS: u8 = 27;

pub const PERP_CHANGE_LEVERAGE: u8 = 28;

pub const BUY_MARKET_SEAT: u8 = 29;

pub const SELL_MARKET_SEAT: u8 = 30;

pub const SWAP_ORDER: u8 = 31;

pub const MOVE_SPOT: u8 = 32;

pub const NEW_PRIVATE_CLIENT: u8 = 33;

/// Report of one `PerpChangeLeverage` event.
#[derive(Clone, Copy, Debug, PartialEq)]
pub struct PerpChangeLeverageReport {
    pub tag: u8,
    pub leverage: u8,
    pub padding_u16: u16,
    pub client_id: ClientId,
    pub instr_id: InstrId,
    pub time: u32,
}

pub const PERP_CHANGE_LEVERAGE_REPORT_SIZE: usize = 16;

impl PerpChangeLeverageReport {
    /// The `PerpChangeLeverageReport` image that starts at byte offset `off` of a buffer.
    pub open spec fn wire_at(b: Seq<u8>, off: int) -> PerpChangeLeverageReport {
        PerpChangeLeverageReport {
            tag: b[off],
            leverage: b[off + 1],
            padding_u16: spec_u16_from_le_bytes(b.subrange(off + 2, off + 4)),
            client_id: ClientId(spec_u32_from_le_bytes(b.subrange(off + 4, off + 8))),
            instr_id: InstrId(spec_u32_from_le_bytes(b.subrange(off + 8, off + 12))),
            time: spec_u32_from_le_bytes(b.subrange(off + 12, off + 16)),
        }
    }

    pub fn read_at(b: &[u8], off: usize) -> (r: PerpChangeLeverageReport)
        requires
            off + PERP_CHANGE_LEVERAGE_REPORT_SIZE <= b@.len(),
        ensures
            r == Self::wire_at(b@, off as int),
    {
        let n = b.len();
        assert(off + 16 <= n);
        PerpChangeLeverageReport {
            tag: read_u8(b, off),
            leverage: read_u8(b, off + 1),
            padding_u16: read_u16(b, off + 2),
            client_id: ClientId(read_u32(b, off + 4)),
            instr_id: InstrId(read_u32(b, off + 8)),
            time: read_u32(b, off + 12),
        }
    }

    pub fn write(&self, out: &mut Vec<u8>)
        ensures
            final(out)@.len() == old(out)@.len() + PERP_CHANGE_LEVERAGE_REPORT_SIZE,
            final(out)@.subrange(0, old(out)@.len() as int) == old(out)@,
            Self::wire_at(final(out)@, old(out)@.len() as int) == *self,
    {
        let ghost base = out@;
        put_u8(out, self.tag);
        put_u8(out, self.leverage);
        put_u16(out, self.padding_u16);
        put_u32(out, self.client_id.0);
        put_u32(out, self.instr_id.0);
        put_u32(out, self.time);
        proof {
            lemma_auto_spec_u16_to_from_le_bytes();
            lemma_auto_spec_u32_to_from_le_bytes();
            lemma_auto_spec_u64_to_from_le_bytes();
            lemma_auto_spec_i64_to_from_le_bytes();
            assert(out@ == base + seq![self.tag] + seq![self.leverage] + spec_u16_to_le_bytes(self.padding_u16) + spec_u32_to_le_bytes(self.client_id.0) + spec_u32_to_le_bytes(self.instr_id.0) + spec_u32_to_le_bytes(self.time));
            assert(out@[base.len() as int] == self.tag);
            assert(out@[base.len() as int + 1] == self.leverage);
            assert(out@.subrange(base.len() as int + 2, base.len() as int + 4) =~= spec_u16_to_le_bytes(self.padding_u16));
            assert(out@.subrange(base.len() as int + 4, base.len() as int + 8) =~= spec_u32_to_le_bytes(self.client_id.0));
            assert(out@.subrange(base.len() as int + 8, base.len() as int + 12) =~= spec_u32_to_le_bytes(self.instr_id.0));
            assert(out@.subrange(base.len() as int + 12, base.len() as int + 16) =~= spec_u32_to_le_bytes(self.time));
            assert(out@.subrange(0, base.len() as int) =~= base);
            assert(Self::wire_at(out@, base.len() as int) == *self);
        }
    }

    pub fn encode(&self) -> (r: Vec<u8>)
        ensures
            r@.len() == PERP_CHANGE_LEVERAGE_REPORT_SIZE,
            Self::wire_at(r@, 0) == *self,
    {
        let mut out: Vec<u8> = Vec::new();
        self.write(&mut out);
        out
    }
}

/// Report of one `DrvsAirdrop` event.
#[derive(Clone, Copy, Debug, PartialEq)]
pub struct DrvsAirdropReport {
    pub tag: u8,
    pub padding_u8: u8,
    pub padding_u16: u16,
    pub client_id: ClientId,
    pub amount: i64,
    pub time: u32,
    pub padding_u32: u32,
}

pub const DRVS_AIRDROP_REPORT_SIZE: usize = 24;

impl DrvsAirdropReport {
    /// The `DrvsAirdropReport` image that starts at byte offset `off` of a buffer.
    pub open spec fn wire_at(b: Seq<u8>, off: int) -> DrvsAirdropReport {
        DrvsAirdropReport {
            tag: b[off],
            padding_u8: b[off + 1],
            padding_u16: spec_u16_from_le_bytes(b.subrange(off + 2, off + 4)),
            client_id: ClientId(spec_u32_from_le_bytes(b.subrange(off + 4, off + 8))),
            amount: spec_i64_from_le_bytes(b.subrange(off + 8, off + 16)),
            time: spec_u32_from_le_bytes(b.subrange(off + 16, off + 20)),
            padding_u32: spec_u32_from_le_bytes(b.subrange(off + 20, off + 24)),
        }
    }

    pub fn read_at(b: &[u8], off: usize) -> (r: DrvsAirdropReport)
        requires
            off + DRVS_AIRDROP_REPORT_SIZE <= b@.len(),
        ensures
            r == Self::wire_at(b@, off as int),
    {
        let n = b.len();
        assert(off + 24 <= n);
        DrvsAirdropReport {
            tag: read_u8(b, off),
            padding_u8: read_u8(b, off + 1),
            padding_u16: read_u16(b, off + 2),
            client_id: ClientId(read_u32(b, off + 4)),
            amount: read_i64(b, off + 8),
            time: read_u32(b, off + 16),
            padding_u32: read_u32(b, off + 20),
        }
    }

    pub fn write(&self, out: &mut Vec<u8>)
        ensures
            final(out)@.len() == old(out)@.len() + DRVS_AIRDROP_REPORT_SIZE,
            final(out)@.subrange(0, old(out)@.len() as int) == old(out)@,
            Self::wire_at(final(out)@, old(out)@.len() as int) == *self,
    {
        let ghost base = out@;
        put_u8(out, self.tag);
        put_u8(out, self.padding_u8);
        put_u16(out, self.padding_u16);
        put_u32(out, self.client_id.0);
        put_i64(out, self.amount);
        put_u32(out, self.time);
        put_u32(out, self.padding_u32);
        proof {
            lemma_auto_spec_u16_to_from_le_bytes();
            lemma_auto_spec_u32_to_from_le_bytes();
            lemma_auto_spec_u64_to_from_le_bytes();
            lemma_auto_spec_i64_to_from_le_bytes();
            assert(out@ == base + seq![self.tag] + seq![self.padding_u8] + spec_u16_to_le_bytes(self.padding_u16) + spec_u32_to_le_bytes(self.client_id.0) + spec_i64_to_le_bytes(self.amount) + spec_u32_to_le_bytes(self.time) + spec_u32_to_le_bytes(self.padding_u32));
            assert(out@[base.len() as int] == self.tag);
            assert(out@[base.len() as int + 1] == self.padding_u8);
            assert(out@.subrange(base.len() as int + 2, base.len() as int + 4) =~= spec_u16_to_le_bytes(self.padding_u16));
            assert(out@.subrange(base.len() as int + 4, base.len() as int + 8) =~= spec_u32_to_le_bytes(self.client_id.0));
            assert(out@.subrange(base.len() as int + 8, base.len() as int + 16) =~= spec_i64_to_le_bytes(self.amount));
            assert(out@.subrange(base.len() as int + 16, base.len() as int + 20) =~= spec_u32_to_le_bytes(self.time));
            assert(out@.subrange(base.len() as int + 20, base.len() as int + 24) =~= spec_u32_to_le_bytes(self.padding_u32));
            assert(out@.subrange(0, base.len() as int) =~= base);
            assert(Self::wire_at(out@, base.len() as int) == *self);
        }
    }

    pub fn encode(&self) -> (r: Vec<u8>)
        ensures
            r@.len() == DRVS_AIRDROP_REPORT_SIZE,
            Self::wire_at(r@, 0) == *self,
    {
        let mut out: Vec<u8> = Vec::new();
        self.write(&mut out);
        out
    }
}

/// Report of one `Earnings` event.
#[derive(Clone, Copy, Debug, PartialEq)]
pub struct EarningsReport {
    pub tag: u8,
    pub padding_u8: u8,
    pub padding_u16: u16,
    pub client_id: ClientId,
    pub token_id: u32,
    pub time: u32,
    pub amount: i64,
}

pub const EARNINGS_REPORT_SIZE: usize = 24;

impl EarningsReport {
    /// The `EarningsReport` image that starts at byte offset `off` of a buffer.
    pub open spec fn wire_at(b: Seq<u8>, off: int) -> EarningsReport {
        EarningsReport {
            tag: b[off],
            padding_u8: b[off + 1],
            padding_u16: spec_u16_from_le_bytes(b.subrange(off + 2, off + 4)),
            client_id: ClientId(spec_u32_from_le_bytes(b.subrange(off + 4, off + 8))),
            token_id: spec_u32_from_le_bytes(b.subrange(off + 8, off + 12)),
            time: spec_u32_from_le_bytes(b.subrange(off + 12, off + 16)),
            amount: spec_i64_from_le_bytes(b.subrange(off + 16, off + 24)),
        }
    }

    pub fn read_at(b: &[u8], off: usize) -> (r: EarningsReport)
        requires
            off + EARNINGS_REPORT_SIZE <= b@.len(),
        ensures
            r == Self::wire_at(b@, off as int),
    {
        let n = b.len();
        assert(off + 24 <= n);
        EarningsReport {
            tag: read_u8(b, off),
            padding_u8: read_u8(b, off + 1),
            padding_u16: read_u16(b, off + 2),
            client_id: ClientId(read_u32(b, off + 4)),
            token_id: read_u32(b, off + 8),
            time: read_u32(b, off + 12),
            amount: read_i64(b, off + 16),
        }
    }

    pub fn write(&self, out: &mut Vec<u8>)
        ensures
            final(out)@.len() == old(out)@.len() + EARNINGS_REPORT_SIZE,
            final(out)@.subrange(0, old(out)@.len() as int) == old(out)@,
            Self::wire_at(final(out)@, old(out)@.len() as int) == *self,
    {
        let ghost base = out@;
        put_u8(out, self.tag);
        put_u8(out, self.padding_u8);
        put_u16(out, self.padding_u16);
        put_u32(out, self.client_id.0);
        put_u32(out, self.token_id);
        put_u32(out, self.time);
        put_i64(out, self.amount);
        proof {
            lemma_auto_spec_u16_to_from_le_bytes();
            lemma_auto_spec_u32_to_from_le_bytes();
            lemma_auto_spec_u64_to_from_le_bytes();
            lemma_auto_spec_i64_to_from_le_bytes();
            assert(out@ == base + seq![self.tag] + seq![self.padding_u8] + spec_u16_to_le_bytes(self.padding_u16) + spec_u32_to_le_bytes(self.client_id.0) + spec_u32_to_le_bytes(self.token_id) + spec_u32_to_le_bytes(self.time) + spec_i64_to_le_bytes(self.amount));
            assert(out@[base.len() as int] == self.tag);
            assert(out@[base.len() as int + 1] == self.padding_u8);
            assert(out@.subrange(base.len() as int + 2, base.len() as int + 4) =~= spec_u16_to_le_bytes(self.padding_u16));
            assert(out@.subrange(base.len() as int + 4, base.len() as int + 8) =~= spec_u32_to_le_bytes(self.client_id.0));
            assert(out@.subrange(base.len() as int + 8, base.len() as int + 12) =~= spec_u32_to_le_bytes(self.token_id));
            assert(out@.subrange(base.len() as int + 12, base.len() as int + 16) =~= spec_u32_to_le_bytes(self.time));
            assert(out@.subrange(base.len() as int + 16, base.len() as int + 24) =~= spec_i64_to_le_bytes(self.amount));
            assert(out@.subrange(0, base.len() as int) =~= base);
            assert(Self::wire_at(out@, base.len() as int) == *self);
        }
    }

    pub fn encode(&self) -> (r: Vec<u8>)
        ensures
            r@.len() == EARNINGS_REPORT_SIZE,
            Self::wire_at(r@, 0) == *self,
    {
        let mut out: Vec<u8> = Vec::new();
        self.write(&mut out);
        out
    }
}

/// Report of one `Deposit` event.
#[derive(Clone, Copy, Debug, PartialEq)]
pub struct DepositReport {
    pub tag: u8,
    pub padding_u8: u8,
    pub padding_u16: u16,
    pub client_id: ClientId,
    pub token_id: u32,
    pub time: u32,
    pub amount: i64,
}

pub const DEPOSIT_REPORT_SIZE: usize = 24;

impl DepositReport {
    /// The `DepositReport` image that starts at byte offset `off` of a buffer.
    pub open spec fn wire_at(b: Seq<u8>, off: int) -> DepositReport {
        DepositReport {
            tag: b[off],
            padding_u8: b[off + 1],
            padding_u16: spec_u16_from_le_bytes(b.subrange(off + 2, off + 4)),
            client_id: ClientId(spec_u32_from_le_bytes(b.subrange(off + 4, off + 8))),
            token_id: spec_u32_from_le_bytes(b.subrange(off + 8, off + 12)),
            time: spec_u32_from_le_bytes(b.subrange(off + 12, off + 16)),
            amount: spec_i64_from_le_bytes(b.subrange(off + 16, off + 24)),
        }
    }

    pub fn read_at(b: &[u8], off: usize) -> (r: DepositReport)
        requires
            off + DEPOSIT_REPORT_SIZE <= b@.len(),
        ensures
            r == Self::wire_at(b@, off as int),
    {
        let n = b.len();
        assert(off + 24 <= n);
        DepositReport {
            tag: read_u8(b, off),
            padding_u8: read_u8(b, off + 1),
            padding_u16: read_u16(b, off + 2),
            client_id: ClientId(read_u32(b, off + 4)),
            token_id: read_u32(b, off + 8),
            time: read_u32(b, off + 12),
            amount: read_i64(b, off + 16),
        }
    }

    pub fn write(&self, out: &mut Vec<u8>)
        ensures
            final(out)@.len() == old(out)@.len() + DEPOSIT_REPORT_SIZE,
            final(out)@.subrange(0, old(out)@.len() as int) == old(out)@,
            Self::wire_at(final(out)@, old(out)@.len() as int) == *self,
    {
        let ghost base = out@;
        put_u8(out, self.tag);
        put_u8(out, self.padding_u8);
        put_u16(out, self.padding_u16);
        put_u32(out, self.client_id.0);
        put_u32(out, self.token_id);
        put_u32(out, self.time);
        put_i64(out, self.amount);
        proof {
            lemma_auto_spec_u16_to_from_le_bytes();
            lemma_auto_spec_u32_to_from_le_bytes();
            lemma_auto_spec_u64_to_from_le_bytes();
            lemma_auto_spec_i64_to_from_le_bytes();
            assert(out@ == base + seq![self.tag] + seq![self.padding_u8] + spec_u16_to_le_bytes(self.padding_u16) + spec_u32_to_le_bytes(self.client_id.0) + spec_u32_to_le_bytes(self.token_id) + spec_u32_to_le_bytes(self.time) + spec_i64_to_le_bytes(self.amount));
            assert(out@[base.len() as int] == self.tag);
            assert(out@[base.len() as int + 1] == self.padding_u8);
            assert(out@.subrange(base.len() as int + 2, base.len() as int + 4) =~= spec_u16_to_le_bytes(self.padding_u16));
            assert(out@.subrange(base.len() as int + 4, base.len() as int + 8) =~= spec_u32_to_le_bytes(self.client_id.0));
            assert(out@.subrange(base.len() as int + 8, base.len() as int + 12) =~= spec_u32_to_le_bytes(self.token_id));
            assert(out@.subrange(base.len() as int + 12, base.len() as int + 16) =~= spec_u32_to_le_bytes(self.time));
            assert(out@.subrange(base.len() as int + 16, base.len() as int + 24) =~= spec_i64_to_le_bytes(self.amount));
            assert(out@.subrange(0, base.len() as int) =~= base);
            assert(Self::wire_at(out@, base.len() as int) == *self);
        }
    }

    pub fn encode(&self) -> (r: Vec<u8>)
        ensures
            r@.len() == DEPOSIT_REPORT_SIZE,
            Self::wire_at(r@, 0) == *self,
    {
        let mut out: Vec<u8> = Vec::new();
        self.write(&mut out);
        out
    }
}

/// Report of one `FeesDeposit` event.
#[derive(Clone, Copy, Debug, PartialEq)]
pub struct FeesDepositReport {
    pub tag: u8,
    pub padding_u8: u8,
    pub padding_u16: u16,
    pub client_id: ClientId,
    pub token_id: u32,
    pub time: u32,
    pub amount: i64,
}

pub const FEES_DEPOSIT_REPORT_SIZE: usize = 24;

impl FeesDepositReport {
    /// The `FeesDepositReport` image that starts at byte offset `off` of a buffer.
    pub open spec fn wire_at(b: Seq<u8>, off: int) -> FeesDepositReport {
        FeesDepositReport {
            tag: b[off],
            padding_u8: b[off + 1],
            padding_u16: spec_u16_from_le_bytes(b.subrange(off + 2, off + 4)),
            client_id: ClientId(spec_u32_from_le_bytes(b.subrange(off + 4, off + 8))),
            token_id: spec_u32_from_le_bytes(b.subrange(off + 8, off + 12)),
            time: spec_u32_from_le_bytes(b.subrange(off + 12, off + 16)),
            amount: spec_i64_from_le_bytes(b.subrange(off + 16, off + 24)),
        }
    }

    pub fn read_at(b: &[u8], off: usize) -> (r: FeesDepositReport)
        requires
            off + FEES_DEPOSIT_REPORT_SIZE <= b@.len(),
        ensures
            r == Self::wire_at(b@, off as int),
    {
        let n = b.len();
        assert(off + 24 <= n);
        FeesDepositReport {
            tag: read_u8(b, off),
            padding_u8: read_u8(b, off + 1),
            padding_u16: read_u16(b, off + 2),
            client_id: ClientId(read_u32(b, off + 4)),
            token_id: read_u32(b, off + 8),
            time: read_u32(b, off + 12),
            amount: read_i64(b, off + 16),
        }
    }

    pub fn write(&self, out: &mut Vec<u8>)
        ensures
            final(out)@.len() == old(out)@.len() + FEES_DEPOSIT_REPORT_SIZE,
            final(out)@.subrange(0, old(out)@.len() as int) == old(out)@,
            Self::wire_at(final(out)@, old(out)@.len() as int) == *self,
    {
        let ghost base = out@;
        put_u8(out, self.tag);
        put_u8(out, self.padding_u8);
        put_u16(out, self.padding_u16);
        put_u32(out, self.client_id.0);
        put_u32(out, self.token_id);
        put_u32(out, self.time);
        put_i64(out, self.amount);
        proof {
            lemma_auto_spec_u16_to_from_le_bytes();
            lemma_auto_spec_u32_to_from_le_bytes();
            lemma_auto_spec_u64_to_from_le_bytes();
            lemma_auto_spec_i64_to_from_le_bytes();
            assert(out@ == base + seq![self.tag] + seq![self.padding_u8] + spec_u16_to_le_bytes(self.padding_u16) + spec_u32_to_le_bytes(self.client_id.0) + spec_u32_to_le_bytes(self.token_id) + spec_u32_to_le_bytes(self.time) + spec_i64_to_le_bytes(self.amount));
            assert(out@[base.len() as int] == self.tag);
            assert(out@[base.len() as int + 1] == self.padding_u8);
            assert(out@.subrange(base.len() as int + 2, base.len() as int + 4) =~= spec_u16_to_le_bytes(self.padding_u16));
            assert(out@.subrange(base.len() as int + 4, base.len() as int + 8) =~= spec_u32_to_le_bytes(self.client_id.0));
            assert(out@.subrange(base.len() as int + 8, base.len() as int + 12) =~= spec_u32_to_le_bytes(self.token_id));
            assert(out@.subrange(base.len() as int + 12, base.len() as int + 16) =~= spec_u32_to_le_bytes(self.time));
            assert(out@.subrange(base.len() as int + 16, base.len() as int + 24) =~= spec_i64_to_le_bytes(self.amount));
            assert(out@.subrange(0, base.len() as int) =~= base);
            assert(Self::wire_at(out@, base.len() as int) == *self);
        }
    }

    pub fn encode(&self) -> (r: Vec<u8>)
        ensures
            r@.len() == FEES_DEPOSIT_REPORT_SIZE,
            Self::wire_at(r@, 0) == *self,
    {
        let mut out: Vec<u8> = Vec::new();
        self.write(&mut out);
        out
    }
}

/// Report of one `FeesWithdraw` event.
#[derive(Clone, Copy, Debug, PartialEq)]
pub struct FeesWithdrawReport {
    pub tag: u8,
    pub padding_u8: u8,
    pub padding_u16: u16,
    pub client_id: ClientId,
    pub token_id: u32,
    pub time: u32,
    pub amount: i64,
}

pub const FEES_WITHDRAW_REPORT_SIZE: usize = 24;

impl FeesWithdrawReport {
    /// The `FeesWithdrawReport` image that starts at byte offset `off` of a buffer.
    pub open spec fn wire_at(b: Seq<u8>, off: int) -> FeesWithdrawReport {
        FeesWithdrawReport {
            tag: b[off],
            padding_u8: b[off + 1],
            padding_u16: spec_u16_from_le_bytes(b.subrange(off + 2, off + 4)),
            client_id: ClientId(spec_u32_from_le_bytes(b.subrange(off + 4, off + 8))),
            token_id: spec_u32_from_le_bytes(b.subrange(off + 8, off + 12)),
            time: spec_u32_from_le_bytes(b.subrange(off + 12, off + 16)),
            amount: spec_i64_from_le_bytes(b.subrange(off + 16, off + 24)),
        }
    }

    pub fn read_at(b: &[u8], off: usize) -> (r: FeesWithdrawReport)
        requires
            off + FEES_WITHDRAW_REPORT_SIZE <= b@.len(),
        ensures
            r == Self::wire_at(b@, off as int),
    {
        let n = b.len();
        assert(off + 24 <= n);
        FeesWithdrawReport {
            tag: read_u8(b, off),
            padding_u8: read_u8(b, off + 1),
            padding_u16: read_u16(b, off + 2),
            client_id: ClientId(read_u32(b, off + 4)),
            token_id: read_u32(b, off + 8),
            time: read_u32(b, off + 12),
            amount: read_i64(b, off + 16),
        }
    }

    pub fn write(&self, out: &mut Vec<u8>)
        ensures
            final(out)@.len() == old(out)@.len() + FEES_WITHDRAW_REPORT_SIZE,
            final(out)@.subrange(0, old(out)@.len() as int) == old(out)@,
            Self::wire_at(final(out)@, old(out)@.len() as int) == *self,
    {
        let ghost base = out@;
        put_u8(out, self.tag);
        put_u8(out, self.padding_u8);
        put_u16(out, self.padding_u16);
        put_u32(out, self.client_id.0);
        put_u32(out, self.token_id);
        put_u32(out, self.time);
        put_i64(out, self.amount);
        proof {
            lemma_auto_spec_u16_to_from_le_bytes();
            lemma_auto_spec_u32_to_from_le_bytes();
            lemma_auto_spec_u64_to_from_le_bytes();
            lemma_auto_spec_i64_to_from_le_bytes();
            assert(out@ == base + seq![self.tag] + seq![self.padding_u8] + spec_u16_to_le_bytes(self.padding_u16) + spec_u32_to_le_bytes(self.client_id.0) + spec_u32_to_le_bytes(self.token_id) + spec_u32_to_le_bytes(self.time) + spec_i64_to_le_bytes(self.amount));
            assert(out@[base.len() as int] == self.tag);
            assert(out@[base.len() as int + 1] == self.padding_u8);
            assert(out@.subrange(base.len() as int + 2, base.len() as int + 4) =~= spec_u16_to_le_bytes(self.padding_u16));
            assert(out@.subrange(base.len() as int + 4, base.len() as int + 8) =~= spec_u32_to_le_bytes(self.client_id.0));
            assert(out@.subrange(base.len() as int + 8, base.len() as int + 12) =~= spec_u32_to_le_bytes(self.token_id));
            assert(out@.subrange(base.len() as int + 12, base.len() as int + 16) =~= spec_u32_to_le_bytes(self.time));
            assert(out@.subrange(base.len() as int + 16, base.len() as int + 24) =~= spec_i64_to_le_bytes(self.amount));
            assert(out@.subrange(0, base.len() as int) =~= base);
            assert(Self::wire_at(out@, base.len() as int) == *self);
        }
    }

    pub fn encode(&self) -> (r: Vec<u8>)
        ensures
            r@.len() == FEES_WITHDRAW_REPORT_SIZE,
            Self::wire_at(r@, 0) == *self,
    {
        let mut out: Vec<u8> = Vec::new();
        self.write(&mut out);
        out
    }
}

/// Report of one `PerpDeposit` event.
#[derive(Clone, Copy, Debug, PartialEq)]
pub struct PerpDepositReport {
    pub tag: u8,
    pub padding_u8: u8,
    pub padding_u16: u16,
    pub client_id: ClientId,
    pub instr_id: InstrId,
    pub time: u32,
    pub amount: i64,
}

pub const PERP_DEPOSIT_REPORT_SIZE: usize = 24;

impl PerpDepositReport {
    /// The `PerpDepositReport` image that starts at byte offset `off` of a buffer.
    pub open spec fn wire_at(b: Seq<u8>, off: int) -> PerpDepositReport {
        PerpDepositReport {
            tag: b[off],
            padding_u8: b[off + 1],
            padding_u16: spec_u16_from_le_bytes(b.subrange(off + 2, off + 4)),
            client_id: ClientId(spec_u32_from_le_bytes(b.subrange(off + 4, off + 8))),
            instr_id: InstrId(spec_u32_from_le_bytes(b.subrange(off + 8, off + 12))),
            time: spec_u32_from_le_bytes(b.subrange(off + 12, off + 16)),
            amount: spec_i64_from_le_bytes(b.subrange(off + 16, off + 24)),
        }
    }

    pub fn read_at(b: &[u8], off: usize) -> (r: PerpDepositReport)
        requires
            off + PERP_DEPOSIT_REPORT_SIZE <= b@.len(),
        ensures
            r == Self::wire_at(b@, off as int),
    {
        let n = b.len();
        assert(off + 24 <= n);
        PerpDepositReport {
            tag: read_u8(b, off),
            padding_u8: read_u8(b, off + 1),
            padding_u16: read_u16(b, off + 2),
            client_id: ClientId(read_u32(b, off + 4)),
            instr_id: InstrId(read_u32(b, off + 8)),
            time: read_u32(b, off + 12),
            amount: read_i64(b, off + 16),
        }
    }

    pub fn write(&self, out: &mut Vec<u8>)
        ensures
            final(out)@.len() == old(out)@.len() + PERP_DEPOSIT_REPORT_SIZE,
            final(out)@.subrange(0, old(out)@.len() as int) == old(out)@,
            Self::wire_at(final(out)@, old(out)@.len() as int) == *self,
    {
        let ghost base = out@;
        put_u8(out, self.tag);
        put_u8(out, self.padding_u8);
        put_u16(out, self.padding_u16);
        put_u32(out, self.client_id.0);
        put_u32(out, self.instr_id.0);
        put_u32(out, self.time);
        put_i64(out, self.amount);
        proof {
            lemma_auto_spec_u16_to_from_le_bytes();
            lemma_auto_spec_u32_to_from_le_bytes();
            lemma_auto_spec_u64_to_from_le_bytes();
            lemma_auto_spec_i64_to_from_le_bytes();
            assert(out@ == base + seq![self.tag] + seq![self.padding_u8] + spec_u16_to_le_bytes(self.padding_u16) + spec_u32_to_le_bytes(self.client_id.0) + spec_u32_to_le_bytes(self.instr_id.0) + spec_u32_to_le_bytes(self.time) + spec_i64_to_le_bytes(self.amount));
            assert(out@[base.len() as int] == self.tag);
            assert(out@[base.len() as int + 1] == self.padding_u8);
            assert(out@.subrange(base.len() as int + 2, base.len() as int + 4) =~= spec_u16_to_le_bytes(self.padding_u16));
            assert(out@.subrange(base.len() as int + 4, base.len() as int + 8) =~= spec_u32_to_le_bytes(self.client_id.0));
            assert(out@.subrange(base.len() as int + 8, base.len() as int + 12) =~= spec_u32_to_le_bytes(self.instr_id.0));
            assert(out@.subrange(base.len() as int + 12, base.len() as int + 16) =~= spec_u32_to_le_bytes(self.time));
            assert(out@.subrange(base.len() as int + 16, base.len() as int + 24) =~= spec_i64_to_le_bytes(self.amount));
            assert(out@.subrange(0, base.len() as int) =~= base);
            assert(Self::wire_at(out@, base.len() as int) == *self);
        }
    }

    pub fn encode(&self) -> (r: Vec<u8>)
        ensures
            r@.len() == PERP_DEPOSIT_REPORT_SIZE,
            Self::wire_at(r@, 0) == *self,
    {
        let mut out: Vec<u8> = Vec::new();
        self.write(&mut out);
        out
    }
}

/// Report of one `BuyMarketSeat` event.
#[derive(Clone, Copy, Debug, PartialEq)]
pub struct BuyMarketSeatReport {
    pub tag: u8,
    pub padding_u8: u8,
    pub padding_u16: u16,
    pub client_id: ClientId,
    pub instr_id: InstrId,
    pub time: u32,
    pub amount: i64,
    pub seat_price: i64,
}

pub const BUY_MARKET_SEAT_REPORT_SIZE: usize = 32;

impl BuyMarketSeatReport {
    /// The `BuyMarketSeatReport` image that starts at byte offset `off` of a buffer.
    pub open spec fn wire_at(b: Seq<u8>, off: int) -> BuyMarketSeatReport {
        BuyMarketSeatReport {
            tag: b[off],
            padding_u8: b[off + 1],
            padding_u16: spec_u16_from_le_bytes(b.subrange(off + 2, off + 4)),
            client_id: ClientId(spec_u32_from_le_bytes(b.subrange(off + 4, off + 8))),
            instr_id: InstrId(spec_u32_from_le_bytes(b.subrange(off + 8, off + 12))),
            time: spec_u32_from_le_bytes(b.subrange(off + 12, off + 16)),
            amount: spec_i64_from_le_bytes(b.subrange(off + 16, off + 24)),
            seat_price: spec_i64_from_le_bytes(b.subrange(off + 24, off + 32)),
        }
    }

    pub fn read_at(b: &[u8], off: usize) -> (r: BuyMarketSeatReport)
        requires
            off + BUY_MARKET_SEAT_REPORT_SIZE <= b@.len(),
        ensures
            r == Self::wire_at(b@, off as int),
    {
        let n = b.len();
        assert(off + 32 <= n);
        BuyMarketSeatReport {
            tag: read_u8(b, off),
            padding_u8: read_u8(b, off + 1),
            padding_u16: read_u16(b, off + 2),
            client_id: ClientId(read_u32(b, off + 4)),
            instr_id: InstrId(read_u32(b, off + 8)),
            time: read_u32(b, off + 12),
            amount: read_i64(b, off + 16),
            seat_price: read_i64(b, off + 24),
        }
    }

    pub fn write(&self, out: &mut Vec<u8>)
        ensures
            final(out)@.len() == old(out)@.len() + BUY_MARKET_SEAT_REPORT_SIZE,
            final(out)@.subrange(0, old(out)@.len() as int) == old(out)@,
            Self::wire_at(final(out)@, old(out)@.len() as int) == *self,
    {
        let ghost base = out@;
        put_u8(out, self.tag);
        put_u8(out, self.padding_u8);
        put_u16(out, self.padding_u16);
        put_u32(out, self.client_id.0);
        put_u32(out, self.instr_id.0);
        put_u32(out, self.time);
        put_i64(out, self.amount);
        put_i64(out, self.seat_price);
        proof {
            lemma_auto_spec_u16_to_from_le_bytes();
            lemma_auto_spec_u32_to_from_le_bytes();
            lemma_auto_spec_u64_to_from_le_bytes();
            lemma_auto_spec_i64_to_from_le_bytes();
            assert(out@ == base + seq![self.tag] + seq![self.padding_u8] + spec_u16_to_le_bytes(self.padding_u16) + spec_u32_to_le_bytes(self.client_id.0) + spec_u32_to_le_bytes(self.instr_id.0) + spec_u32_to_le_bytes(self.time) + spec_i64_to_le_bytes(self.amount) + spec_i64_to_le_bytes(self.seat_price));
            assert(out@[base.len() as int] == self.tag);
            assert(out@[base.len() as int + 1] == self.padding_u8);
            assert(out@.subrange(base.len() as int + 2, base.len() as int + 4) =~= spec_u16_to_le_bytes(self.padding_u16));
            assert(out@.subrange(base.len() as int + 4, base.len() as int + 8) =~= spec_u32_to_le_bytes(self.client_id.0));
            assert(out@.subrange(base.len() as int + 8, base.len() as int + 12) =~= spec_u32_to_le_bytes(self.instr_id.0));
            assert(out@.subrange(base.len() as int + 12, base.len() as int + 16) =~= spec_u32_to_le_bytes(self.time));
            assert(out@.subrange(base.len() as int + 16, base.len() as int + 24) =~= spec_i64_to_le_bytes(self.amount));
            assert(out@.subrange(base.len() as int + 24, base.len() as int + 32) =~= spec_i64_to_le_bytes(self.seat_price));
            assert(out@.subrange(0, base.len() as int) =~= base);
            assert(Self::wire_at(out@, base.len() as int) == *self);
        }
    }

    pub fn encode(&self) -> (r: Vec<u8>)
        ensures
            r@.len() == BUY_MARKET_SEAT_REPORT_SIZE,
            Self::wire_at(r@, 0) == *self,
    {
        let mut out: Vec<u8> = Vec::new();
        self.write(&mut out);
        out
    }
}

/// Report of one `SellMarketSeat` event.
#[derive(Clone, Copy, Debug, PartialEq)]
pub struct SellMarketSeatReport {
    pub tag: u8,
    pub padding_u8: u8,
    pub padding_u16: u16,
    pub client_id: ClientId,
    pub instr_id: InstrId,
    pub time: u32,
    pub seat_price: i64,
}

pub const SELL_MARKET_SEAT_REPORT_SIZE: usize = 24;

impl SellMarketSeatReport {
    /// The `SellMarketSeatReport` image that starts at byte offset `off` of a buffer.
    pub open spec fn wire_at(b: Seq<u8>, off: int) -> SellMarketSeatReport {
        SellMarketSeatReport {
            tag: b[off],
            padding_u8: b[off + 1],
            padding_u16: spec_u16_from_le_bytes(b.subrange(off + 2, off + 4)),
            client_id: ClientId(spec_u32_from_le_bytes(b.subrange(off + 4, off + 8))),
            instr_id: InstrId(spec_u32_from_le_bytes(b.subrange(off + 8, off + 12))),
            time: spec_u32_from_le_bytes(b.subrange(off + 12, off + 16)),
            seat_price: spec_i64_from_le_bytes(b.subrange(off + 16, off + 24)),
        }
    }

    pub fn read_at(b: &[u8], off: usize) -> (r: SellMarketSeatReport)
        requires
            off + SELL_MARKET_SEAT_REPORT_SIZE <= b@.len(),
        ensures
            r == Self::wire_at(b@, off as int),
    {
        let n = b.len();
        assert(off + 24 <= n);
        SellMarketSeatReport {
            tag: read_u8(b, off),
            padding_u8: read_u8(b, off + 1),
            padding_u16: read_u16(b, off + 2),
            client_id: ClientId(read_u32(b, off + 4)),
            instr_id: InstrId(read_u32(b, off + 8)),
            time: read_u32(b, off + 12),
            seat_price: read_i64(b, off + 16),
        }
    }

    pub fn write(&self, out: &mut Vec<u8>)
        ensures
            final(out)@.len() == old(out)@.len() + SELL_MARKET_SEAT_REPORT_SIZE,
            final(out)@.subrange(0, old(out)@.len() as int) == old(out)@,
            Self::wire_at(final(out)@, old(out)@.len() as int) == *self,
    {
        let ghost base = out@;
        put_u8(out, self.tag);
        put_u8(out, self.padding_u8);
        put_u16(out, self.padding_u16);
        put_u32(out, self.client_id.0);
        put_u32(out, self.instr_id.0);
        put_u32(out, self.time);
        put_i64(out, self.seat_price);
        proof {
            lemma_auto_spec_u16_to_from_le_bytes();
            lemma_auto_spec_u32_to_from_le_bytes();
            lemma_auto_spec_u64_to_from_le_bytes();
            lemma_auto_spec_i64_to_from_le_bytes();
            assert(out@ == base + seq![self.tag] + seq![self.padding_u8] + spec_u16_to_le_bytes(self.padding_u16) + spec_u32_to_le_bytes(self.client_id.0) + spec_u32_to_le_bytes(self.instr_id.0) + spec_u32_to_le_bytes(self.time) + spec_i64_to_le_bytes(self.seat_price));
            assert(out@[base.len() as int] == self.tag);
            assert(out@[base.len() as int + 1] == self.padding_u8);
            assert(out@.subrange(base.len() as int + 2, base.len() as int + 4) =~= spec_u16_to_le_bytes(self.padding_u16));
            assert(out@.subrange(base.len() as int + 4, base.len() as int + 8) =~= spec_u32_to_le_bytes(self.client_id.0));
            assert(out@.subrange(base.len() as int + 8, base.len() as int + 12) =~= spec_u32_to_le_bytes(self.instr_id.0));
            assert(out@.subrange(base.len() as int + 12, base.len() as int + 16) =~= spec_u32_to_le_bytes(self.time));
            assert(out@.subrange(base.len() as int + 16, base.len() as int + 24) =~= spec_i64_to_le_bytes(self.seat_price));
            assert(out@.subrange(0, base.len() as int) =~= base);
            assert(Self::wire_at(out@, base.len() as int) == *self);
        }
    }

    pub fn encode(&self) -> (r: Vec<u8>)
        ensures
            r@.len() == SELL_MARKET_SEAT_REPORT_SIZE,
            Self::wire_at(r@, 0) == *self,
    {
        let mut out: Vec<u8> = Vec::new();
        self.write(&mut out);
        out
    }
}

/// Report of one `Withdraw` event.
#[derive(Clone, Copy, Debug, PartialEq)]
pub struct WithdrawReport {
    pub tag: u8,
    pub padding_u8: u8,
    pub padding_u16: u16,
    pub client_id: ClientId,
    pub token_id: u32,
    pub time: u32,
    pub amount: i64,
}

pub const WITHDRAW_REPORT_SIZE: usize = 24;

impl WithdrawReport {
    /// The `WithdrawReport` image that starts at byte offset `off` of a buffer.
    pub open spec fn wire_at(b: Seq<u8>, off: int) -> WithdrawReport {
        WithdrawReport {
            tag: b[off],
            padding_u8: b[off + 1],
            padding_u16: spec_u16_from_le_bytes(b.subrange(off + 2, off + 4)),
            client_id: ClientId(spec_u32_from_le_bytes(b.subrange(off + 4, off + 8))),
            token_id: spec_u32_from_le_bytes(b.subrange(off + 8, off + 12)),
            time: spec_u32_from_le_bytes(b.subrange(off + 12, off + 16)),
            amount: spec_i64_from_le_bytes(b.subrange(off + 16, off + 24)),
        }
    }

    pub fn read_at(b: &[u8], off: usize) -> (r: WithdrawReport)
        requires
            off + WITHDRAW_REPORT_SIZE <= b@.len(),
        ensures
            r == Self::wire_at(b@, off as int),
    {
        let n = b.len();
        assert(off + 24 <= n);
        WithdrawReport {
            tag: read_u8(b, off),
            padding_u8: read_u8(b, off + 1),
            padding_u16: read_u16(b, off + 2),
            client_id: ClientId(read_u32(b, off + 4)),
            token_id: read_u32(b, off + 8),
            time: read_u32(b, off + 12),
            amount: read_i64(b, off + 16),
        }
    }

    pub fn write(&self, out: &mut Vec<u8>)
        ensures
            final(out)@.len() == old(out)@.len() + WITHDRAW_REPORT_SIZE,
            final(out)@.subrange(0, old(out)@.len() as int) == old(out)@,
            Self::wire_at(final(out)@, old(out)@.len() as int) == *self,
    {
        let ghost base = out@;
        put_u8(out, self.tag);
        put_u8(out, self.padding_u8);
        put_u16(out, self.padding_u16);
        put_u32(out, self.client_id.0);
        put_u32(out, self.token_id);
        put_u32(out, self.time);
        put_i64(out, self.amount);
        proof {
            lemma_auto_spec_u16_to_from_le_bytes();
            lemma_auto_spec_u32_to_from_le_bytes();
            lemma_auto_spec_u64_to_from_le_bytes();
            lemma_auto_spec_i64_to_from_le_bytes();
            assert(out@ == base + seq![self.tag] + seq![self.padding_u8] + spec_u16_to_le_bytes(self.padding_u16) + spec_u32_to_le_bytes(self.client_id.0) + spec_u32_to_le_bytes(self.token_id) + spec_u32_to_le_bytes(self.time) + spec_i64_to_le_bytes(self.amount));
            assert(out@[base.len() as int] == self.tag);
            assert(out@[base.len() as int + 1] == self.padding_u8);
            assert(out@.subrange(base.len() as int + 2, base.len() as int + 4) =~= spec_u16_to_le_bytes(self.padding_u16));
            assert(out@.subrange(base.len() as int + 4, base.len() as int + 8) =~= spec_u32_to_le_bytes(self.client_id.0));
            assert(out@.subrange(base.len() as int + 8, base.len() as int + 12) =~= spec_u32_to_le_bytes(self.token_id));
            assert(out@.subrange(base.len() as int + 12, base.len() as int + 16) =~= spec_u32_to_le_bytes(self.time));
            assert(out@.subrange(base.len() as int + 16, base.len() as int + 24) =~= spec_i64_to_le_bytes(self.amount));
            assert(out@.subrange(0, base.len() as int) =~= base);
            assert(Self::wire_at(out@, base.len() as int) == *self);
        }
    }

    pub fn encode(&self) -> (r: Vec<u8>)
        ensures
            r@.len() == WITHDRAW_REPORT_SIZE,
            Self::wire_at(r@, 0) == *self,
    {
        let mut out: Vec<u8> = Vec::new();
        self.write(&mut out);
        out
    }
}

/// Report of one `PerpWithdraw` event.
#[derive(Clone, Copy, Debug, PartialEq)]
pub struct PerpWithdrawReport {
    pub tag: u8,
    pub padding_u8: u8,
    pub padding_u16: u16,
    pub client_id: ClientId,
    pub instr_id: InstrId,
    pub time: u32,
    pub amount: i64,
}

pub const PERP_WITHDRAW_REPORT_SIZE: usize = 24;

impl PerpWithdrawReport {
    /// The `PerpWithdrawReport` image that starts at byte offset `off` of a buffer.
    pub open spec fn wire_at(b: Seq<u8>, off: int) -> PerpWithdrawReport {
        PerpWithdrawReport {
            tag: b[off],
            padding_u8: b[off + 1],
            padding_u16: spec_u16_from_le_bytes(b.subrange(off + 2, off + 4)),
            client_id: ClientId(spec_u32_from_le_bytes(b.subrange(off + 4, off + 8))),
            instr_id: InstrId(spec_u32_from_le_bytes(b.subrange(off + 8, off + 12))),
            time: spec_u32_from_le_bytes(b.subrange(off + 12, off + 16)),
            amount: spec_i64_from_le_bytes(b.subrange(off + 16, off + 24)),
        }
    }

    pub fn read_at(b: &[u8], off: usize) -> (r: PerpWithdrawReport)
        requires
            off + PERP_WITHDRAW_REPORT_SIZE <= b@.len(),
        ensures
            r == Self::wire_at(b@, off as int),
    {
        let n = b.len();
        assert(off + 24 <= n);
        PerpWithdrawReport {
            tag: read_u8(b, off),
            padding_u8: read_u8(b, off + 1),
            padding_u16: read_u16(b, off + 2),
            client_id: ClientId(read_u32(b, off + 4)),
            instr_id: InstrId(read_u32(b, off + 8)),
            time: read_u32(b, off + 12),
            amount: read_i64(b, off + 16),
        }
    }

    pub fn write(&self, out: &mut Vec<u8>)
        ensures
            final(out)@.len() == old(out)@.len() + PERP_WITHDRAW_REPORT_SIZE,
            final(out)@.subrange(0, old(out)@.len() as int) == old(out)@,
            Self::wire_at(final(out)@, old(out)@.len() as int) == *self,
    {
        let ghost base = out@;
        put_u8(out, self.tag);
        put_u8(out, self.padding_u8);
        put_u16(out, self.padding_u16);
        put_u32(out, self.client_id.0);
        put_u32(out, self.instr_id.0);
        put_u32(out, self.time);
        put_i64(out, self.amount);
        proof {
            lemma_auto_spec_u16_to_from_le_bytes();
            lemma_auto_spec_u32_to_from_le_bytes();
            lemma_auto_spec_u64_to_from_le_bytes();
            lemma_auto_spec_i64_to_from_le_bytes();
            assert(out@ == base + seq![self.tag] + seq![self.padding_u8] + spec_u16_to_le_bytes(self.padding_u16) + spec_u32_to_le_bytes(self.client_id.0) + spec_u32_to_le_bytes(self.instr_id.0) + spec_u32_to_le_bytes(self.time) + spec_i64_to_le_bytes(self.amount));
            assert(out@[base.len() as int] == self.tag);
            assert(out@[base.len() as int + 1] == self.padding_u8);
            assert(out@.subrange(base.len() as int + 2, base.len() as int + 4) =~= spec_u16_to_le_bytes(self.padding_u16));
            assert(out@.subrange(base.len() as int + 4, base.len() as int + 8) =~= spec_u32_to_le_bytes(self.client_id.0));
            assert(out@.subrange(base.len() as int + 8, base.len() as int + 12) =~= spec_u32_to_le_bytes(self.instr_id.0));
            assert(out@.subrange(base.len() as int + 12, base.len() as int + 16) =~= spec_u32_to_le_bytes(self.time));
            assert(out@.subrange(base.len() as int + 16, base.len() as int + 24) =~= spec_i64_to_le_bytes(self.amount));
            assert(out@.subrange(0, base.len() as int) =~= base);
            assert(Self::wire_at(out@, base.len() as int) == *self);
        }
    }

    pub fn encode(&self) -> (r: Vec<u8>)
        ensures
            r@.len() == PERP_WITHDRAW_REPORT_SIZE,
            Self::wire_at(r@, 0) == *self,
    {
        let mut out: Vec<u8> = Vec::new();
        self.write(&mut out);
        out
    }
}

/// Report of one `SpotlpTrade` event.
#[derive(Clone, Copy, Debug, PartialEq)]
pub struct SpotlpTradeReport {
    pub tag: u8,
    pub side: u8,
    pub padding_u16: u16,
    pub client_id: ClientId,
    pub time: u32,
    pub instr_id: InstrId,
    pub order_id: i64,
    pub qty: i64,
    pub tokens: i64,
    pub crncy: i64,
}

pub const SPOT_LP_TRADE_REPORT_SIZE: usize = 48;

impl SpotlpTradeReport {
    /// The `SpotlpTradeReport` image that starts at byte offset `off` of a buffer.
    pub open spec fn wire_at(b: Seq<u8>, off: int) -> SpotlpTradeReport {
        SpotlpTradeReport {
            tag: b[off],
            side: b[off + 1],
            padding_u16: spec_u16_from_le_bytes(b.subrange(off + 2, off + 4)),
            client_id: ClientId(spec_u32_from_le_bytes(b.subrange(off + 4, off + 8))),
            time: spec_u32_from_le_bytes(b.subrange(off + 8, off + 12)),
            instr_id: InstrId(spec_u32_from_le_bytes(b.subrange(off + 12, off + 16))),
            order_id: spec_i64_from_le_bytes(b.subrange(off + 16, off + 24)),
            qty: spec_i64_from_le_bytes(b.subrange(off + 24, off + 32)),
            tokens: spec_i64_from_le_bytes(b.subrange(off + 32, off + 40)),
            crncy: spec_i64_from_le_bytes(b.subrange(off + 40, off + 48)),
        }
    }

    pub fn read_at(b: &[u8], off: usize) -> (r: SpotlpTradeReport)
        requires
            off + SPOT_LP_TRADE_REPORT_SIZE <= b@.len(),
        ensures
            r == Self::wire_at(b@, off as int),
    {
        let n = b.len();
        assert(off + 48 <= n);
        SpotlpTradeReport {
            tag: read_u8(b, off),
            side: read_u8(b, off + 1),
            padding_u16: read_u16(b, off + 2),
            client_id: ClientId(read_u32(b, off + 4)),
            time: read_u32(b, off + 8),
            instr_id: InstrId(read_u32(b, off + 12)),
            order_id: read_i64(b, off + 16),
            qty: read_i64(b, off + 24),
            tokens: read_i64(b, off + 32),
            crncy: read_i64(b, off + 40),
        }
    }

    pub fn write(&self, out: &mut Vec<u8>)
        ensures
            final(out)@.len() == old(out)@.len() + SPOT_LP_TRADE_REPORT_SIZE,
            final(out)@.subrange(0, old(out)@.len() as int) == old(out)@,
            Self::wire_at(final(out)@, old(out)@.len() as int) == *self,
    {
        let ghost base = out@;
        put_u8(out, self.tag);
        put_u8(out, self.side);
        put_u16(out, self.padding_u16);
        put_u32(out, self.client_id.0);
        put_u32(out, self.time);
        put_u32(out, self.instr_id.0);
        put_i64(out, self.order_id);
        put_i64(out, self.qty);
        put_i64(out, self.tokens);
        put_i64(out, self.crncy);
        proof {
            lemma_auto_spec_u16_to_from_le_bytes();
            lemma_auto_spec_u32_to_from_le_bytes();
            lemma_auto_spec_u64_to_from_le_bytes();
            lemma_auto_spec_i64_to_from_le_bytes();
            assert(out@ == base + seq![self.tag] + seq![self.side] + spec_u16_to_le_bytes(self.padding_u16) + spec_u32_to_le_bytes(self.client_id.0) + spec_u32_to_le_bytes(self.time) + spec_u32_to_le_bytes(self.instr_id.0) + spec_i64_to_le_bytes(self.order_id) + spec_i64_to_le_bytes(self.qty) + spec_i64_to_le_bytes(self.tokens) + spec_i64_to_le_bytes(self.crncy));
            assert(out@[base.len() as int] == self.tag);
            assert(out@[base.len() as int + 1] == self.side);
            assert(out@.subrange(base.len() as int + 2, base.len() as int + 4) =~= spec_u16_to_le_bytes(self.padding_u16));
            assert(out@.subrange(base.len() as int + 4, base.len() as int + 8) =~= spec_u32_to_le_bytes(self.client_id.0));
            assert(out@.subrange(base.len() as int + 8, base.len() as int + 12) =~= spec_u32_to_le_bytes(self.time));
            assert(out@.subrange(base.len() as int + 12, base.len() as int + 16) =~= spec_u32_to_le_bytes(self.instr_id.0));
            assert(out@.subrange(base.len() as int + 16, base.len() as int + 24) =~= spec_i64_to_le_bytes(self.order_id));
            assert(out@.subrange(base.len() as int + 24, base.len() as int + 32) =~= spec_i64_to_le_bytes(self.qty));
            assert(out@.subrange(base.len() as int + 32, base.len() as int + 40) =~= spec_i64_to_le_bytes(self.tokens));
            assert(out@.subrange(base.len() as int + 40, base.len() as int + 48) =~= spec_i64_to_le_bytes(self.crncy));
            assert(out@.subrange(0, base.len() as int) =~= base);
            assert(Self::wire_at(out@, base.len() as int) == *self);
        }
    }

    pub fn encode(&self) -> (r: Vec<u8>)
        ensures
            r@.len() == SPOT_LP_TRADE_REPORT_SIZE,
            Self::wire_at(r@, 0) == *self,
    {
        let mut out: Vec<u8> = Vec::new();
        self.write(&mut out);
        out
    }
}

/// Report of one `PerpFillOrder` event.
#[derive(Clone, Copy, Debug, PartialEq)]
pub struct PerpFillOrderReport {
    pub tag: u8,
    pub side: u8,
    pub padding_u16: u16,
    pub client_id: ClientId,
    pub order_id: i64,
    pub perps: i64,
    pub crncy: i64,
    pub price: i64,
    pub rebates: i64,
}

pub const PERP_FILL_ORDER_REPORT_SIZE: usize = 48;

impl PerpFillOrderReport {
    /// The `PerpFillOrderReport` image that starts at byte offset `off` of a buffer.
    pub open spec fn wire_at(b: Seq<u8>, off: int) -> PerpFillOrderReport {
        PerpFillOrderReport {
            tag: b[off],
            side: b[off + 1],
            padding_u16: spec_u16_from_le_bytes(b.subrange(off + 2, off + 4)),
            client_id: ClientId(spec_u32_from_le_bytes(b.subrange(off + 4, off + 8))),
            order_id: spec_i64_from_le_bytes(b.subrange(off + 8, off + 16)),
            perps: spec_i64_from_le_bytes(b.subrange(off + 16, off + 24)),
            crncy: spec_i64_from_le_bytes(b.subrange(off + 24, off + 32)),
            price: spec_i64_from_le_bytes(b.subrange(off + 32, off + 40)),
            rebates: spec_i64_from_le_bytes(b.subrange(off + 40, off + 48)),
        }
    }

    pub fn read_at(b: &[u8], off: usize) -> (r: PerpFillOrderReport)
        requires
            off + PERP_FILL_ORDER_REPORT_SIZE <= b@.len(),
        ensures
            r == Self::wire_at(b@, off as int),
    {
        let n = b.len();
        assert(off + 48 <= n);
        PerpFillOrderReport {
            tag: read_u8(b, off),
            side: read_u8(b, off + 1),
            padding_u16: read_u16(b, off + 2),
            client_id: ClientId(read_u32(b, off + 4)),
            order_id: read_i64(b, off + 8),
            perps: read_i64(b, off + 16),
            crncy: read_i64(b, off + 24),
            price: read_i64(b, off + 32),
            rebates: read_i64(b, off + 40),
        }
    }

    pub fn write(&self, out: &mut Vec<u8>)
        ensures
            final(out)@.len() == old(out)@.len() + PERP_FILL_ORDER_REPORT_SIZE,
            final(out)@.subrange(0, old(out)@.len() as int) == old(out)@,
            Self::wire_at(final(out)@, old(out)@.len() as int) == *self,
    {
        let ghost base = out@;
        put_u8(out, self.tag);
        put_u8(out, self.side);
        put_u16(out, self.padding_u16);
        put_u32(out, self.client_id.0);
        put_i64(out, self.order_id);
        put_i64(out, self.perps);
        put_i64(out, self.crncy);
        put_i64(out, self.price);
        put_i64(out, self.rebates);
        proof {
            lemma_auto_spec_u16_to_from_le_bytes();
            lemma_auto_spec_u32_to_from_le_bytes();
            lemma_auto_spec_u64_to_from_le_bytes();
            lemma_auto_spec_i64_to_from_le_bytes();
            assert(out@ == base + seq![self.tag] + seq![self.side] + spec_u16_to_le_bytes(self.padding_u16) + spec_u32_to_le_bytes(self.client_id.0) + spec_i64_to_le_bytes(self.order_id) + spec_i64_to_le_bytes(self.perps) + spec_i64_to_le_bytes(self.crncy) + spec_i64_to_le_bytes(self.price) + spec_i64_to_le_bytes(self.rebates));
            assert(out@[base.len() as int] == self.tag);
            assert(out@[base.len() as int + 1] == self.side);
            assert(out@.subrange(base.len() as int + 2, base.len() as int + 4) =~= spec_u16_to_le_bytes(self.padding_u16));
            assert(out@.subrange(base.len() as int + 4, base.len() as int + 8) =~= spec_u32_to_le_bytes(self.client_id.0));
            assert(out@.subrange(base.len() as int + 8, base.len() as int + 16) =~= spec_i64_to_le_bytes(self.order_id));
            assert(out@.subrange(base.len() as int + 16, base.len() as int + 24) =~= spec_i64_to_le_bytes(self.perps));
            assert(out@.subrange(base.len() as int + 24, base.len() as int + 32) =~= spec_i64_to_le_bytes(self.crncy));
            assert(out@.subrange(base.len() as int + 32, base.len() as int + 40) =~= spec_i64_to_le_bytes(self.price));
            assert(out@.subrange(base.len() as int + 40, base.len() as int + 48) =~= spec_i64_to_le_bytes(self.rebates));
            assert(out@.subrange(0, base.len() as int) =~= base);
            assert(Self::wire_at(out@, base.len() as int) == *self);
        }
    }

    pub fn encode(&self) -> (r: Vec<u8>)
        ensures
            r@.len() == PERP_FILL_ORDER_REPORT_SIZE,
            Self::wire_at(r@, 0) == *self,
    {
        let mut out: Vec<u8> = Vec::new();
        self.write(&mut out);
        out
    }
}

/// Report of one `SpotFillOrder` event.
#[derive(Clone, Copy, Debug, PartialEq)]
pub struct SpotFillOrderReport {
    pub tag: u8,
    pub side: u8,
    pub padding_u16: u16,
    pub client_id: ClientId,
    pub order_id: i64,
    pub qty: i64,
    pub crncy: i64,
    pub price: i64,
    pub rebates: i64,
}

pub const SPOT_FILL_ORDER_REPORT_SIZE: usize = 48;

impl SpotFillOrderReport {
    /// The `SpotFillOrderReport` image that starts at byte offset `off` of a buffer.
    pub open spec fn wire_at(b: Seq<u8>, off: int) -> SpotFillOrderReport {
        SpotFillOrderReport {
            tag: b[off],
            side: b[off + 1],
            padding_u16: spec_u16_from_le_bytes(b.subrange(off + 2, off + 4)),
            client_id: ClientId(spec_u32_from_le_bytes(b.subrange(off + 4, off + 8))),
            order_id: spec_i64_from_le_bytes(b.subrange(off + 8, off + 16)),
            qty: spec_i64_from_le_bytes(b.subrange(off + 16, off + 24)),
            crncy: spec_i64_from_le_bytes(b.subrange(off + 24, off + 32)),
            price: spec_i64_from_le_bytes(b.subrange(off + 32, off + 40)),
            rebates: spec_i64_from_le_bytes(b.subrange(off + 40, off + 48)),
        }
    }

    pub fn read_at(b: &[u8], off: usize) -> (r: SpotFillOrderReport)
        requires
            off + SPOT_FILL_ORDER_REPORT_SIZE <= b@.len(),
        ensures
            r == Self::wire_at(b@, off as int),
    {
        let n = b.len();
        assert(off + 48 <= n);
        SpotFillOrderReport {
            tag: read_u8(b, off),
            side: read_u8(b, off + 1),
            padding_u16: read_u16(b, off + 2),
            client_id: ClientId(read_u32(b, off + 4)),
            order_id: read_i64(b, off + 8),
            qty: read_i64(b, off + 16),
            crncy: read_i64(b, off + 24),
            price: read_i64(b, off + 32),
            rebates: read_i64(b, off + 40),
        }
    }

    pub fn write(&self, out: &mut Vec<u8>)
        ensures
            final(out)@.len() == old(out)@.len() + SPOT_FILL_ORDER_REPORT_SIZE,
            final(out)@.subrange(0, old(out)@.len() as int) == old(out)@,
            Self::wire_at(final(out)@, old(out)@.len() as int) == *self,
    {
        let ghost base = out@;
        put_u8(out, self.tag);
        put_u8(out, self.side);
        put_u16(out, self.padding_u16);
        put_u32(out, self.client_id.0);
        put_i64(out, self.order_id);
        put_i64(out, self.qty);
        put_i64(out, self.crncy);
        put_i64(out, self.price);
        put_i64(out, self.rebates);
        proof {
            lemma_auto_spec_u16_to_from_le_bytes();
            lemma_auto_spec_u32_to_from_le_bytes();
            lemma_auto_spec_u64_to_from_le_bytes();
            lemma_auto_spec_i64_to_from_le_bytes();
            assert(out@ == base + seq![self.tag] + seq![self.side] + spec_u16_to_le_bytes(self.padding_u16) + spec_u32_to_le_bytes(self.client_id.0) + spec_i64_to_le_bytes(self.order_id) + spec_i64_to_le_bytes(self.qty) + spec_i64_to_le_bytes(self.crncy) + spec_i64_to_le_bytes(self.price) + spec_i64_to_le_bytes(self.rebates));
            assert(out@[base.len() as int] == self.tag);
            assert(out@[base.len() as int + 1] == self.side);
            assert(out@.subrange(base.len() as int + 2, base.len() as int + 4) =~= spec_u16_to_le_bytes(self.padding_u16));
            assert(out@.subrange(base.len() as int + 4, base.len() as int + 8) =~= spec_u32_to_le_bytes(self.client_id.0));
            assert(out@.subrange(base.len() as int + 8, base.len() as int + 16) =~= spec_i64_to_le_bytes(self.order_id));
            assert(out@.subrange(base.len() as int + 16, base.len() as int + 24) =~= spec_i64_to_le_bytes(self.qty));
            assert(out@.subrange(base.len() as int + 24, base.len() as int + 32) =~= spec_i64_to_le_bytes(self.crncy));
            assert(out@.subrange(base.len() as int + 32, base.len() as int + 40) =~= spec_i64_to_le_bytes(self.price));
            assert(out@.subrange(base.len() as int + 40, base.len() as int + 48) =~= spec_i64_to_le_bytes(self.rebates));
            assert(out@.subrange(0, base.len() as int) =~= base);
            assert(Self::wire_at(out@, base.len() as int) == *self);
        }
    }

    pub fn encode(&self) -> (r: Vec<u8>)
        ensures
            r@.len() == SPOT_FILL_ORDER_REPORT_SIZE,
            Self::wire_at(r@, 0) == *self,
    {
        let mut out: Vec<u8> = Vec::new();
        self.write(&mut out);
        out
    }
}

/// Report of one `PerpPlaceOrder` event.
#[derive(Clone, Copy, Debug, PartialEq)]
pub struct PerpPlaceOrderReport {
    pub tag: u8,
    pub ioc: u8,
    pub side: u8,
    pub order_type: u8,
    pub client_id: ClientId,
    pub order_id: i64,
    pub perps: i64,
    pub price: i64,
    pub instr_id: InstrId,
    pub leverage: u32,
    pub time: u32,
    pub padding_u32: u32,
}

pub const PERP_PLACE_ORDER_REPORT_SIZE: usize = 48;

impl PerpPlaceOrderReport {
    /// The `PerpPlaceOrderReport` image that starts at byte offset `off` of a buffer.
    pub open spec fn wire_at(b: Seq<u8>, off: int) -> PerpPlaceOrderReport {
        PerpPlaceOrderReport {
            tag: b[off],
            ioc: b[off + 1],
            side: b[off + 2],
            order_type: b[off + 3],
            client_id: ClientId(spec_u32_from_le_bytes(b.subrange(off + 4, off + 8))),
            order_id: spec_i64_from_le_bytes(b.subrange(off + 8, off + 16)),
            perps: spec_i64_from_le_bytes(b.subrange(off + 16, off + 24)),
            price: spec_i64_from_le_bytes(b.subrange(off + 24, off + 32)),
            instr_id: InstrId(spec_u32_from_le_bytes(b.subrange(off + 32, off + 36))),
            leverage: spec_u32_from_le_bytes(b.subrange(off + 36, off + 40)),
            time: spec_u32_from_le_bytes(b.subrange(off + 40, off + 44)),
            padding_u32: spec_u32_from_le_bytes(b.subrange(off + 44, off + 48)),
        }
    }

    pub fn read_at(b: &[u8], off: usize) -> (r: PerpPlaceOrderReport)
        requires
            off + PERP_PLACE_ORDER_REPORT_SIZE <= b@.len(),
        ensures
            r == Self::wire_at(b@, off as int),
    {
        let n = b.len();
        assert(off + 48 <= n);
        PerpPlaceOrderReport {
            tag: read_u8(b, off),
            ioc: read_u8(b, off + 1),
            side: read_u8(b, off + 2),
            order_type: read_u8(b, off + 3),
            client_id: ClientId(read_u32(b, off + 4)),
            order_id: read_i64(b, off + 8),
            perps: read_i64(b, off + 16),
            price: read_i64(b, off + 24),
            instr_id: InstrId(read_u32(b, off + 32)),
            leverage: read_u32(b, off + 36),
            time: read_u32(b, off + 40),
            padding_u32: read_u32(b, off + 44),
        }
    }

    pub fn write(&self, out: &mut Vec<u8>)
        ensures
            final(out)@.len() == old(out)@.len() + PERP_PLACE_ORDER_REPORT_SIZE,
            final(out)@.subrange(0, old(out)@.len() as int) == old(out)@,
            Self::wire_at(final(out)@, old(out)@.len() as int) == *self,
    {
        let ghost base = out@;
        put_u8(out, self.tag);
        put_u8(out, self.ioc);
        put_u8(out, self.side);
        put_u8(out, self.order_type);
        put_u32(out, self.client_id.0);
        put_i64(out, self.order_id);
        put_i64(out, self.perps);
        put_i64(out, self.price);
        put_u32(out, self.instr_id.0);
        put_u32(out, self.leverage);
        put_u32(out, self.time);
        put_u32(out, self.padding_u32);
        proof {
            lemma_auto_spec_u16_to_from_le_bytes();
            lemma_auto_spec_u32_to_from_le_bytes();
            lemma_auto_spec_u64_to_from_le_bytes();
            lemma_auto_spec_i64_to_from_le_bytes();
            assert(out@ == base + seq![self.tag] + seq![self.ioc] + seq![self.side] + seq![self.order_type] + spec_u32_to_le_bytes(self.client_id.0) + spec_i64_to_le_bytes(self.order_id) + spec_i64_to_le_bytes(self.perps) + spec_i64_to_le_bytes(self.price) + spec_u32_to_le_bytes(self.instr_id.0) + spec_u32_to_le_bytes(self.leverage) + spec_u32_to_le_bytes(self.time) + spec_u32_to_le_bytes(self.padding_u32));
            assert(out@[base.len() as int] == self.tag);
            assert(out@[base.len() as int + 1] == self.ioc);
            assert(out@[base.len() as int + 2] == self.side);
            assert(out@[base.len() as int + 3] == self.order_type);
            assert(out@.subrange(base.len() as int + 4, base.len() as int + 8) =~= spec_u32_to_le_bytes(self.client_id.0));
            assert(out@.subrange(base.len() as int + 8, base.len() as int + 16) =~= spec_i64_to_le_bytes(self.order_id));
            assert(out@.subrange(base.len() as int + 16, base.len() as int + 24) =~= spec_i64_to_le_bytes(self.perps));
            assert(out@.subrange(base.len() as int + 24, base.len() as int + 32) =~= spec_i64_to_le_bytes(self.price));
            assert(out@.subrange(base.len() as int + 32, base.len() as int + 36) =~= spec_u32_to_le_bytes(self.instr_id.0));
            assert(out@.subrange(base.len() as int + 36, base.len() as int + 40) =~= spec_u32_to_le_bytes(self.leverage));
            assert(out@.subrange(base.len() as int + 40, base.len() as int + 44) =~= spec_u32_to_le_bytes(self.time));
            assert(out@.subrange(base.len() as int + 44, base.len() as int + 48) =~= spec_u32_to_le_bytes(self.padding_u32));
            assert(out@.subrange(0, base.len() as int) =~= base);
            assert(Self::wire_at(out@, base.len() as int) == *self);
        }
    }

    pub fn encode(&self) -> (r: Vec<u8>)
        ensures
            r@.len() == PERP_PLACE_ORDER_REPORT_SIZE,
            Self::wire_at(r@, 0) == *self,
    {
        let mut out: Vec<u8> = Vec::new();
        self.write(&mut out);
        out
    }
}

/// Report of one `SpotPlaceOrder` event.
#[derive(Clone, Copy, Debug, PartialEq)]
pub struct SpotPlaceOrderReport {
    pub tag: u8,
    pub ioc: u8,
    pub side: u8,
    pub order_type: u8,
    pub client_id: ClientId,
    pub order_id: i64,
    pub qty: i64,
    pub price: i64,
    pub instr_id: InstrId,
    pub time: u32,
}

pub const SPOT_PLACE_ORDER_REPORT_SIZE: usize = 40;

impl SpotPlaceOrderReport {
    /// The `SpotPlaceOrderReport` image that starts at byte offset `off` of a buffer.
    pub open spec fn wire_at(b: Seq<u8>, off: int) -> SpotPlaceOrderReport {
        SpotPlaceOrderReport {
            tag: b[off],
            ioc: b[off + 1],
            side: b[off + 2],
            order_type: b[off + 3],
            client_id: ClientId(spec_u32_from_le_bytes(b.subrange(off + 4, off + 8))),
            order_id: spec_i64_from_le_bytes(b.subrange(off + 8, off + 16)),
            qty: spec_i64_from_le_bytes(b.subrange(off + 16, off + 24)),
            price: spec_i64_from_le_bytes(b.subrange(off + 24, off + 32)),
            instr_id: InstrId(spec_u32_from_le_bytes(b.subrange(off + 32, off + 36))),
            time: spec_u32_from_le_bytes(b.subrange(off + 36, off + 40)),
        }
    }

    pub fn read_at(b: &[u8], off: usize) -> (r: SpotPlaceOrderReport)
        requires
            off + SPOT_PLACE_ORDER_REPORT_SIZE <= b@.len(),
        ensures
            r == Self::wire_at(b@, off as int),
    {
        let n = b.len();
        assert(off + 40 <= n);
        SpotPlaceOrderReport {
            tag: read_u8(b, off),
            ioc: read_u8(b, off + 1),
            side: read_u8(b, off + 2),
            order_type: read_u8(b, off + 3),
            client_id: ClientId(read_u32(b, off + 4)),
            order_id: read_i64(b, off + 8),
            qty: read_i64(b, off + 16),
            price: read_i64(b, off + 24),
            instr_id: InstrId(read_u32(b, off + 32)),
            time: read_u32(b, off + 36),
        }
    }

    pub fn write(&self, out: &mut Vec<u8>)
        ensures
            final(out)@.len() == old(out)@.len() + SPOT_PLACE_ORDER_REPORT_SIZE,
            final(out)@.subrange(0, old(out)@.len() as int) == old(out)@,
            Self::wire_at(final(out)@, old(out)@.len() as int) == *self,
    {
        let ghost base = out@;
        put_u8(out, self.tag);
        put_u8(out, self.ioc);
        put_u8(out, self.side);
        put_u8(out, self.order_type);
        put_u32(out, self.client_id.0);
        put_i64(out, self.order_id);
        put_i64(out, self.qty);
        put_i64(out, self.price);
        put_u32(out, self.instr_id.0);
        put_u32(out, self.time);
        proof {
            lemma_auto_spec_u16_to_from_le_bytes();
            lemma_auto_spec_u32_to_from_le_bytes();
            lemma_auto_spec_u64_to_from_le_bytes();
            lemma_auto_spec_i64_to_from_le_bytes();
            assert(out@ == base + seq![self.tag] + seq![self.ioc] + seq![self.side] + seq![self.order_type] + spec_u32_to_le_bytes(self.client_id.0) + spec_i64_to_le_bytes(self.order_id) + spec_i64_to_le_bytes(self.qty) + spec_i64_to_le_bytes(self.price) + spec_u32_to_le_bytes(self.instr_id.0) + spec_u32_to_le_bytes(self.time));
            assert(out@[base.len() as int] == self.tag);
            assert(out@[base.len() as int + 1] == self.ioc);
            assert(out@[base.len() as int + 2] == self.side);
            assert(out@[base.len() as int + 3] == self.order_type);
            assert(out@.subrange(base.len() as int + 4, base.len() as int + 8) =~= spec_u32_to_le_bytes(self.client_id.0));
            assert(out@.subrange(base.len() as int + 8, base.len() as int + 16) =~= spec_i64_to_le_bytes(self.order_id));
            assert(out@.subrange(base.len() as int + 16, base.len() as int + 24) =~= spec_i64_to_le_bytes(self.qty));
            assert(out@.subrange(base.len() as int + 24, base.len() as int + 32) =~= spec_i64_to_le_bytes(self.price));
            assert(out@.subrange(base.len() as int + 32, base.len() as int + 36) =~= spec_u32_to_le_bytes(self.instr_id.0));
            assert(out@.subrange(base.len() as int + 36, base.len() as int + 40) =~= spec_u32_to_le_bytes(self.time));
            assert(out@.subrange(0, base.len() as int) =~= base);
            assert(Self::wire_at(out@, base.len() as int) == *self);
        }
    }

    pub fn encode(&self) -> (r: Vec<u8>)
        ensures
            r@.len() == SPOT_PLACE_ORDER_REPORT_SIZE,
            Self::wire_at(r@, 0) == *self,
    {
        let mut out: Vec<u8> = Vec::new();
        self.write(&mut out);
        out
    }
}

/// Report of one `SwapOrder` event.
#[derive(Clone, Copy, Debug, PartialEq)]
pub struct SwapOrderReport {
    pub tag: u8,
    pub side: u8,
    pub order_type: u8,
    pub padding_u8: u8,
    pub padding_u32: u32,
    pub order_id: i64,
    pub qty: i64,
    pub price: i64,
    pub time: u32,
    pub instr_id: InstrId,
}

pub const SWAP_ORDER_REPORT_SIZE: usize = 40;

impl SwapOrderReport {
    /// The `SwapOrderReport` image that starts at byte offset `off` of a buffer.
    pub open spec fn wire_at(b: Seq<u8>, off: int) -> SwapOrderReport {
        SwapOrderReport {
            tag: b[off],
            side: b[off + 1],
            order_type: b[off + 2],
            padding_u8: b[off + 3],
            padding_u32: spec_u32_from_le_bytes(b.subrange(off + 4, off + 8)),
            order_id: spec_i64_from_le_bytes(b.subrange(off + 8, off + 16)),
            qty: spec_i64_from_le_bytes(b.subrange(off + 16, off + 24)),
            price: spec_i64_from_le_bytes(b.subrange(off + 24, off + 32)),
            time: spec_u32_from_le_bytes(b.subrange(off + 32, off + 36)),
            instr_id: InstrId(spec_u32_from_le_bytes(b.subrange(off + 36, off + 40))),
        }
    }

    pub fn read_at(b: &[u8], off: usize) -> (r: SwapOrderReport)
        requires
            off + SWAP_ORDER_REPORT_SIZE <= b@.len(),
        ensures
            r == Self::wire_at(b@, off as int),
    {
        let n = b.len();
        assert(off + 40 <= n);
        SwapOrderReport {
            tag: read_u8(b, off),
            side: read_u8(b, off + 1),
            order_type: read_u8(b, off + 2),
            padding_u8: read_u8(b, off + 3),
            padding_u32: read_u32(b, off + 4),
            order_id: read_i64(b, off + 8),
            qty: read_i64(b, off + 16),
            price: read_i64(b, off + 24),
            time: read_u32(b, off + 32),
            instr_id: InstrId(read_u32(b, off + 36)),
        }
    }

    pub fn write(&self, out: &mut Vec<u8>)
        ensures
            final(out)@.len() == old(out)@.len() + SWAP_ORDER_REPORT_SIZE,
            final(out)@.subrange(0, old(out)@.len() as int) == old(out)@,
            Self::wire_at(final(out)@, old(out)@.len() as int) == *self,
    {
        let ghost base = out@;
        put_u8(out, self.tag);
        put_u8(out, self.side);
        put_u8(out, self.order_type);
        put_u8(out, self.padding_u8);
        put_u32(out, self.padding_u32);
        put_i64(out, self.order_id);
        put_i64(out, self.qty);
        put_i64(out, self.price);
        put_u32(out, self.time);
        put_u32(out, self.instr_id.0);
        proof {
            lemma_auto_spec_u16_to_from_le_bytes();
            lemma_auto_spec_u32_to_from_le_bytes();
            lemma_auto_spec_u64_to_from_le_bytes();
            lemma_auto_spec_i64_to_from_le_bytes();
            assert(out@ == base + seq![self.tag] + seq![self.side] + seq![self.order_type] + seq![self.padding_u8] + spec_u32_to_le_bytes(self.padding_u32) + spec_i64_to_le_bytes(self.order_id) + spec_i64_to_le_bytes(self.qty) + spec_i64_to_le_bytes(self.price) + spec_u32_to_le_bytes(self.time) + spec_u32_to_le_bytes(self.instr_id.0));
            assert(out@[base.len() as int] == self.tag);
            assert(out@[base.len() as int + 1] == self.side);
            assert(out@[base.len() as int + 2] == self.order_type);
            assert(out@[base.len() as int + 3] == self.padding_u8);
            assert(out@.subrange(base.len() as int + 4, base.len() as int + 8) =~= spec_u32_to_le_bytes(self.padding_u32));
            assert(out@.subrange(base.len() as int + 8, base.len() as int + 16) =~= spec_i64_to_le_bytes(self.order_id));
            assert(out@.subrange(base.len() as int + 16, base.len() as int + 24) =~= spec_i64_to_le_bytes(self.qty));
            assert(out@.subrange(base.len() as int + 24, base.len() as int + 32) =~= spec_i64_to_le_bytes(self.price));
            assert(out@.subrange(base.len() as int + 32, base.len() as int + 36) =~= spec_u32_to_le_bytes(self.time));
            assert(out@.subrange(base.len() as int + 36, base.len() as int + 40) =~= spec_u32_to_le_bytes(self.instr_id.0));
            assert(out@.subrange(0, base.len() as int) =~= base);
            assert(Self::wire_at(out@, base.len() as int) == *self);
        }
    }

    pub fn encode(&self) -> (r: Vec<u8>)
        ensures
            r@.len() == SWAP_ORDER_REPORT_SIZE,
            Self::wire_at(r@, 0) == *self,
    {
        let mut out: Vec<u8> = Vec::new();
        self.write(&mut out);
        out
    }
}

/// Report of one `PerpPlaceMassCancel` event.
#[derive(Clone, Copy, Debug, PartialEq)]
pub struct PerpPlaceMassCancelReport {
    pub tag: u8,
    pub padding_u8: u8,
    pub padding_u16: u16,
    pub client_id: ClientId,
    pub instr_id: InstrId,
    pub time: u32,
}

pub const PERP_PLACE_MASS_CANCEL_REPORT_SIZE: usize = 16;

impl PerpPlaceMassCancelReport {
    /// The `PerpPlaceMassCancelReport` image that starts at byte offset `off` of a buffer.
    pub open spec fn wire_at(b: Seq<u8>, off: int) -> PerpPlaceMassCancelReport {
        PerpPlaceMassCancelReport {
            tag: b[off],
            padding_u8: b[off + 1],
            padding_u16: spec_u16_from_le_bytes(b.subrange(off + 2, off + 4)),
            client_id: ClientId(spec_u32_from_le_bytes(b.subrange(off + 4, off + 8))),
            instr_id: InstrId(spec_u32_from_le_bytes(b.subrange(off + 8, off + 12))),
            time: spec_u32_from_le_bytes(b.subrange(off + 12, off + 16)),
        }
    }

    pub fn read_at(b: &[u8], off: usize) -> (r: PerpPlaceMassCancelReport)
        requires
            off + PERP_PLACE_MASS_CANCEL_REPORT_SIZE <= b@.len(),
        ensures
            r == Self::wire_at(b@, off as int),
    {
        let n = b.len();
        assert(off + 16 <= n);
        PerpPlaceMassCancelReport {
            tag: read_u8(b, off),
            padding_u8: read_u8(b, off + 1),
            padding_u16: read_u16(b, off + 2),
            client_id: ClientId(read_u32(b, off + 4)),
            instr_id: InstrId(read_u32(b, off + 8)),
            time: read_u32(b, off + 12),
        }
    }

    pub fn write(&self, out: &mut Vec<u8>)
        ensures
            final(out)@.len() == old(out)@.len() + PERP_PLACE_MASS_CANCEL_REPORT_SIZE,
            final(out)@.subrange(0, old(out)@.len() as int) == old(out)@,
            Self::wire_at(final(out)@, old(out)@.len() as int) == *self,
    {
        let ghost base = out@;
        put_u8(out, self.tag);
        put_u8(out, self.padding_u8);
        put_u16(out, self.padding_u16);
        put_u32(out, self.client_id.0);
        put_u32(out, self.instr_id.0);
        put_u32(out, self.time);
        proof {
            lemma_auto_spec_u16_to_from_le_bytes();
            lemma_auto_spec_u32_to_from_le_bytes();
            lemma_auto_spec_u64_to_from_le_bytes();
            lemma_auto_spec_i64_to_from_le_bytes();
            assert(out@ == base + seq![self.tag] + seq![self.padding_u8] + spec_u16_to_le_bytes(self.padding_u16) + spec_u32_to_le_bytes(self.client_id.0) + spec_u32_to_le_bytes(self.instr_id.0) + spec_u32_to_le_bytes(self.time));
            assert(out@[base.len() as int] == self.tag);
            assert(out@[base.len() as int + 1] == self.padding_u8);
            assert(out@.subrange(base.len() as int + 2, base.len() as int + 4) =~= spec_u16_to_le_bytes(self.padding_u16));
            assert(out@.subrange(base.len() as int + 4, base.len() as int + 8) =~= spec_u32_to_le_bytes(self.client_id.0));
            assert(out@.subrange(base.len() as int + 8, base.len() as int + 12) =~= spec_u32_to_le_bytes(self.instr_id.0));
            assert(out@.subrange(base.len() as int + 12, base.len() as int + 16) =~= spec_u32_to_le_bytes(self.time));
            assert(out@.subrange(0, base.len() as int) =~= base);
            assert(Self::wire_at(out@, base.len() as int) == *self);
        }
    }

    pub fn encode(&self) -> (r: Vec<u8>)
        ensures
            r@.len() == PERP_PLACE_MASS_CANCEL_REPORT_SIZE,
            Self::wire_at(r@, 0) == *self,
    {
        let mut out: Vec<u8> = Vec::new();
        self.write(&mut out);
        out
    }
}

/// Report of one `SpotPlaceMassCancel` event.
#[derive(Clone, Copy, Debug, PartialEq)]
pub struct SpotPlaceMassCancelReport {
    pub tag: u8,
    pub padding_u8: u8,
    pub padding_u16: u16,
    pub client_id: ClientId,
    pub instr_id: InstrId,
    pub time: u32,
}

pub const SPOT_PLACE_MASS_CANCEL_REPORT_SIZE: usize = 16;

impl SpotPlaceMassCancelReport {
    /// The `SpotPlaceMassCancelReport` image that starts at byte offset `off` of a buffer.
    pub open spec fn wire_at(b: Seq<u8>, off: int) -> SpotPlaceMassCancelReport {
        SpotPlaceMassCancelReport {
            tag: b[off],
            padding_u8: b[off + 1],
            padding_u16: spec_u16_from_le_bytes(b.subrange(off + 2, off + 4)),
            client_id: ClientId(spec_u32_from_le_bytes(b.subrange(off + 4, off + 8))),
            instr_id: InstrId(spec_u32_from_le_bytes(b.subrange(off + 8, off + 12))),
            time: spec_u32_from_le_bytes(b.subrange(off + 12, off + 16)),
        }
    }

    pub fn read_at(b: &[u8], off: usize) -> (r: SpotPlaceMassCancelReport)
        requires
            off + SPOT_PLACE_MASS_CANCEL_REPORT_SIZE <= b@.len(),
        ensures
            r == Self::wire_at(b@, off as int),
    {
        let n = b.len();
        assert(off + 16 <= n);
        SpotPlaceMassCancelReport {
            tag: read_u8(b, off),
            padding_u8: read_u8(b, off + 1),
            padding_u16: read_u16(b, off + 2),
            client_id: ClientId(read_u32(b, off + 4)),
            instr_id: InstrId(read_u32(b, off + 8)),
            time: read_u32(b, off + 12),
        }
    }

    pub fn write(&self, out: &mut Vec<u8>)
        ensures
            final(out)@.len() == old(out)@.len() + SPOT_PLACE_MASS_CANCEL_REPORT_SIZE,
            final(out)@.subrange(0, old(out)@.len() as int) == old(out)@,
            Self::wire_at(final(out)@, old(out)@.len() as int) == *self,
    {
        let ghost base = out@;
        put_u8(out, self.tag);
        put_u8(out, self.padding_u8);
        put_u16(out, self.padding_u16);
        put_u32(out, self.client_id.0);
        put_u32(out, self.instr_id.0);
        put_u32(out, self.time);
        proof {
            lemma_auto_spec_u16_to_from_le_bytes();
            lemma_auto_spec_u32_to_from_le_bytes();
            lemma_auto_spec_u64_to_from_le_bytes();
            lemma_auto_spec_i64_to_from_le_bytes();
            assert(out@ == base + seq![self.tag] + seq![self.padding_u8] + spec_u16_to_le_bytes(self.padding_u16) + spec_u32_to_le_bytes(self.client_id.0) + spec_u32_to_le_bytes(self.instr_id.0) + spec_u32_to_le_bytes(self.time));
            assert(out@[base.len() as int] == self.tag);
            assert(out@[base.len() as int + 1] == self.padding_u8);
            assert(out@.subrange(base.len() as int + 2, base.len() as int + 4) =~= spec_u16_to_le_bytes(self.padding_u16));
            assert(out@.subrange(base.len() as int + 4, base.len() as int + 8) =~= spec_u32_to_le_bytes(self.client_id.0));
            assert(out@.subrange(base.len() as int + 8, base.len() as int + 12) =~= spec_u32_to_le_bytes(self.instr_id.0));
            assert(out@.subrange(base.len() as int + 12, base.len() as int + 16) =~= spec_u32_to_le_bytes(self.time));
            assert(out@.subrange(0, base.len() as int) =~= base);
            assert(Self::wire_at(out@, base.len() as int) == *self);
        }
    }

    pub fn encode(&self) -> (r: Vec<u8>)
        ensures
            r@.len() == SPOT_PLACE_MASS_CANCEL_REPORT_SIZE,
            Self::wire_at(r@, 0) == *self,
    {
        let mut out: Vec<u8> = Vec::new();
        self.write(&mut out);
        out
    }
}

/// Report of one `PerpMassCancel` event.
#[derive(Clone, Copy, Debug, PartialEq)]
pub struct PerpMassCancelReport {
    pub tag: u8,
    pub side: u8,
    pub padding_u16: u16,
    pub padding_u32: u32,
    pub order_id: i64,
    pub perps: i64,
    pub crncy: i64,
}

pub const PERP_MASS_CANCEL_REPORT_SIZE: usize = 32;

impl PerpMassCancelReport {
    /// The `PerpMassCancelReport` image that starts at byte offset `off` of a buffer.
    pub open spec fn wire_at(b: Seq<u8>, off: int) -> PerpMassCancelReport {
        PerpMassCancelReport {
            tag: b[off],
            side: b[off + 1],
            padding_u16: spec_u16_from_le_bytes(b.subrange(off + 2, off + 4)),
            padding_u32: spec_u32_from_le_bytes(b.subrange(off + 4, off + 8)),
            order_id: spec_i64_from_le_bytes(b.subrange(off + 8, off + 16)),
            perps: spec_i64_from_le_bytes(b.subrange(off + 16, off + 24)),
            crncy: spec_i64_from_le_bytes(b.subrange(off + 24, off + 32)),
        }
    }

    pub fn read_at(b: &[u8], off: usize) -> (r: PerpMassCancelReport)
        requires
            off + PERP_MASS_CANCEL_REPORT_SIZE <= b@.len(),
        ensures
            r == Self::wire_at(b@, off as int),
    {
        let n = b.len();
        assert(off + 32 <= n);
        PerpMassCancelReport {
            tag: read_u8(b, off),
            side: read_u8(b, off + 1),
            padding_u16: read_u16(b, off + 2),
            padding_u32: read_u32(b, off + 4),
            order_id: read_i64(b, off + 8),
            perps: read_i64(b, off + 16),
            crncy: read_i64(b, off + 24),
        }
    }

    pub fn write(&self, out: &mut Vec<u8>)
        ensures
            final(out)@.len() == old(out)@.len() + PERP_MASS_CANCEL_REPORT_SIZE,
            final(out)@.subrange(0, old(out)@.len() as int) == old(out)@,
            Self::wire_at(final(out)@, old(out)@.len() as int) == *self,
    {
        let ghost base = out@;
        put_u8(out, self.tag);
        put_u8(out, self.side);
        put_u16(out, self.padding_u16);
        put_u32(out, self.padding_u32);
        put_i64(out, self.order_id);
        put_i64(out, self.perps);
        put_i64(out, self.crncy);
        proof {
            lemma_auto_spec_u16_to_from_le_bytes();
            lemma_auto_spec_u32_to_from_le_bytes();
            lemma_auto_spec_u64_to_from_le_bytes();
            lemma_auto_spec_i64_to_from_le_bytes();
            assert(out@ == base + seq![self.tag] + seq![self.side] + spec_u16_to_le_bytes(self.padding_u16) + spec_u32_to_le_bytes(self.padding_u32) + spec_i64_to_le_bytes(self.order_id) + spec_i64_to_le_bytes(self.perps) + spec_i64_to_le_bytes(self.crncy));
            assert(out@[base.len() as int] == self.tag);
            assert(out@[base.len() as int + 1] == self.side);
            assert(out@.subrange(base.len() as int + 2, base.len() as int + 4) =~= spec_u16_to_le_bytes(self.padding_u16));
            assert(out@.subrange(base.len() as int + 4, base.len() as int + 8) =~= spec_u32_to_le_bytes(self.padding_u32));
            assert(out@.subrange(base.len() as int + 8, base.len() as int + 16) =~= spec_i64_to_le_bytes(self.order_id));
            assert(out@.subrange(base.len() as int + 16, base.len() as int + 24) =~= spec_i64_to_le_bytes(self.perps));
            assert(out@.subrange(base.len() as int + 24, base.len() as int + 32) =~= spec_i64_to_le_bytes(self.crncy));
            assert(out@.subrange(0, base.len() as int) =~= base);
            assert(Self::wire_at(out@, base.len() as int) == *self);
        }
    }

    pub fn encode(&self) -> (r: Vec<u8>)
        ensures
            r@.len() == PERP_MASS_CANCEL_REPORT_SIZE,
            Self::wire_at(r@, 0) == *self,
    {
        let mut out: Vec<u8> = Vec::new();
        self.write(&mut out);
        out
    }
}

/// Report of one `SpotMassCancel` event.
#[derive(Clone, Copy, Debug, PartialEq)]
pub struct SpotMassCancelReport {
    pub tag: u8,
    pub side: u8,
    pub padding_u16: u16,
    pub padding_u32: u32,
    pub order_id: i64,
    pub qty: i64,
    pub crncy: i64,
}

pub const SPOT_MASS_CANCEL_REPORT_SIZE: usize = 32;

impl SpotMassCancelReport {
    /// The `SpotMassCancelReport` image that starts at byte offset `off` of a buffer.
    pub open spec fn wire_at(b: Seq<u8>, off: int) -> SpotMassCancelReport {
        SpotMassCancelReport {
            tag: b[off],
            side: b[off + 1],
            padding_u16: spec_u16_from_le_bytes(b.subrange(off + 2, off + 4)),
            padding_u32: spec_u32_from_le_bytes(b.subrange(off + 4, off + 8)),
            order_id: spec_i64_from_le_bytes(b.subrange(off + 8, off + 16)),
            qty: spec_i64_from_le_bytes(b.subrange(off + 16, off + 24)),
            crncy: spec_i64_from_le_bytes(b.subrange(off + 24, off + 32)),
        }
    }

    pub fn read_at(b: &[u8], off: usize) -> (r: SpotMassCancelReport)
        requires
            off + SPOT_MASS_CANCEL_REPORT_SIZE <= b@.len(),
        ensures
            r == Self::wire_at(b@, off as int),
    {
        let n = b.len();
        assert(off + 32 <= n);
        SpotMassCancelReport {
            tag: read_u8(b, off),
            side: read_u8(b, off + 1),
            padding_u16: read_u16(b, off + 2),
            padding_u32: read_u32(b, off + 4),
            order_id: read_i64(b, off + 8),
            qty: read_i64(b, off + 16),
            crncy: read_i64(b, off + 24),
        }
    }

    pub fn write(&self, out: &mut Vec<u8>)
        ensures
            final(out)@.len() == old(out)@.len() + SPOT_MASS_CANCEL_REPORT_SIZE,
            final(out)@.subrange(0, old(out)@.len() as int) == old(out)@,
            Self::wire_at(final(out)@, old(out)@.len() as int) == *self,
    {
        let ghost base = out@;
        put_u8(out, self.tag);
        put_u8(out, self.side);
        put_u16(out, self.padding_u16);
        put_u32(out, self.padding_u32);
        put_i64(out, self.order_id);
        put_i64(out, self.qty);
        put_i64(out, self.crncy);
        proof {
            lemma_auto_spec_u16_to_from_le_bytes();
            lemma_auto_spec_u32_to_from_le_bytes();
            lemma_auto_spec_u64_to_from_le_bytes();
            lemma_auto_spec_i64_to_from_le_bytes();
            assert(out@ == base + seq![self.tag] + seq![self.side] + spec_u16_to_le_bytes(self.padding_u16) + spec_u32_to_le_bytes(self.padding_u32) + spec_i64_to_le_bytes(self.order_id) + spec_i64_to_le_bytes(self.qty) + spec_i64_to_le_bytes(self.crncy));
            assert(out@[base.len() as int] == self.tag);
            assert(out@[base.len() as int + 1] == self.side);
            assert(out@.subrange(base.len() as int + 2, base.len() as int + 4) =~= spec_u16_to_le_bytes(self.padding_u16));
            assert(out@.subrange(base.len() as int + 4, base.len() as int + 8) =~= spec_u32_to_le_bytes(self.padding_u32));
            assert(out@.subrange(base.len() as int + 8, base.len() as int + 16) =~= spec_i64_to_le_bytes(self.order_id));
            assert(out@.subrange(base.len() as int + 16, base.len() as int + 24) =~= spec_i64_to_le_bytes(self.qty));
            assert(out@.subrange(base.len() as int + 24, base.len() as int + 32) =~= spec_i64_to_le_bytes(self.crncy));
            assert(out@.subrange(0, base.len() as int) =~= base);
            assert(Self::wire_at(out@, base.len() as int) == *self);
        }
    }

    pub fn encode(&self) -> (r: Vec<u8>)
        ensures
            r@.len() == SPOT_MASS_CANCEL_REPORT_SIZE,
            Self::wire_at(r@, 0) == *self,
    {
        let mut out: Vec<u8> = Vec::new();
        self.write(&mut out);
        out
    }
}

/// Report of one `PerpFees` event.
#[derive(Clone, Copy, Debug, PartialEq)]
pub struct PerpFeesReport {
    pub tag: u8,
    pub padding_u8: u8,
    pub padding_u16: u16,
    pub ref_client_id: ClientId,
    pub fees: i64,
    pub ref_payment: i64,
}

pub const PERP_FEES_REPORT_SIZE: usize = 24;

impl PerpFeesReport {
    /// The `PerpFeesReport` image that starts at byte offset `off` of a buffer.
    pub open spec fn wire_at(b: Seq<u8>, off: int) -> PerpFeesReport {
        PerpFeesReport {
            tag: b[off],
            padding_u8: b[off + 1],
            padding_u16: spec_u16_from_le_bytes(b.subrange(off + 2, off + 4)),
            ref_client_id: ClientId(spec_u32_from_le_bytes(b.subrange(off + 4, off + 8))),
            fees: spec_i64_from_le_bytes(b.subrange(off + 8, off + 16)),
            ref_payment: spec_i64_from_le_bytes(b.subrange(off + 16, off + 24)),
        }
    }

    pub fn read_at(b: &[u8], off: usize) -> (r: PerpFeesReport)
        requires
            off + PERP_FEES_REPORT_SIZE <= b@.len(),
        ensures
            r == Self::wire_at(b@, off as int),
    {
        let n = b.len();
        assert(off + 24 <= n);
        PerpFeesReport {
            tag: read_u8(b, off),
            padding_u8: read_u8(b, off + 1),
            padding_u16: read_u16(b, off + 2),
            ref_client_id: ClientId(read_u32(b, off + 4)),
            fees: read_i64(b, off + 8),
            ref_payment: read_i64(b, off + 16),
        }
    }

    pub fn write(&self, out: &mut Vec<u8>)
        ensures
            final(out)@.len() == old(out)@.len() + PERP_FEES_REPORT_SIZE,
            final(out)@.subrange(0, old(out)@.len() as int) == old(out)@,
            Self::wire_at(final(out)@, old(out)@.len() as int) == *self,
    {
        let ghost base = out@;
        put_u8(out, self.tag);
        put_u8(out, self.padding_u8);
        put_u16(out, self.padding_u16);
        put_u32(out, self.ref_client_id.0);
        put_i64(out, self.fees);
        put_i64(out, self.ref_payment);
        proof {
            lemma_auto_spec_u16_to_from_le_bytes();
            lemma_auto_spec_u32_to_from_le_bytes();
            lemma_auto_spec_u64_to_from_le_bytes();
            lemma_auto_spec_i64_to_from_le_bytes();
            assert(out@ == base + seq![self.tag] + seq![self.padding_u8] + spec_u16_to_le_bytes(self.padding_u16) + spec_u32_to_le_bytes(self.ref_client_id.0) + spec_i64_to_le_bytes(self.fees) + spec_i64_to_le_bytes(self.ref_payment));
            assert(out@[base.len() as int] == self.tag);
            assert(out@[base.len() as int + 1] == self.padding_u8);
            assert(out@.subrange(base.len() as int + 2, base.len() as int + 4) =~= spec_u16_to_le_bytes(self.padding_u16));
            assert(out@.subrange(base.len() as int + 4, base.len() as int + 8) =~= spec_u32_to_le_bytes(self.ref_client_id.0));
            assert(out@.subrange(base.len() as int + 8, base.len() as int + 16) =~= spec_i64_to_le_bytes(self.fees));
            assert(out@.subrange(base.len() as int + 16, base.len() as int + 24) =~= spec_i64_to_le_bytes(self.ref_payment));
            assert(out@.subrange(0, base.len() as int) =~= base);
            assert(Self::wire_at(out@, base.len() as int) == *self);
        }
    }

    pub fn encode(&self) -> (r: Vec<u8>)
        ensures
            r@.len() == PERP_FEES_REPORT_SIZE,
            Self::wire_at(r@, 0) == *self,
    {
        let mut out: Vec<u8> = Vec::new();
        self.write(&mut out);
        out
    }
}

/// Report of one `SpotFees` event.
#[derive(Clone, Copy, Debug, PartialEq)]
pub struct SpotFeesReport {
    pub tag: u8,
    pub padding_u8: u8,
    pub padding_u16: u16,
    pub ref_client_id: ClientId,
    pub fees: i64,
    pub ref_payment: i64,
}

pub const SPOT_FEES_REPORT_SIZE: usize = 24;

impl SpotFeesReport {
    /// The `SpotFeesReport` image that starts at byte offset `off` of a buffer.
    pub open spec fn wire_at(b: Seq<u8>, off: int) -> SpotFeesReport {
        SpotFeesReport {
            tag: b[off],
            padding_u8: b[off + 1],
            padding_u16: spec_u16_from_le_bytes(b.subrange(off + 2, off + 4)),
            ref_client_id: ClientId(spec_u32_from_le_bytes(b.subrange(off + 4, off + 8))),
            fees: spec_i64_from_le_bytes(b.subrange(off + 8, off + 16)),
            ref_payment: spec_i64_from_le_bytes(b.subrange(off + 16, off + 24)),
        }
    }

    pub fn read_at(b: &[u8], off: usize) -> (r: SpotFeesReport)
        requires
            off + SPOT_FEES_REPORT_SIZE <= b@.len(),
        ensures
            r == Self::wire_at(b@, off as int),
    {
        let n = b.len();
        assert(off + 24 <= n);
        SpotFeesReport {
            tag: read_u8(b, off),
            padding_u8: read_u8(b, off + 1),
            padding_u16: read_u16(b, off + 2),
            ref_client_id: ClientId(read_u32(b, off + 4)),
            fees: read_i64(b, off + 8),
            ref_payment: read_i64(b, off + 16),
        }
    }

    pub fn write(&self, out: &mut Vec<u8>)
        ensures
            final(out)@.len() == old(out)@.len() + SPOT_FEES_REPORT_SIZE,
            final(out)@.subrange(0, old(out)@.len() as int) == old(out)@,
            Self::wire_at(final(out)@, old(out)@.len() as int) == *self,
    {
        let ghost base = out@;
        put_u8(out, self.tag);
        put_u8(out, self.padding_u8);
        put_u16(out, self.padding_u16);
        put_u32(out, self.ref_client_id.0);
        put_i64(out, self.fees);
        put_i64(out, self.ref_payment);
        proof {
            lemma_auto_spec_u16_to_from_le_bytes();
            lemma_auto_spec_u32_to_from_le_bytes();
            lemma_auto_spec_u64_to_from_le_bytes();
            lemma_auto_spec_i64_to_from_le_bytes();
            assert(out@ == base + seq![self.tag] + seq![self.padding_u8] + spec_u16_to_le_bytes(self.padding_u16) + spec_u32_to_le_bytes(self.ref_client_id.0) + spec_i64_to_le_bytes(self.fees) + spec_i64_to_le_bytes(self.ref_payment));
            assert(out@[base.len() as int] == self.tag);
            assert(out@[base.len() as int + 1] == self.padding_u8);
            assert(out@.subrange(base.len() as int + 2, base.len() as int + 4) =~= spec_u16_to_le_bytes(self.padding_u16));
            assert(out@.subrange(base.len() as int + 4, base.len() as int + 8) =~= spec_u32_to_le_bytes(self.ref_client_id.0));
            assert(out@.subrange(base.len() as int + 8, base.len() as int + 16) =~= spec_i64_to_le_bytes(self.fees));
            assert(out@.subrange(base.len() as int + 16, base.len() as int + 24) =~= spec_i64_to_le_bytes(self.ref_payment));
            assert(out@.subrange(0, base.len() as int) =~= base);
            assert(Self::wire_at(out@, base.len() as int) == *self);
        }
    }

    pub fn encode(&self) -> (r: Vec<u8>)
        ensures
            r@.len() == SPOT_FEES_REPORT_SIZE,
            Self::wire_at(r@, 0) == *self,
    {
        let mut out: Vec<u8> = Vec::new();
        self.write(&mut out);
        out
    }
}

/// Report of one `PerpFunding` event.
#[derive(Clone, Copy, Debug, PartialEq)]
pub struct PerpFundingReport {
    pub tag: u8,
    pub padding_u8: u8,
    pub padding_u16: u16,
    pub client_id: ClientId,
    pub instr_id: InstrId,
    pub time: u32,
    pub funding: i64,
}

pub const PERP_FUNDING_REPORT_SIZE: usize = 24;

impl PerpFundingReport {
    /// The `PerpFundingReport` image that starts at byte offset `off` of a buffer.
    pub open spec fn wire_at(b: Seq<u8>, off: int) -> PerpFundingReport {
        PerpFundingReport {
            tag: b[off],
            padding_u8: b[off + 1],
            padding_u16: spec_u16_from_le_bytes(b.subrange(off + 2, off + 4)),
            client_id: ClientId(spec_u32_from_le_bytes(b.subrange(off + 4, off + 8))),
            instr_id: InstrId(spec_u32_from_le_bytes(b.subrange(off + 8, off + 12))),
            time: spec_u32_from_le_bytes(b.subrange(off + 12, off + 16)),
            funding: spec_i64_from_le_bytes(b.subrange(off + 16, off + 24)),
        }
    }

    pub fn read_at(b: &[u8], off: usize) -> (r: PerpFundingReport)
        requires
            off + PERP_FUNDING_REPORT_SIZE <= b@.len(),
        ensures
            r == Self::wire_at(b@, off as int),
    {
        let n = b.len();
        assert(off + 24 <= n);
        PerpFundingReport {
            tag: read_u8(b, off),
            padding_u8: read_u8(b, off + 1),
            padding_u16: read_u16(b, off + 2),
            client_id: ClientId(read_u32(b, off + 4)),
            instr_id: InstrId(read_u32(b, off + 8)),
            time: read_u32(b, off + 12),
            funding: read_i64(b, off + 16),
        }
    }

    pub fn write(&self, out: &mut Vec<u8>)
        ensures
            final(out)@.len() == old(out)@.len() + PERP_FUNDING_REPORT_SIZE,
            final(out)@.subrange(0, old(out)@.len() as int) == old(out)@,
            Self::wire_at(final(out)@, old(out)@.len() as int) == *self,
    {
        let ghost base = out@;
        put_u8(out, self.tag);
        put_u8(out, self.padding_u8);
        put_u16(out, self.padding_u16);
        put_u32(out, self.client_id.0);
        put_u32(out, self.instr_id.0);
        put_u32(out, self.time);
        put_i64(out, self.funding);
        proof {
            lemma_auto_spec_u16_to_from_le_bytes();
            lemma_auto_spec_u32_to_from_le_bytes();
            lemma_auto_spec_u64_to_from_le_bytes();
            lemma_auto_spec_i64_to_from_le_bytes();
            assert(out@ == base + seq![self.tag] + seq![self.padding_u8] + spec_u16_to_le_bytes(self.padding_u16) + spec_u32_to_le_bytes(self.client_id.0) + spec_u32_to_le_bytes(self.instr_id.0) + spec_u32_to_le_bytes(self.time) + spec_i64_to_le_bytes(self.funding));
            assert(out@[base.len() as int] == self.tag);
            assert(out@[base.len() as int + 1] == self.padding_u8);
            assert(out@.subrange(base.len() as int + 2, base.len() as int + 4) =~= spec_u16_to_le_bytes(self.padding_u16));
            assert(out@.subrange(base.len() as int + 4, base.len() as int + 8) =~= spec_u32_to_le_bytes(self.client_id.0));
            assert(out@.subrange(base.len() as int + 8, base.len() as int + 12) =~= spec_u32_to_le_bytes(self.instr_id.0));
            assert(out@.subrange(base.len() as int + 12, base.len() as int + 16) =~= spec_u32_to_le_bytes(self.time));
            assert(out@.subrange(base.len() as int + 16, base.len() as int + 24) =~= spec_i64_to_le_bytes(self.funding));
            assert(out@.subrange(0, base.len() as int) =~= base);
            assert(Self::wire_at(out@, base.len() as int) == *self);
        }
    }

    pub fn encode(&self) -> (r: Vec<u8>)
        ensures
            r@.len() == PERP_FUNDING_REPORT_SIZE,
            Self::wire_at(r@, 0) == *self,
    {
        let mut out: Vec<u8> = Vec::new();
        self.write(&mut out);
        out
    }
}

/// Report of one `PerpSocLoss` event.
#[derive(Clone, Copy, Debug, PartialEq)]
pub struct PerpSocLossReport {
    pub tag: u8,
    pub padding_u8: u8,
    pub padding_u16: u16,
    pub client_id: ClientId,
    pub instr_id: InstrId,
    pub time: u32,
    pub soc_loss: i64,
}

pub const PERP_SOC_LOSS_REPORT_SIZE: usize = 24;

impl PerpSocLossReport {
    /// The `PerpSocLossReport` image that starts at byte offset `off` of a buffer.
    pub open spec fn wire_at(b: Seq<u8>, off: int) -> PerpSocLossReport {
        PerpSocLossReport {
            tag: b[off],
            padding_u8: b[off + 1],
            padding_u16: spec_u16_from_le_bytes(b.subrange(off + 2, off + 4)),
            client_id: ClientId(spec_u32_from_le_bytes(b.subrange(off + 4, off + 8))),
            instr_id: InstrId(spec_u32_from_le_bytes(b.subrange(off + 8, off + 12))),
            time: spec_u32_from_le_bytes(b.subrange(off + 12, off + 16)),
            soc_loss: spec_i64_from_le_bytes(b.subrange(off + 16, off + 24)),
        }
    }

    pub fn read_at(b: &[u8], off: usize) -> (r: PerpSocLossReport)
        requires
            off + PERP_SOC_LOSS_REPORT_SIZE <= b@.len(),
        ensures
            r == Self::wire_at(b@, off as int),
    {
        let n = b.len();
        assert(off + 24 <= n);
        PerpSocLossReport {
            tag: read_u8(b, off),
            padding_u8: read_u8(b, off + 1),
            padding_u16: read_u16(b, off + 2),
            client_id: ClientId(read_u32(b, off + 4)),
            instr_id: InstrId(read_u32(b, off + 8)),
            time: read_u32(b, off + 12),
            soc_loss: read_i64(b, off + 16),
        }
    }

    pub fn write(&self, out: &mut Vec<u8>)
        ensures
            final(out)@.len() == old(out)@.len() + PERP_SOC_LOSS_REPORT_SIZE,
            final(out)@.subrange(0, old(out)@.len() as int) == old(out)@,
            Self::wire_at(final(out)@, old(out)@.len() as int) == *self,
    {
        let ghost base = out@;
        put_u8(out, self.tag);
        put_u8(out, self.padding_u8);
        put_u16(out, self.padding_u16);
        put_u32(out, self.client_id.0);
        put_u32(out, self.instr_id.0);
        put_u32(out, self.time);
        put_i64(out, self.soc_loss);
        proof {
            lemma_auto_spec_u16_to_from_le_bytes();
            lemma_auto_spec_u32_to_from_le_bytes();
            lemma_auto_spec_u64_to_from_le_bytes();
            lemma_auto_spec_i64_to_from_le_bytes();
            assert(out@ == base + seq![self.tag] + seq![self.padding_u8] + spec_u16_to_le_bytes(self.padding_u16) + spec_u32_to_le_bytes(self.client_id.0) + spec_u32_to_le_bytes(self.instr_id.0) + spec_u32_to_le_bytes(self.time) + spec_i64_to_le_bytes(self.soc_loss));
            assert(out@[base.len() as int] == self.tag);
            assert(out@[base.len() as int + 1] == self.padding_u8);
            assert(out@.subrange(base.len() as int + 2, base.len() as int + 4) =~= spec_u16_to_le_bytes(self.padding_u16));
            assert(out@.subrange(base.len() as int + 4, base.len() as int + 8) =~= spec_u32_to_le_bytes(self.client_id.0));
            assert(out@.subrange(base.len() as int + 8, base.len() as int + 12) =~= spec_u32_to_le_bytes(self.instr_id.0));
            assert(out@.subrange(base.len() as int + 12, base.len() as int + 16) =~= spec_u32_to_le_bytes(self.time));
            assert(out@.subrange(base.len() as int + 16, base.len() as int + 24) =~= spec_i64_to_le_bytes(self.soc_loss));
            assert(out@.subrange(0, base.len() as int) =~= base);
            assert(Self::wire_at(out@, base.len() as int) == *self);
        }
    }

    pub fn encode(&self) -> (r: Vec<u8>)
        ensures
            r@.len() == PERP_SOC_LOSS_REPORT_SIZE,
            Self::wire_at(r@, 0) == *self,
    {
        let mut out: Vec<u8> = Vec::new();
        self.write(&mut out);
        out
    }
}

/// Report of one `PerpNewOrder` event.
#[derive(Clone, Copy, Debug, PartialEq)]
pub struct PerpNewOrderReport {
    pub tag: u8,
    pub side: u8,
    pub padding_u16: u16,
    pub padding_u32: u32,
    pub perps: i64,
    pub crncy: i64,
}

pub const PERP_NEW_ORDER_REPORT_SIZE: usize = 24;

impl PerpNewOrderReport {
    /// The `PerpNewOrderReport` image that starts at byte offset `off` of a buffer.
    pub open spec fn wire_at(b: Seq<u8>, off: int) -> PerpNewOrderReport {
        PerpNewOrderReport {
            tag: b[off],
            side: b[off + 1],
            padding_u16: spec_u16_from_le_bytes(b.subrange(off + 2, off + 4)),
            padding_u32: spec_u32_from_le_bytes(b.subrange(off + 4, off + 8)),
            perps: spec_i64_from_le_bytes(b.subrange(off + 8, off + 16)),
            crncy: spec_i64_from_le_bytes(b.subrange(off + 16, off + 24)),
        }
    }

    pub fn read_at(b: &[u8], off: usize) -> (r: PerpNewOrderReport)
        requires
            off + PERP_NEW_ORDER_REPORT_SIZE <= b@.len(),
        ensures
            r == Self::wire_at(b@, off as int),
    {
        let n = b.len();
        assert(off + 24 <= n);
        PerpNewOrderReport {
            tag: read_u8(b, off),
            side: read_u8(b, off + 1),
            padding_u16: read_u16(b, off + 2),
            padding_u32: read_u32(b, off + 4),
            perps: read_i64(b, off + 8),
            crncy: read_i64(b, off + 16),
        }
    }

    pub fn write(&self, out: &mut Vec<u8>)
        ensures
            final(out)@.len() == old(out)@.len() + PERP_NEW_ORDER_REPORT_SIZE,
            final(out)@.subrange(0, old(out)@.len() as int) == old(out)@,
            Self::wire_at(final(out)@, old(out)@.len() as int) == *self,
    {
        let ghost base = out@;
        put_u8(out, self.tag);
        put_u8(out, self.side);
        put_u16(out, self.padding_u16);
        put_u32(out, self.padding_u32);
        put_i64(out, self.perps);
        put_i64(out, self.crncy);
        proof {
            lemma_auto_spec_u16_to_from_le_bytes();
            lemma_auto_spec_u32_to_from_le_bytes();
            lemma_auto_spec_u64_to_from_le_bytes();
            lemma_auto_spec_i64_to_from_le_bytes();
            assert(out@ == base + seq![self.tag] + seq![self.side] + spec_u16_to_le_bytes(self.padding_u16) + spec_u32_to_le_bytes(self.padding_u32) + spec_i64_to_le_bytes(self.perps) + spec_i64_to_le_bytes(self.crncy));
            assert(out@[base.len() as int] == self.tag);
            assert(out@[base.len() as int + 1] == self.side);
            assert(out@.subrange(base.len() as int + 2, base.len() as int + 4) =~= spec_u16_to_le_bytes(self.padding_u16));
            assert(out@.subrange(base.len() as int + 4, base.len() as int + 8) =~= spec_u32_to_le_bytes(self.padding_u32));
            assert(out@.subrange(base.len() as int + 8, base.len() as int + 16) =~= spec_i64_to_le_bytes(self.perps));
            assert(out@.subrange(base.len() as int + 16, base.len() as int + 24) =~= spec_i64_to_le_bytes(self.crncy));
            assert(out@.subrange(0, base.len() as int) =~= base);
            assert(Self::wire_at(out@, base.len() as int) == *self);
        }
    }

    pub fn encode(&self) -> (r: Vec<u8>)
        ensures
            r@.len() == PERP_NEW_ORDER_REPORT_SIZE,
            Self::wire_at(r@, 0) == *self,
    {
        let mut out: Vec<u8> = Vec::new();
        self.write(&mut out);
        out
    }
}

/// Report of one `SpotNewOrder` event.
#[derive(Clone, Copy, Debug, PartialEq)]
pub struct SpotNewOrderReport {
    pub tag: u8,
    pub side: u8,
    pub padding_u16: u16,
    pub padding_u32: u32,
    pub qty: i64,
    pub crncy: i64,
}

pub const SPOT_NEW_ORDER_REPORT_SIZE: usize = 24;

impl SpotNewOrderReport {
    /// The `SpotNewOrderReport` image that starts at byte offset `off` of a buffer.
    pub open spec fn wire_at(b: Seq<u8>, off: int) -> SpotNewOrderReport {
        SpotNewOrderReport {
            tag: b[off],
            side: b[off + 1],
            padding_u16: spec_u16_from_le_bytes(b.subrange(off + 2, off + 4)),
            padding_u32: spec_u32_from_le_bytes(b.subrange(off + 4, off + 8)),
            qty: spec_i64_from_le_bytes(b.subrange(off + 8, off + 16)),
            crncy: spec_i64_from_le_bytes(b.subrange(off + 16, off + 24)),
        }
    }

    pub fn read_at(b: &[u8], off: usize) -> (r: SpotNewOrderReport)
        requires
            off + SPOT_NEW_ORDER_REPORT_SIZE <= b@.len(),
        ensures
            r == Self::wire_at(b@, off as int),
    {
        let n = b.len();
        assert(off + 24 <= n);
        SpotNewOrderReport {
            tag: read_u8(b, off),
            side: read_u8(b, off + 1),
            padding_u16: read_u16(b, off + 2),
            padding_u32: read_u32(b, off + 4),
            qty: read_i64(b, off + 8),
            crncy: read_i64(b, off + 16),
        }
    }

    pub fn write(&self, out: &mut Vec<u8>)
        ensures
            final(out)@.len() == old(out)@.len() + SPOT_NEW_ORDER_REPORT_SIZE,
            final(out)@.subrange(0, old(out)@.len() as int) == old(out)@,
            Self::wire_at(final(out)@, old(out)@.len() as int) == *self,
    {
        let ghost base = out@;
        put_u8(out, self.tag);
        put_u8(out, self.side);
        put_u16(out, self.padding_u16);
        put_u32(out, self.padding_u32);
        put_i64(out, self.qty);
        put_i64(out, self.crncy);
        proof {
            lemma_auto_spec_u16_to_from_le_bytes();
            lemma_auto_spec_u32_to_from_le_bytes();
            lemma_auto_spec_u64_to_from_le_bytes();
            lemma_auto_spec_i64_to_from_le_bytes();
            assert(out@ == base + seq![self.tag] + seq![self.side] + spec_u16_to_le_bytes(self.padding_u16) + spec_u32_to_le_bytes(self.padding_u32) + spec_i64_to_le_bytes(self.qty) + spec_i64_to_le_bytes(self.crncy));
            assert(out@[base.len() as int] == self.tag);
            assert(out@[base.len() as int + 1] == self.side);
            assert(out@.subrange(base.len() as int + 2, base.len() as int + 4) =~= spec_u16_to_le_bytes(self.padding_u16));
            assert(out@.subrange(base.len() as int + 4, base.len() as int + 8) =~= spec_u32_to_le_bytes(self.padding_u32));
            assert(out@.subrange(base.len() as int + 8, base.len() as int + 16) =~= spec_i64_to_le_bytes(self.qty));
            assert(out@.subrange(base.len() as int + 16, base.len() as int + 24) =~= spec_i64_to_le_bytes(self.crncy));
            assert(out@.subrange(0, base.len() as int) =~= base);
            assert(Self::wire_at(out@, base.len() as int) == *self);
        }
    }

    pub fn encode(&self) -> (r: Vec<u8>)
        ensures
            r@.len() == SPOT_NEW_ORDER_REPORT_SIZE,
            Self::wire_at(r@, 0) == *self,
    {
        let mut out: Vec<u8> = Vec::new();
        self.write(&mut out);
        out
    }
}

/// Report of one `PerpOrderCancel` event.
#[derive(Clone, Copy, Debug, PartialEq)]
pub struct PerpOrderCancelReport {
    pub tag: u8,
    pub side: u8,
    pub padding_u16: u16,
    pub client_id: ClientId,
    pub instr_id: InstrId,
    pub time: u32,
    pub order_id: i64,
    pub perps: i64,
    pub crncy: i64,
}

pub const PERP_ORDER_CANCEL_REPORT_SIZE: usize = 40;

impl PerpOrderCancelReport {
    /// The `PerpOrderCancelReport` image that starts at byte offset `off` of a buffer.
    pub open spec fn wire_at(b: Seq<u8>, off: int) -> PerpOrderCancelReport {
        PerpOrderCancelReport {
            tag: b[off],
            side: b[off + 1],
            padding_u16: spec_u16_from_le_bytes(b.subrange(off + 2, off + 4)),
            client_id: ClientId(spec_u32_from_le_bytes(b.subrange(off + 4, off + 8))),
            instr_id: InstrId(spec_u32_from_le_bytes(b.subrange(off + 8, off + 12))),
            time: spec_u32_from_le_bytes(b.subrange(off + 12, off + 16)),
            order_id: spec_i64_from_le_bytes(b.subrange(off + 16, off + 24)),
            perps: spec_i64_from_le_bytes(b.subrange(off + 24, off + 32)),
            crncy: spec_i64_from_le_bytes(b.subrange(off + 32, off + 40)),
        }
    }

    pub fn read_at(b: &[u8], off: usize) -> (r: PerpOrderCancelReport)
        requires
            off + PERP_ORDER_CANCEL_REPORT_SIZE <= b@.len(),
        ensures
            r == Self::wire_at(b@, off as int),
    {
        let n = b.len();
        assert(off + 40 <= n);
        PerpOrderCancelReport {
            tag: read_u8(b, off),
            side: read_u8(b, off + 1),
            padding_u16: read_u16(b, off + 2),
            client_id: ClientId(read_u32(b, off + 4)),
            instr_id: InstrId(read_u32(b, off + 8)),
            time: read_u32(b, off + 12),
            order_id: read_i64(b, off + 16),
            perps: read_i64(b, off + 24),
            crncy: read_i64(b, off + 32),
        }
    }

    pub fn write(&self, out: &mut Vec<u8>)
        ensures
            final(out)@.len() == old(out)@.len() + PERP_ORDER_CANCEL_REPORT_SIZE,
            final(out)@.subrange(0, old(out)@.len() as int) == old(out)@,
            Self::wire_at(final(out)@, old(out)@.len() as int) == *self,
    {
        let ghost base = out@;
        put_u8(out, self.tag);
        put_u8(out, self.side);
        put_u16(out, self.padding_u16);
        put_u32(out, self.client_id.0);
        put_u32(out, self.instr_id.0);
        put_u32(out, self.time);
        put_i64(out, self.order_id);
        put_i64(out, self.perps);
        put_i64(out, self.crncy);
        proof {
            lemma_auto_spec_u16_to_from_le_bytes();
            lemma_auto_spec_u32_to_from_le_bytes();
            lemma_auto_spec_u64_to_from_le_bytes();
            lemma_auto_spec_i64_to_from_le_bytes();
            assert(out@ == base + seq![self.tag] + seq![self.side] + spec_u16_to_le_bytes(self.padding_u16) + spec_u32_to_le_bytes(self.client_id.0) + spec_u32_to_le_bytes(self.instr_id.0) + spec_u32_to_le_bytes(self.time) + spec_i64_to_le_bytes(self.order_id) + spec_i64_to_le_bytes(self.perps) + spec_i64_to_le_bytes(self.crncy));
            assert(out@[base.len() as int] == self.tag);
            assert(out@[base.len() as int + 1] == self.side);
            assert(out@.subrange(base.len() as int + 2, base.len() as int + 4) =~= spec_u16_to_le_bytes(self.padding_u16));
            assert(out@.subrange(base.len() as int + 4, base.len() as int + 8) =~= spec_u32_to_le_bytes(self.client_id.0));
            assert(out@.subrange(base.len() as int + 8, base.len() as int + 12) =~= spec_u32_to_le_bytes(self.instr_id.0));
            assert(out@.subrange(base.len() as int + 12, base.len() as int + 16) =~= spec_u32_to_le_bytes(self.time));
            assert(out@.subrange(base.len() as int + 16, base.len() as int + 24) =~= spec_i64_to_le_bytes(self.order_id));
            assert(out@.subrange(base.len() as int + 24, base.len() as int + 32) =~= spec_i64_to_le_bytes(self.perps));
            assert(out@.subrange(base.len() as int + 32, base.len() as int + 40) =~= spec_i64_to_le_bytes(self.crncy));
            assert(out@.subrange(0, base.len() as int) =~= base);
            assert(Self::wire_at(out@, base.len() as int) == *self);
        }
    }

    pub fn encode(&self) -> (r: Vec<u8>)
        ensures
            r@.len() == PERP_ORDER_CANCEL_REPORT_SIZE,
            Self::wire_at(r@, 0) == *self,
    {
        let mut out: Vec<u8> = Vec::new();
        self.write(&mut out);
        out
    }
}

/// Report of one `SpotOrderCancel` event.
#[derive(Clone, Copy, Debug, PartialEq)]
pub struct SpotOrderCancelReport {
    pub tag: u8,
    pub side: u8,
    pub padding_u16: u16,
    pub client_id: ClientId,
    pub instr_id: InstrId,
    pub time: u32,
    pub order_id: i64,
    pub qty: i64,
    pub crncy: i64,
}

pub const SPOT_ORDER_CANCEL_REPORT_SIZE: usize = 40;

impl SpotOrderCancelReport {
    /// The `SpotOrderCancelReport` image that starts at byte offset `off` of a buffer.
    pub open spec fn wire_at(b: Seq<u8>, off: int) -> SpotOrderCancelReport {
        SpotOrderCancelReport {
            tag: b[off],
            side: b[off + 1],
            padding_u16: spec_u16_from_le_bytes(b.subrange(off + 2, off + 4)),
            client_id: ClientId(spec_u32_from_le_bytes(b.subrange(off + 4, off + 8))),
            instr_id: InstrId(spec_u32_from_le_bytes(b.subrange(off + 8, off + 12))),
            time: spec_u32_from_le_bytes(b.subrange(off + 12, off + 16)),
            order_id: spec_i64_from_le_bytes(b.subrange(off + 16, off + 24)),
            qty: spec_i64_from_le_bytes(b.subrange(off + 24, off + 32)),
            crncy: spec_i64_from_le_bytes(b.subrange(off + 32, off + 40)),
        }
    }

    pub fn read_at(b: &[u8], off: usize) -> (r: SpotOrderCancelReport)
        requires
            off + SPOT_ORDER_CANCEL_REPORT_SIZE <= b@.len(),
        ensures
            r == Self::wire_at(b@, off as int),
    {
        let n = b.len();
        assert(off + 40 <= n);
        SpotOrderCancelReport {
            tag: read_u8(b, off),
            side: read_u8(b, off + 1),
            padding_u16: read_u16(b, off + 2),
            client_id: ClientId(read_u32(b, off + 4)),
            instr_id: InstrId(read_u32(b, off + 8)),
            time: read_u32(b, off + 12),
            order_id: read_i64(b, off + 16),
            qty: read_i64(b, off + 24),
            crncy: read_i64(b, off + 32),
        }
    }

    pub fn write(&self, out: &mut Vec<u8>)
        ensures
            final(out)@.len() == old(out)@.len() + SPOT_ORDER_CANCEL_REPORT_SIZE,
            final(out)@.subrange(0, old(out)@.len() as int) == old(out)@,
            Self::wire_at(final(out)@, old(out)@.len() as int) == *self,
    {
        let ghost base = out@;
        put_u8(out, self.tag);
        put_u8(out, self.side);
        put_u16(out, self.padding_u16);
        put_u32(out, self.client_id.0);
        put_u32(out, self.instr_id.0);
        put_u32(out, self.time);
        put_i64(out, self.order_id);
        put_i64(out, self.qty);
        put_i64(out, self.crncy);
        proof {
            lemma_auto_spec_u16_to_from_le_bytes();
            lemma_auto_spec_u32_to_from_le_bytes();
            lemma_auto_spec_u64_to_from_le_bytes();
            lemma_auto_spec_i64_to_from_le_bytes();
            assert(out@ == base + seq![self.tag] + seq![self.side] + spec_u16_to_le_bytes(self.padding_u16) + spec_u32_to_le_bytes(self.client_id.0) + spec_u32_to_le_bytes(self.instr_id.0) + spec_u32_to_le_bytes(self.time) + spec_i64_to_le_bytes(self.order_id) + spec_i64_to_le_bytes(self.qty) + spec_i64_to_le_bytes(self.crncy));
            assert(out@[base.len() as int] == self.tag);
            assert(out@[base.len() as int + 1] == self.side);
            assert(out@.subrange(base.len() as int + 2, base.len() as int + 4) =~= spec_u16_to_le_bytes(self.padding_u16));
            assert(out@.subrange(base.len() as int + 4, base.len() as int + 8) =~= spec_u32_to_le_bytes(self.client_id.0));
            assert(out@.subrange(base.len() as int + 8, base.len() as int + 12) =~= spec_u32_to_le_bytes(self.instr_id.0));
            assert(out@.subrange(base.len() as int + 12, base.len() as int + 16) =~= spec_u32_to_le_bytes(self.time));
            assert(out@.subrange(base.len() as int + 16, base.len() as int + 24) =~= spec_i64_to_le_bytes(self.order_id));
            assert(out@.subrange(base.len() as int + 24, base.len() as int + 32) =~= spec_i64_to_le_bytes(self.qty));
            assert(out@.subrange(base.len() as int + 32, base.len() as int + 40) =~= spec_i64_to_le_bytes(self.crncy));
            assert(out@.subrange(0, base.len() as int) =~= base);
            assert(Self::wire_at(out@, base.len() as int) == *self);
        }
    }

    pub fn encode(&self) -> (r: Vec<u8>)
        ensures
            r@.len() == SPOT_ORDER_CANCEL_REPORT_SIZE,
            Self::wire_at(r@, 0) == *self,
    {
        let mut out: Vec<u8> = Vec::new();
        self.write(&mut out);
        out
    }
}

/// Report of one `PerpOrderRevoke` event.
#[derive(Clone, Copy, Debug, PartialEq)]
pub struct PerpOrderRevokeReport {
    pub tag: u8,
    pub side: u8,
    pub padding_u16: u16,
    pub client_id: ClientId,
    pub order_id: i64,
    pub perps: i64,
    pub crncy: i64,
}

pub const PERP_ORDER_REVOKE_REPORT_SIZE: usize = 32;

impl PerpOrderRevokeReport {
    /// The `PerpOrderRevokeReport` image that starts at byte offset `off` of a buffer.
    pub open spec fn wire_at(b: Seq<u8>, off: int) -> PerpOrderRevokeReport {
        PerpOrderRevokeReport {
            tag: b[off],
            side: b[off + 1],
            padding_u16: spec_u16_from_le_bytes(b.subrange(off + 2, off + 4)),
            client_id: ClientId(spec_u32_from_le_bytes(b.subrange(off + 4, off + 8))),
            order_id: spec_i64_from_le_bytes(b.subrange(off + 8, off + 16)),
            perps: spec_i64_from_le_bytes(b.subrange(off + 16, off + 24)),
            crncy: spec_i64_from_le_bytes(b.subrange(off + 24, off + 32)),
        }
    }

    pub fn read_at(b: &[u8], off: usize) -> (r: PerpOrderRevokeReport)
        requires
            off + PERP_ORDER_REVOKE_REPORT_SIZE <= b@.len(),
        ensures
            r == Self::wire_at(b@, off as int),
    {
        let n = b.len();
        assert(off + 32 <= n);
        PerpOrderRevokeReport {
            tag: read_u8(b, off),
            side: read_u8(b, off + 1),
            padding_u16: read_u16(b, off + 2),
            client_id: ClientId(read_u32(b, off + 4)),
            order_id: read_i64(b, off + 8),
            perps: read_i64(b, off + 16),
            crncy: read_i64(b, off + 24),
        }
    }

    pub fn write(&self, out: &mut Vec<u8>)
        ensures
            final(out)@.len() == old(out)@.len() + PERP_ORDER_REVOKE_REPORT_SIZE,
            final(out)@.subrange(0, old(out)@.len() as int) == old(out)@,
            Self::wire_at(final(out)@, old(out)@.len() as int) == *self,
    {
        let ghost base = out@;
        put_u8(out, self.tag);
        put_u8(out, self.side);
        put_u16(out, self.padding_u16);
        put_u32(out, self.client_id.0);
        put_i64(out, self.order_id);
        put_i64(out, self.perps);
        put_i64(out, self.crncy);
        proof {
            lemma_auto_spec_u16_to_from_le_bytes();
            lemma_auto_spec_u32_to_from_le_bytes();
            lemma_auto_spec_u64_to_from_le_bytes();
            lemma_auto_spec_i64_to_from_le_bytes();
            assert(out@ == base + seq![self.tag] + seq![self.side] + spec_u16_to_le_bytes(self.padding_u16) + spec_u32_to_le_bytes(self.client_id.0) + spec_i64_to_le_bytes(self.order_id) + spec_i64_to_le_bytes(self.perps) + spec_i64_to_le_bytes(self.crncy));
            assert(out@[base.len() as int] == self.tag);
            assert(out@[base.len() as int + 1] == self.side);
            assert(out@.subrange(base.len() as int + 2, base.len() as int + 4) =~= spec_u16_to_le_bytes(self.padding_u16));
            assert(out@.subrange(base.len() as int + 4, base.len() as int + 8) =~= spec_u32_to_le_bytes(self.client_id.0));
            assert(out@.subrange(base.len() as int + 8, base.len() as int + 16) =~= spec_i64_to_le_bytes(self.order_id));
            assert(out@.subrange(base.len() as int + 16, base.len() as int + 24) =~= spec_i64_to_le_bytes(self.perps));
            assert(out@.subrange(base.len() as int + 24, base.len() as int + 32) =~= spec_i64_to_le_bytes(self.crncy));
            assert(out@.subrange(0, base.len() as int) =~= base);
            assert(Self::wire_at(out@, base.len() as int) == *self);
        }
    }

    pub fn encode(&self) -> (r: Vec<u8>)
        ensures
            r@.len() == PERP_ORDER_REVOKE_REPORT_SIZE,
            Self::wire_at(r@, 0) == *self,
    {
        let mut out: Vec<u8> = Vec::new();
        self.write(&mut out);
        out
    }
}

/// Report of one `SpotOrderRevoke` event.
#[derive(Clone, Copy, Debug, PartialEq)]
pub struct SpotOrderRevokeReport {
    pub tag: u8,
    pub side: u8,
    pub padding_u16: u16,
    pub client_id: ClientId,
    pub order_id: i64,
    pub qty: i64,
    pub crncy: i64,
}

pub const SPOT_ORDER_REVOKE_REPORT_SIZE: usize = 32;

impl SpotOrderRevokeReport {
    /// The `SpotOrderRevokeReport` image that starts at byte offset `off` of a buffer.
    pub open spec fn wire_at(b: Seq<u8>, off: int) -> SpotOrderRevokeReport {
        SpotOrderRevokeReport {
            tag: b[off],
            side: b[off + 1],
            padding_u16: spec_u16_from_le_bytes(b.subrange(off + 2, off + 4)),
            client_id: ClientId(spec_u32_from_le_bytes(b.subrange(off + 4, off + 8))),
            order_id: spec_i64_from_le_bytes(b.subrange(off + 8, off + 16)),
            qty: spec_i64_from_le_bytes(b.subrange(off + 16, off + 24)),
            crncy: spec_i64_from_le_bytes(b.subrange(off + 24, off + 32)),
        }
    }

    pub fn read_at(b: &[u8], off: usize) -> (r: SpotOrderRevokeReport)
        requires
            off + SPOT_ORDER_REVOKE_REPORT_SIZE <= b@.len(),
        ensures
            r == Self::wire_at(b@, off as int),
    {
        let n = b.len();
        assert(off + 32 <= n);
        SpotOrderRevokeReport {
            tag: read_u8(b, off),
            side: read_u8(b, off + 1),
            padding_u16: read_u16(b, off + 2),
            client_id: ClientId(read_u32(b, off + 4)),
            order_id: read_i64(b, off + 8),
            qty: read_i64(b, off + 16),
            crncy: read_i64(b, off + 24),
        }
    }

    pub fn write(&self, out: &mut Vec<u8>)
        ensures
            final(out)@.len() == old(out)@.len() + SPOT_ORDER_REVOKE_REPORT_SIZE,
            final(out)@.subrange(0, old(out)@.len() as int) == old(out)@,
            Self::wire_at(final(out)@, old(out)@.len() as int) == *self,
    {
        let ghost base = out@;
        put_u8(out, self.tag);
        put_u8(out, self.side);
        put_u16(out, self.padding_u16);
        put_u32(out, self.client_id.0);
        put_i64(out, self.order_id);
        put_i64(out, self.qty);
        put_i64(out, self.crncy);
        proof {
            lemma_auto_spec_u16_to_from_le_bytes();
            lemma_auto_spec_u32_to_from_le_bytes();
            lemma_auto_spec_u64_to_from_le_bytes();
            lemma_auto_spec_i64_to_from_le_bytes();
            assert(out@ == base + seq![self.tag] + seq![self.side] + spec_u16_to_le_bytes(self.padding_u16) + spec_u32_to_le_bytes(self.client_id.0) + spec_i64_to_le_bytes(self.order_id) + spec_i64_to_le_bytes(self.qty) + spec_i64_to_le_bytes(self.crncy));
            assert(out@[base.len() as int] == self.tag);
            assert(out@[base.len() as int + 1] == self.side);
            assert(out@.subrange(base.len() as int + 2, base.len() as int + 4) =~= spec_u16_to_le_bytes(self.padding_u16));
            assert(out@.subrange(base.len() as int + 4, base.len() as int + 8) =~= spec_u32_to_le_bytes(self.client_id.0));
            assert(out@.subrange(base.len() as int + 8, base.len() as int + 16) =~= spec_i64_to_le_bytes(self.order_id));
            assert(out@.subrange(base.len() as int + 16, base.len() as int + 24) =~= spec_i64_to_le_bytes(self.qty));
            assert(out@.subrange(base.len() as int + 24, base.len() as int + 32) =~= spec_i64_to_le_bytes(self.crncy));
            assert(out@.subrange(0, base.len() as int) =~= base);
            assert(Self::wire_at(out@, base.len() as int) == *self);
        }
    }

    pub fn encode(&self) -> (r: Vec<u8>)
        ensures
            r@.len() == SPOT_ORDER_REVOKE_REPORT_SIZE,
            Self::wire_at(r@, 0) == *self,
    {
        let mut out: Vec<u8> = Vec::new();
        self.write(&mut out);
        out
    }
}

/// Report of one `MoveSpotAvailFunds` event.
#[derive(Clone, Copy, Debug, PartialEq)]
pub struct MoveSpotAvailFundsReport {
    pub tag: u8,
    pub padding_u8: u8,
    pub padding_u16: u16,
    pub client_id: ClientId,
    pub instr_id: InstrId,
    pub time: u32,
    pub qty: i64,
    pub crncy: i64,
}

pub const MOVE_SPOT_AVAIL_FUNDS_REPORT_SIZE: usize = 32;

impl MoveSpotAvailFundsReport {
    /// The `MoveSpotAvailFundsReport` image that starts at byte offset `off` of a buffer.
    pub open spec fn wire_at(b: Seq<u8>, off: int) -> MoveSpotAvailFundsReport {
        MoveSpotAvailFundsReport {
            tag: b[off],
            padding_u8: b[off + 1],
            padding_u16: spec_u16_from_le_bytes(b.subrange(off + 2, off + 4)),
            client_id: ClientId(spec_u32_from_le_bytes(b.subrange(off + 4, off + 8))),
            instr_id: InstrId(spec_u32_from_le_bytes(b.subrange(off + 8, off + 12))),
            time: spec_u32_from_le_bytes(b.subrange(off + 12, off + 16)),
            qty: spec_i64_from_le_bytes(b.subrange(off + 16, off + 24)),
            crncy: spec_i64_from_le_bytes(b.subrange(off + 24, off + 32)),
        }
    }

    pub fn read_at(b: &[u8], off: usize) -> (r: MoveSpotAvailFundsReport)
        requires
            off + MOVE_SPOT_AVAIL_FUNDS_REPORT_SIZE <= b@.len(),
        ensures
            r == Self::wire_at(b@, off as int),
    {
        let n = b.len();
        assert(off + 32 <= n);
        MoveSpotAvailFundsReport {
            tag: read_u8(b, off),
            padding_u8: read_u8(b, off + 1),
            padding_u16: read_u16(b, off + 2),
            client_id: ClientId(read_u32(b, off + 4)),
            instr_id: InstrId(read_u32(b, off + 8)),
            time: read_u32(b, off + 12),
            qty: read_i64(b, off + 16),
            crncy: read_i64(b, off + 24),
        }
    }

    pub fn write(&self, out: &mut Vec<u8>)
        ensures
            final(out)@.len() == old(out)@.len() + MOVE_SPOT_AVAIL_FUNDS_REPORT_SIZE,
            final(out)@.subrange(0, old(out)@.len() as int) == old(out)@,
            Self::wire_at(final(out)@, old(out)@.len() as int) == *self,
    {
        let ghost base = out@;
        put_u8(out, self.tag);
        put_u8(out, self.padding_u8);
        put_u16(out, self.padding_u16);
        put_u32(out, self.client_id.0);
        put_u32(out, self.instr_id.0);
        put_u32(out, self.time);
        put_i64(out, self.qty);
        put_i64(out, self.crncy);
        proof {
            lemma_auto_spec_u16_to_from_le_bytes();
            lemma_auto_spec_u32_to_from_le_bytes();
            lemma_auto_spec_u64_to_from_le_bytes();
            lemma_auto_spec_i64_to_from_le_bytes();
            assert(out@ == base + seq![self.tag] + seq![self.padding_u8] + spec_u16_to_le_bytes(self.padding_u16) + spec_u32_to_le_bytes(self.client_id.0) + spec_u32_to_le_bytes(self.instr_id.0) + spec_u32_to_le_bytes(self.time) + spec_i64_to_le_bytes(self.qty) + spec_i64_to_le_bytes(self.crncy));
            assert(out@[base.len() as int] == self.tag);
            assert(out@[base.len() as int + 1] == self.padding_u8);
            assert(out@.subrange(base.len() as int + 2, base.len() as int + 4) =~= spec_u16_to_le_bytes(self.padding_u16));
            assert(out@.subrange(base.len() as int + 4, base.len() as int + 8) =~= spec_u32_to_le_bytes(self.client_id.0));
            assert(out@.subrange(base.len() as int + 8, base.len() as int + 12) =~= spec_u32_to_le_bytes(self.instr_id.0));
            assert(out@.subrange(base.len() as int + 12, base.len() as int + 16) =~= spec_u32_to_le_bytes(self.time));
            assert(out@.subrange(base.len() as int + 16, base.len() as int + 24) =~= spec_i64_to_le_bytes(self.qty));
            assert(out@.subrange(base.len() as int + 24, base.len() as int + 32) =~= spec_i64_to_le_bytes(self.crncy));
            assert(out@.subrange(0, base.len() as int) =~= base);
            assert(Self::wire_at(out@, base.len() as int) == *self);
        }
    }

    pub fn encode(&self) -> (r: Vec<u8>)
        ensures
            r@.len() == MOVE_SPOT_AVAIL_FUNDS_REPORT_SIZE,
            Self::wire_at(r@, 0) == *self,
    {
        let mut out: Vec<u8> = Vec::new();
        self.write(&mut out);
        out
    }
}

/// Report of one `NewPrivateClient` event.
#[derive(Clone, Copy, Debug)]
pub struct NewPrivateClientReport {
    pub tag: u8,
    pub padding_u8: u8,
    pub padding_u16: u16,
    pub wallet: Address,
    pub insert_index: u32,
    pub creation_time: u32,
    pub expiration_time: u32,
}

pub const NEW_PRIVATE_CLIENT_REPORT_SIZE: usize = 48;

impl NewPrivateClientReport {
    /// Whether this value is exactly what the `NewPrivateClientReport` image that starts
    /// at byte offset `off` of the buffer holds.
    pub open spec fn matches_wire(self, b: Seq<u8>, off: int) -> bool {
        &&& self.tag == b[off]
        &&& self.padding_u8 == b[off + 1]
        &&& self.padding_u16 == spec_u16_from_le_bytes(b.subrange(off + 2, off + 4))
        &&& self.wallet.0@ == b.subrange(off + 4, off + 36)
        &&& self.insert_index == spec_u32_from_le_bytes(b.subrange(off + 36, off + 40))
        &&& self.creation_time == spec_u32_from_le_bytes(b.subrange(off + 40, off + 44))
        &&& self.expiration_time == spec_u32_from_le_bytes(b.subrange(off + 44, off + 48))
    }

    pub fn read_at(b: &[u8], off: usize) -> (r: NewPrivateClientReport)
        requires
            off + NEW_PRIVATE_CLIENT_REPORT_SIZE <= b@.len(),
        ensures
            r.matches_wire(b@, off as int),
    {
        let n = b.len();
        assert(off + 48 <= n);
        NewPrivateClientReport {
            tag: read_u8(b, off),
            padding_u8: read_u8(b, off + 1),
            padding_u16: read_u16(b, off + 2),
            wallet: Address::read_at(b, off + 4),
            insert_index: read_u32(b, off + 36),
            creation_time: read_u32(b, off + 40),
            expiration_time: read_u32(b, off + 44),
        }
    }

    pub fn write(&self, out: &mut Vec<u8>)
        ensures
            final(out)@.len() == old(out)@.len() + NEW_PRIVATE_CLIENT_REPORT_SIZE,
            final(out)@.subrange(0, old(out)@.len() as int) == old(out)@,
            self.matches_wire(final(out)@, old(out)@.len() as int),
    {
        let ghost base = out@;
        put_u8(out, self.tag);
        put_u8(out, self.padding_u8);
        put_u16(out, self.padding_u16);
        self.wallet.write(out);
        put_u32(out, self.insert_index);
        put_u32(out, self.creation_time);
        put_u32(out, self.expiration_time);
        proof {
            lemma_auto_spec_u16_to_from_le_bytes();
            lemma_auto_spec_u32_to_from_le_bytes();
            lemma_auto_spec_u64_to_from_le_bytes();
            lemma_auto_spec_i64_to_from_le_bytes();
            assert(out@ == base + seq![self.tag] + seq![self.padding_u8] + spec_u16_to_le_bytes(self.padding_u16) + self.wallet.0@ + spec_u32_to_le_bytes(self.insert_index) + spec_u32_to_le_bytes(self.creation_time) + spec_u32_to_le_bytes(self.expiration_time));
            assert(out@[base.len() as int] == self.tag);
            assert(out@[base.len() as int + 1] == self.padding_u8);
            assert(out@.subrange(base.len() as int + 2, base.len() as int + 4) =~= spec_u16_to_le_bytes(self.padding_u16));
            assert(out@.subrange(base.len() as int + 4, base.len() as int + 36) =~= self.wallet.0@);
            assert(out@.subrange(base.len() as int + 36, base.len() as int + 40) =~= spec_u32_to_le_bytes(self.insert_index));
            assert(out@.subrange(base.len() as int + 40, base.len() as int + 44) =~= spec_u32_to_le_bytes(self.creation_time));
            assert(out@.subrange(base.len() as int + 44, base.len() as int + 48) =~= spec_u32_to_le_bytes(self.expiration_time));
            assert(out@.subrange(0, base.len() as int) =~= base);
            assert(self.matches_wire(out@, base.len() as int));
        }
    }

    pub fn encode(&self) -> (r: Vec<u8>)
        ensures
            r@.len() == NEW_PRIVATE_CLIENT_REPORT_SIZE,
            self.matches_wire(r@, 0),
    {
        let mut out: Vec<u8> = Vec::new();
        self.write(&mut out);
        out
    }
}

} // verus!
