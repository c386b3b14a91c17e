//! Instruction-data codec: one fixed-width payload struct per opcode,
//! each decoded from the raw instruction bytes and range-checked by its
//! `new` constructor before any handler may trust a field.
//!
//! Every struct also encodes back to its exact byte image, and the
//! `encode`/`wire_at` contracts give the round trip: decoding an encoded
//! payload reproduces the original field values.

use vstd::bytes::*;
use vstd::prelude::*;

use crate::codec::{
    lemma_auto_spec_i64_to_from_le_bytes, lemma_subrange_of_concat_left,
    lemma_subrange_of_concat_right, put_i64, put_u16, put_u32, put_u64, put_u8, read_i64,
    read_u16, read_u32, read_u64, read_u8, spec_i64_from_le_bytes, spec_i64_to_le_bytes,
};
use crate::constants::{MAX_ORDER_ID, MAX_PERP_LEVERAGE, MAX_PRICE, SPOT_MAX_AMOUNT};
use crate::errors::DeriverseErrorKind;
use crate::ids::{InstrId, Version};

verus! {

broadcast use lemma_subrange_of_concat_left, lemma_subrange_of_concat_right;

/// New Operator Data, used by the `new_operator` instruction (tag 1).
#[derive(Clone, Copy, Debug, PartialEq)]
pub struct NewOperatorData {
    pub tag: u8,
    pub padding_u8: u8,
    pub padding_u16: u16,
    pub version: Version,
}

pub const NEW_OPERATOR_DATA_SIZE: usize = 8;

impl NewOperatorData {
    /// The `NewOperatorData` image that starts at byte offset `off` of a buffer.
    pub open spec fn wire_at(b: Seq<u8>, off: int) -> NewOperatorData {
        NewOperatorData {
            tag: b[off],
            padding_u8: b[off + 1],
            padding_u16: spec_u16_from_le_bytes(b.subrange(off + 2, off + 4)),
            version: Version(spec_u32_from_le_bytes(b.subrange(off + 4, off + 8))),
        }
    }

    pub fn read_at(b: &[u8], off: usize) -> (r: NewOperatorData)
        requires
            off + NEW_OPERATOR_DATA_SIZE <= b@.len(),
        ensures
            r == Self::wire_at(b@, off as int),
    {
        let n = b.len();
        assert(off + 8 <= n);
        NewOperatorData {
            tag: read_u8(b, off),
            padding_u8: read_u8(b, off + 1),
            padding_u16: read_u16(b, off + 2),
            version: Version(read_u32(b, off + 4)),
        }
    }

    pub fn write(&self, out: &mut Vec<u8>)
        ensures
            final(out)@.len() == old(out)@.len() + NEW_OPERATOR_DATA_SIZE,
            final(out)@.subrange(0, old(out)@.len() as int) == old(out)@,
            Self::wire_at(final(out)@, old(out)@.len() as int) == *self,
    {
        let ghost base = out@;
        put_u8(out, self.tag);
        put_u8(out, self.padding_u8);
        put_u16(out, self.padding_u16);
        put_u32(out, self.version.0);
        proof {
            lemma_auto_spec_u16_to_from_le_bytes();
            lemma_auto_spec_u32_to_from_le_bytes();
            lemma_auto_spec_u64_to_from_le_bytes();
            lemma_auto_spec_i64_to_from_le_bytes();
            assert(out@ == base + seq![self.tag] + seq![self.padding_u8] + spec_u16_to_le_bytes(self.padding_u16) + spec_u32_to_le_bytes(self.version.0));
            assert(out@[base.len() as int] == self.tag);
            assert(out@[base.len() as int + 1] == self.padding_u8);
            assert(out@.subrange(base.len() as int + 2, base.len() as int + 4) =~= spec_u16_to_le_bytes(self.padding_u16));
            assert(out@.subrange(base.len() as int + 4, base.len() as int + 8) =~= spec_u32_to_le_bytes(self.version.0));
            assert(out@.subrange(0, base.len() as int) =~= base);
            assert(Self::wire_at(out@, base.len() as int) == *self);
        }
    }

    pub fn encode(&self) -> (r: Vec<u8>)
        ensures
            r@.len() == NEW_OPERATOR_DATA_SIZE,
            Self::wire_at(r@, 0) == *self,
    {
        let mut out: Vec<u8> = Vec::new();
        self.write(&mut out);
        out
    }

    /// What validating a `NewOperatorData` payload returns: the decoded value
    /// when the payload has the right length and every range check holds
    /// of the decoded fields, else the error of the first check that
    /// fails.
    pub open spec fn spec_new(bytes: Seq<u8>) -> Result<NewOperatorData, DeriverseErrorKind> {
        let d = Self::wire_at(bytes, 0);
        if bytes.len() != NEW_OPERATOR_DATA_SIZE {
            Err(DeriverseErrorKind::InvalidDataLength { expected: NEW_OPERATOR_DATA_SIZE, actual: bytes.len() as usize })
        } else {
            Ok(d)
        }
    }

    /// Decodes and validates one `NewOperatorData` payload.
    pub fn new(bytes: &[u8]) -> (r: Result<NewOperatorData, DeriverseErrorKind>)
        ensures
            r == Self::spec_new(bytes@),
    {
        if bytes.len() != NEW_OPERATOR_DATA_SIZE {
            return Err(DeriverseErrorKind::InvalidDataLength { expected: NEW_OPERATOR_DATA_SIZE, actual: bytes.len() });
        }
        let d = Self::read_at(bytes, 0);
        Ok(d)
    }
}

/// New Root Account Data, used by the `new_root_account` instruction (tag 2).
#[derive(Clone, Copy, Debug, PartialEq)]
pub struct NewRootAccountData {
    pub tag: u8,
    pub private_mode: u8,
    pub padding_u16: u16,
    pub version: Version,
    pub lut_slot: u32,
}

pub const NEW_ROOT_ACCOUNT_DATA_SIZE: usize = 12;

impl NewRootAccountData {
    /// The `NewRootAccountData` image that starts at byte offset `off` of a buffer.
    pub open spec fn wire_at(b: Seq<u8>, off: int) -> NewRootAccountData {
        NewRootAccountData {
            tag: b[off],
            private_mode: b[off + 1],
            padding_u16: spec_u16_from_le_bytes(b.subrange(off + 2, off + 4)),
            version: Version(spec_u32_from_le_bytes(b.subrange(off + 4, off + 8))),
            lut_slot: spec_u32_from_le_bytes(b.subrange(off + 8, off + 12)),
        }
    }

    pub fn read_at(b: &[u8], off: usize) -> (r: NewRootAccountData)
        requires
            off + NEW_ROOT_ACCOUNT_DATA_SIZE <= b@.len(),
        ensures
            r == Self::wire_at(b@, off as int),
    {
        let n = b.len();
        assert(off + 12 <= n);
        NewRootAccountData {
            tag: read_u8(b, off),
            private_mode: read_u8(b, off + 1),
            padding_u16: read_u16(b, off + 2),
            version: Version(read_u32(b, off + 4)),
            lut_slot: read_u32(b, off + 8),
        }
    }

    pub fn write(&self, out: &mut Vec<u8>)
        ensures
            final(out)@.len() == old(out)@.len() + NEW_ROOT_ACCOUNT_DATA_SIZE,
            final(out)@.subrange(0, old(out)@.len() as int) == old(out)@,
            Self::wire_at(final(out)@, old(out)@.len() as int) == *self,
    {
        let ghost base = out@;
        put_u8(out, self.tag);
        put_u8(out, self.private_mode);
        put_u16(out, self.padding_u16);
        put_u32(out, self.version.0);
        put_u32(out, self.lut_slot);
        proof {
            lemma_auto_spec_u16_to_from_le_bytes();
            lemma_auto_spec_u32_to_from_le_bytes();
            lemma_auto_spec_u64_to_from_le_bytes();
            lemma_auto_spec_i64_to_from_le_bytes();
            assert(out@ == base + seq![self.tag] + seq![self.private_mode] + spec_u16_to_le_bytes(self.padding_u16) + spec_u32_to_le_bytes(self.version.0) + spec_u32_to_le_bytes(self.lut_slot));
            assert(out@[base.len() as int] == self.tag);
            assert(out@[base.len() as int + 1] == self.private_mode);
            assert(out@.subrange(base.len() as int + 2, base.len() as int + 4) =~= spec_u16_to_le_bytes(self.padding_u16));
            assert(out@.subrange(base.len() as int + 4, base.len() as int + 8) =~= spec_u32_to_le_bytes(self.version.0));
            assert(out@.subrange(base.len() as int + 8, base.len() as int + 12) =~= spec_u32_to_le_bytes(self.lut_slot));
            assert(out@.subrange(0, base.len() as int) =~= base);
            assert(Self::wire_at(out@, base.len() as int) == *self);
        }
    }

    pub fn encode(&self) -> (r: Vec<u8>)
        ensures
            r@.len() == NEW_ROOT_ACCOUNT_DATA_SIZE,
            Self::wire_at(r@, 0) == *self,
    {
        let mut out: Vec<u8> = Vec::new();
        self.write(&mut out);
        out
    }

    /// What validating a `NewRootAccountData` payload returns: the decoded value
    /// when the payload has the right length and every range check holds
    /// of the decoded fields, else the error of the first check that
    /// fails.
    pub open spec fn spec_new(bytes: Seq<u8>) -> Result<NewRootAccountData, DeriverseErrorKind> {
        let d = Self::wire_at(bytes, 0);
        if bytes.len() != NEW_ROOT_ACCOUNT_DATA_SIZE {
            Err(DeriverseErrorKind::InvalidDataLength { expected: NEW_ROOT_ACCOUNT_DATA_SIZE, actual: bytes.len() as usize })
        } else {
            Ok(d)
        }
    }

    /// Decodes and validates one `NewRootAccountData` payload.
    pub fn new(bytes: &[u8]) -> (r: Result<NewRootAccountData, DeriverseErrorKind>)
        ensures
            r == Self::spec_new(bytes@),
    {
        if bytes.len() != NEW_ROOT_ACCOUNT_DATA_SIZE {
            return Err(DeriverseErrorKind::InvalidDataLength { expected: NEW_ROOT_ACCOUNT_DATA_SIZE, actual: bytes.len() });
        }
        let d = Self::read_at(bytes, 0);
        Ok(d)
    }
}

/// New Spot Order Data, used by the `new_spot_order` instruction (tag 12).
/// A limit order must quote a price in `1..MAX_PRICE`; market and
/// margin-call orders may quote 0.
#[derive(Clone, Copy, Debug, PartialEq)]
pub struct NewSpotOrderData {
    pub tag: u8,
    pub ioc: u8,
    pub order_type: u8,
    pub side: u8,
    pub instr_id: u32,
    pub price: i64,
    pub amount: i64,
    pub edge_price: i64,
}

pub const NEW_SPOT_ORDER_DATA_SIZE: usize = 32;

impl NewSpotOrderData {
    /// The `NewSpotOrderData` image that starts at byte offset `off` of a buffer.
    pub open spec fn wire_at(b: Seq<u8>, off: int) -> NewSpotOrderData {
        NewSpotOrderData {
            tag: b[off],
            ioc: b[off + 1],
            order_type: b[off + 2],
            side: b[off + 3],
            instr_id: spec_u32_from_le_bytes(b.subrange(off + 4, off + 8)),
            price: spec_i64_from_le_bytes(b.subrange(off + 8, off + 16)),
            amount: spec_i64_from_le_bytes(b.subrange(off + 16, off + 24)),
            edge_price: spec_i64_from_le_bytes(b.subrange(off + 24, off + 32)),
        }
    }

    pub fn read_at(b: &[u8], off: usize) -> (r: NewSpotOrderData)
        requires
            off + NEW_SPOT_ORDER_DATA_SIZE <= b@.len(),
        ensures
            r == Self::wire_at(b@, off as int),
    {
        let n = b.len();
        assert(off + 32 <= n);
        NewSpotOrderData {
            tag: read_u8(b, off),
            ioc: read_u8(b, off + 1),
            order_type: read_u8(b, off + 2),
            side: read_u8(b, off + 3),
            instr_id: read_u32(b, off + 4),
            price: read_i64(b, off + 8),
            amount: read_i64(b, off + 16),
            edge_price: read_i64(b, off + 24),
        }
    }

    pub fn write(&self, out: &mut Vec<u8>)
        ensures
            final(out)@.len() == old(out)@.len() + NEW_SPOT_ORDER_DATA_SIZE,
            final(out)@.subrange(0, old(out)@.len() as int) == old(out)@,
            Self::wire_at(final(out)@, old(out)@.len() as int) == *self,
    {
        let ghost base = out@;
        put_u8(out, self.tag);
        put_u8(out, self.ioc);
        put_u8(out, self.order_type);
        put_u8(out, self.side);
        put_u32(out, self.instr_id);
        put_i64(out, self.price);
        put_i64(out, self.amount);
        put_i64(out, self.edge_price);
        proof {
            lemma_auto_spec_u16_to_from_le_bytes();
            lemma_auto_spec_u32_to_from_le_bytes();
            lemma_auto_spec_u64_to_from_le_bytes();
            lemma_auto_spec_i64_to_from_le_bytes();
            assert(out@ == base + seq![self.tag] + seq![self.ioc] + seq![self.order_type] + seq![self.side] + spec_u32_to_le_bytes(self.instr_id) + spec_i64_to_le_bytes(self.price) + spec_i64_to_le_bytes(self.amount) + spec_i64_to_le_bytes(self.edge_price));
            assert(out@[base.len() as int] == self.tag);
            assert(out@[base.len() as int + 1] == self.ioc);
            assert(out@[base.len() as int + 2] == self.order_type);
            assert(out@[base.len() as int + 3] == self.side);
            assert(out@.subrange(base.len() as int + 4, base.len() as int + 8) =~= spec_u32_to_le_bytes(self.instr_id));
            assert(out@.subrange(base.len() as int + 8, base.len() as int + 16) =~= spec_i64_to_le_bytes(self.price));
            assert(out@.subrange(base.len() as int + 16, base.len() as int + 24) =~= spec_i64_to_le_bytes(self.amount));
            assert(out@.subrange(base.len() as int + 24, base.len() as int + 32) =~= spec_i64_to_le_bytes(self.edge_price));
            assert(out@.subrange(0, base.len() as int) =~= base);
            assert(Self::wire_at(out@, base.len() as int) == *self);
        }
    }

    pub fn encode(&self) -> (r: Vec<u8>)
        ensures
            r@.len() == NEW_SPOT_ORDER_DATA_SIZE,
            Self::wire_at(r@, 0) == *self,
    {
        let mut out: Vec<u8> = Vec::new();
        self.write(&mut out);
        out
    }

    /// What validating a `NewSpotOrderData` payload returns: the decoded value
    /// when the payload has the right length and every range check holds
    /// of the decoded fields, else the error of the first check that
    /// fails.
    pub open spec fn spec_new(bytes: Seq<u8>, instr_count: u32) -> Result<NewSpotOrderData, DeriverseErrorKind> {
        let d = Self::wire_at(bytes, 0);
        if bytes.len() != NEW_SPOT_ORDER_DATA_SIZE {
            Err(DeriverseErrorKind::InvalidDataLength { expected: NEW_SPOT_ORDER_DATA_SIZE, actual: bytes.len() as usize })
        } else if !(d.instr_id < instr_count) {
            Err(DeriverseErrorKind::InvalidInstrId { id: d.instr_id })
        } else if !(if d.order_type == 0 { 1 <= d.price && d.price < MAX_PRICE } else { 0 <= d.price && d.price < MAX_PRICE }) {
            Err(DeriverseErrorKind::InvalidPrice { price: d.price, min_price: if d.order_type == 0 { 1 } else { 0 }, max_price: MAX_PRICE })
        } else if !(1 <= d.amount && d.amount < SPOT_MAX_AMOUNT) {
            Err(DeriverseErrorKind::InvalidQuantity { value: d.amount, min_value: 1, max_value: SPOT_MAX_AMOUNT })
        } else if !(0 <= d.edge_price && d.edge_price < MAX_PRICE) {
            Err(DeriverseErrorKind::InvalidPrice { price: d.edge_price, min_price: 0, max_price: MAX_PRICE })
        } else {
            Ok(d)
        }
    }

    /// Decodes and validates one `NewSpotOrderData` payload.
    pub fn new(bytes: &[u8], instr_count: u32) -> (r: Result<NewSpotOrderData, DeriverseErrorKind>)
        ensures
            r == Self::spec_new(bytes@, instr_count),
    {
        if bytes.len() != NEW_SPOT_ORDER_DATA_SIZE {
            return Err(DeriverseErrorKind::InvalidDataLength { expected: NEW_SPOT_ORDER_DATA_SIZE, actual: bytes.len() });
        }
        let d = Self::read_at(bytes, 0);
        if !(d.instr_id < instr_count) {
            return Err(DeriverseErrorKind::InvalidInstrId { id: d.instr_id });
        }
        if !(if d.order_type == 0 { 1 <= d.price && d.price < MAX_PRICE } else { 0 <= d.price && d.price < MAX_PRICE }) {
            return Err(DeriverseErrorKind::InvalidPrice { price: d.price, min_price: if d.order_type == 0 { 1 } else { 0 }, max_price: MAX_PRICE });
        }
        if !(1 <= d.amount && d.amount < SPOT_MAX_AMOUNT) {
            return Err(DeriverseErrorKind::InvalidQuantity { value: d.amount, min_value: 1, max_value: SPOT_MAX_AMOUNT });
        }
        if !(0 <= d.edge_price && d.edge_price < MAX_PRICE) {
            return Err(DeriverseErrorKind::InvalidPrice { price: d.edge_price, min_price: 0, max_price: MAX_PRICE });
        }
        Ok(d)
    }
}

/// New Perp Order Data, used by the `new_perp_order` instruction (tag 19).
/// The requested leverage must lie in `1..=MAX_PERP_LEVERAGE`.
#[derive(Clone, Copy, Debug, PartialEq)]
pub struct NewPerpOrderData {
    pub tag: u8,
    pub ioc: u8,
    pub leverage: u8,
    pub order_type: u8,
    pub side: u8,
    pub padding_u8: u8,
    pub padding_u16: u16,
    pub padding_u32: u32,
    pub instr_id: u32,
    pub price: i64,
    pub amount: i64,
    pub edge_price: i64,
}

pub const NEW_PERP_ORDER_DATA_SIZE: usize = 40;

impl NewPerpOrderData {
    /// The `NewPerpOrderData` image that starts at byte offset `off` of a buffer.
    pub open spec fn wire_at(b: Seq<u8>, off: int) -> NewPerpOrderData {
        NewPerpOrderData {
            tag: b[off],
            ioc: b[off + 1],
            leverage: b[off + 2],
            order_type: b[off + 3],
            side: b[off + 4],
            padding_u8: b[off + 5],
            padding_u16: spec_u16_from_le_bytes(b.subrange(off + 6, off + 8)),
            padding_u32: spec_u32_from_le_bytes(b.subrange(off + 8, off + 12)),
            instr_id: spec_u32_from_le_bytes(b.subrange(off + 12, off + 16)),
            price: spec_i64_from_le_bytes(b.subrange(off + 16, off + 24)),
            amount: spec_i64_from_le_bytes(b.subrange(off + 24, off + 32)),
            edge_price: spec_i64_from_le_bytes(b.subrange(off + 32, off + 40)),
        }
    }

    pub fn read_at(b: &[u8], off: usize) -> (r: NewPerpOrderData)
        requires
            off + NEW_PERP_ORDER_DATA_SIZE <= b@.len(),
        ensures
            r == Self::wire_at(b@, off as int),
    {
        let n = b.len();
        assert(off + 40 <= n);
        NewPerpOrderData {
            tag: read_u8(b, off),
            ioc: read_u8(b, off + 1),
            leverage: read_u8(b, off + 2),
            order_type: read_u8(b, off + 3),
            side: read_u8(b, off + 4),
            padding_u8: read_u8(b, off + 5),
            padding_u16: read_u16(b, off + 6),
            padding_u32: read_u32(b, off + 8),
            instr_id: read_u32(b, off + 12),
            price: read_i64(b, off + 16),
            amount: read_i64(b, off + 24),
            edge_price: read_i64(b, off + 32),
        }
    }

    pub fn write(&self, out: &mut Vec<u8>)
        ensures
            final(out)@.len() == old(out)@.len() + NEW_PERP_ORDER_DATA_SIZE,
            final(out)@.subrange(0, old(out)@.len() as int) == old(out)@,
            Self::wire_at(final(out)@, old(out)@.len() as int) == *self,
    {
        let ghost base = out@;
        put_u8(out, self.tag);
        put_u8(out, self.ioc);
        put_u8(out, self.leverage);
        put_u8(out, self.order_type);
        put_u8(out, self.side);
        put_u8(out, self.padding_u8);
        put_u16(out, self.padding_u16);
        put_u32(out, self.padding_u32);
        put_u32(out, self.instr_id);
        put_i64(out, self.price);
        put_i64(out, self.amount);
        put_i64(out, self.edge_price);
        proof {
            lemma_auto_spec_u16_to_from_le_bytes();
            lemma_auto_spec_u32_to_from_le_bytes();
            lemma_auto_spec_u64_to_from_le_bytes();
            lemma_auto_spec_i64_to_from_le_bytes();
            assert(out@ == base + seq![self.tag] + seq![self.ioc] + seq![self.leverage] + seq![self.order_type] + seq![self.side] + seq![self.padding_u8] + spec_u16_to_le_bytes(self.padding_u16) + spec_u32_to_le_bytes(self.padding_u32) + spec_u32_to_le_bytes(self.instr_id) + spec_i64_to_le_bytes(self.price) + spec_i64_to_le_bytes(self.amount) + spec_i64_to_le_bytes(self.edge_price));
            assert(out@[base.len() as int] == self.tag);
            assert(out@[base.len() as int + 1] == self.ioc);
            assert(out@[base.len() as int + 2] == self.leverage);
            assert(out@[base.len() as int + 3] == self.order_type);
            assert(out@[base.len() as int + 4] == self.side);
            assert(out@[base.len() as int + 5] == self.padding_u8);
            assert(out@.subrange(base.len() as int + 6, base.len() as int + 8) =~= spec_u16_to_le_bytes(self.padding_u16));
            assert(out@.subrange(base.len() as int + 8, base.len() as int + 12) =~= spec_u32_to_le_bytes(self.padding_u32));
            assert(out@.subrange(base.len() as int + 12, base.len() as int + 16) =~= spec_u32_to_le_bytes(self.instr_id));
            assert(out@.subrange(base.len() as int + 16, base.len() as int + 24) =~= spec_i64_to_le_bytes(self.price));
            assert(out@.subrange(base.len() as int + 24, base.len() as int + 32) =~= spec_i64_to_le_bytes(self.amount));
            assert(out@.subrange(base.len() as int + 32, base.len() as int + 40) =~= spec_i64_to_le_bytes(self.edge_price));
            assert(out@.subrange(0, base.len() as int) =~= base);
            assert(Self::wire_at(out@, base.len() as int) == *self);
        }
    }

    pub fn encode(&self) -> (r: Vec<u8>)
        ensures
            r@.len() == NEW_PERP_ORDER_DATA_SIZE,
            Self::wire_at(r@, 0) == *self,
    {
        let mut out: Vec<u8> = Vec::new();
        self.write(&mut out);
        out
    }

    /// What validating a `NewPerpOrderData` payload returns: the decoded value
    /// when the payload has the right length and every range check holds
    /// of the decoded fields, else the error of the first check that
    /// fails.
    pub open spec fn spec_new(bytes: Seq<u8>, instr_count: u32) -> Result<NewPerpOrderData, DeriverseErrorKind> {
        let d = Self::wire_at(bytes, 0);
        if bytes.len() != NEW_PERP_ORDER_DATA_SIZE {
            Err(DeriverseErrorKind::InvalidDataLength { expected: NEW_PERP_ORDER_DATA_SIZE, actual: bytes.len() as usize })
        } else if !(d.instr_id < instr_count) {
            Err(DeriverseErrorKind::InvalidInstrId { id: d.instr_id })
        } else if !(1 <= d.leverage && d.leverage <= MAX_PERP_LEVERAGE) {
            Err(DeriverseErrorKind::InvalidLeverage { value: d.leverage as u32, max: MAX_PERP_LEVERAGE as u32 })
        } else if !(if d.order_type == 0 { 1 <= d.price && d.price < MAX_PRICE } else { 0 <= d.price && d.price < MAX_PRICE }) {
            Err(DeriverseErrorKind::InvalidPrice { price: d.price, min_price: if d.order_type == 0 { 1 } else { 0 }, max_price: MAX_PRICE })
        } else if !(1 <= d.amount && d.amount < SPOT_MAX_AMOUNT) {
            Err(DeriverseErrorKind::InvalidQuantity { value: d.amount, min_value: 1, max_value: SPOT_MAX_AMOUNT })
        } else if !(0 <= d.edge_price && d.edge_price < MAX_PRICE) {
            Err(DeriverseErrorKind::InvalidPrice { price: d.edge_price, min_price: 0, max_price: MAX_PRICE })
        } else {
            Ok(d)
        }
    }

    /// Decodes and validates one `NewPerpOrderData` payload.
    pub fn new(bytes: &[u8], instr_count: u32) -> (r: Result<NewPerpOrderData, DeriverseErrorKind>)
        ensures
            r == Self::spec_new(bytes@, instr_count),
    {
        if bytes.len() != NEW_PERP_ORDER_DATA_SIZE {
            return Err(DeriverseErrorKind::InvalidDataLength { expected: NEW_PERP_ORDER_DATA_SIZE, actual: bytes.len() });
        }
        let d = Self::read_at(bytes, 0);
        if !(d.instr_id < instr_count) {
            return Err(DeriverseErrorKind::InvalidInstrId { id: d.instr_id });
        }
        if !(1 <= d.leverage && d.leverage <= MAX_PERP_LEVERAGE) {
            return Err(DeriverseErrorKind::InvalidLeverage { value: d.leverage as u32, max: MAX_PERP_LEVERAGE as u32 });
        }
        if !(if d.order_type == 0 { 1 <= d.price && d.price < MAX_PRICE } else { 0 <= d.price && d.price < MAX_PRICE }) {
            return Err(DeriverseErrorKind::InvalidPrice { price: d.price, min_price: if d.order_type == 0 { 1 } else { 0 }, max_price: MAX_PRICE });
        }
        if !(1 <= d.amount && d.amount < SPOT_MAX_AMOUNT) {
            return Err(DeriverseErrorKind::InvalidQuantity { value: d.amount, min_value: 1, max_value: SPOT_MAX_AMOUNT });
        }
        if !(0 <= d.edge_price && d.edge_price < MAX_PRICE) {
            return Err(DeriverseErrorKind::InvalidPrice { price: d.edge_price, min_price: 0, max_price: MAX_PRICE });
        }
        Ok(d)
    }
}

/// New Change Leverage Data, used by the `perp_change_leverage`
/// instruction (tag 37).  The new leverage must lie in
/// `1..=MAX_PERP_LEVERAGE`.
#[derive(Clone, Copy, Debug, PartialEq)]
pub struct PerpChangeLeverageData {
    pub tag: u8,
    pub leverage: u8,
    pub padding_u16: u16,
    pub instr_id: u32,
}

pub const PERP_CHANGE_LEVERAGE_DATA_SIZE: usize = 8;

impl PerpChangeLeverageData {
    /// The `PerpChangeLeverageData` image that starts at byte offset `off` of a buffer.
    pub open spec fn wire_at(b: Seq<u8>, off: int) -> PerpChangeLeverageData {
        PerpChangeLeverageData {
            tag: b[off],
            leverage: b[off + 1],
            padding_u16: spec_u16_from_le_bytes(b.subrange(off + 2, off + 4)),
            instr_id: spec_u32_from_le_bytes(b.subrange(off + 4, off + 8)),
        }
    }

    pub fn read_at(b: &[u8], off: usize) -> (r: PerpChangeLeverageData)
        requires
            off + PERP_CHANGE_LEVERAGE_DATA_SIZE <= b@.len(),
        ensures
            r == Self::wire_at(b@, off as int),
    {
        let n = b.len();
        assert(off + 8 <= n);
        PerpChangeLeverageData {
            tag: read_u8(b, off),
            leverage: read_u8(b, off + 1),
            padding_u16: read_u16(b, off + 2),
            instr_id: read_u32(b, off + 4),
        }
    }

    pub fn write(&self, out: &mut Vec<u8>)
        ensures
            final(out)@.len() == old(out)@.len() + PERP_CHANGE_LEVERAGE_DATA_SIZE,
            final(out)@.subrange(0, old(out)@.len() as int) == old(out)@,
            Self::wire_at(final(out)@, old(out)@.len() as int) == *self,
    {
        let ghost base = out@;
        put_u8(out, self.tag);
        put_u8(out, self.leverage);
        put_u16(out, self.padding_u16);
        put_u32(out, self.instr_id);
        proof {
            lemma_auto_spec_u16_to_from_le_bytes();
            lemma_auto_spec_u32_to_from_le_bytes();
            lemma_auto_spec_u64_to_from_le_bytes();
            lemma_auto_spec_i64_to_from_le_bytes();
            assert(out@ == base + seq![self.tag] + seq![self.leverage] + spec_u16_to_le_bytes(self.padding_u16) + spec_u32_to_le_bytes(self.instr_id));
            assert(out@[base.len() as int] == self.tag);
            assert(out@[base.len() as int + 1] == self.leverage);
            assert(out@.subrange(base.len() as int + 2, base.len() as int + 4) =~= spec_u16_to_le_bytes(self.padding_u16));
            assert(out@.subrange(base.len() as int + 4, base.len() as int + 8) =~= spec_u32_to_le_bytes(self.instr_id));
            assert(out@.subrange(0, base.len() as int) =~= base);
            assert(Self::wire_at(out@, base.len() as int) == *self);
        }
    }

    pub fn encode(&self) -> (r: Vec<u8>)
        ensures
            r@.len() == PERP_CHANGE_LEVERAGE_DATA_SIZE,
            Self::wire_at(r@, 0) == *self,
    {
        let mut out: Vec<u8> = Vec::new();
        self.write(&mut out);
        out
    }

    /// What validating a `PerpChangeLeverageData` payload returns: the decoded value
    /// when the payload has the right length and every range check holds
    /// of the decoded fields, else the error of the first check that
    /// fails.
    pub open spec fn spec_new(bytes: Seq<u8>, instr_count: u32) -> Result<PerpChangeLeverageData, DeriverseErrorKind> {
        let d = Self::wire_at(bytes, 0);
        if bytes.len() != PERP_CHANGE_LEVERAGE_DATA_SIZE {
            Err(DeriverseErrorKind::InvalidDataLength { expected: PERP_CHANGE_LEVERAGE_DATA_SIZE, actual: bytes.len() as usize })
        } else if !(d.instr_id < instr_count) {
            Err(DeriverseErrorKind::InvalidInstrId { id: d.instr_id })
        } else if !(1 <= d.leverage && d.leverage <= MAX_PERP_LEVERAGE) {
            Err(DeriverseErrorKind::InvalidLeverage { value: d.leverage as u32, max: MAX_PERP_LEVERAGE as u32 })
        } else {
            Ok(d)
        }
    }

    /// Decodes and validates one `PerpChangeLeverageData` payload.
    pub fn new(bytes: &[u8], instr_count: u32) -> (r: Result<PerpChangeLeverageData, DeriverseErrorKind>)
        ensures
            r == Self::spec_new(bytes@, instr_count),
    {
        if bytes.len() != PERP_CHANGE_LEVERAGE_DATA_SIZE {
            return Err(DeriverseErrorKind::InvalidDataLength { expected: PERP_CHANGE_LEVERAGE_DATA_SIZE, actual: bytes.len() });
        }
        let d = Self::read_at(bytes, 0);
        if !(d.instr_id < instr_count) {
            return Err(DeriverseErrorKind::InvalidInstrId { id: d.instr_id });
        }
        if !(1 <= d.leverage && d.leverage <= MAX_PERP_LEVERAGE) {
            return Err(DeriverseErrorKind::InvalidLeverage { value: d.leverage as u32, max: MAX_PERP_LEVERAGE as u32 });
        }
        Ok(d)
    }
}

/// Perp Statistics Reset Data, used by the `perp_statistic_reset`
/// instruction (tag 46).
#[derive(Clone, Copy, Debug, PartialEq)]
pub struct PerpStatisticsResetData {
    pub tag: u8,
    pub padding_u8: u8,
    pub padding_u16: u16,
    pub instr_id: u32,
}

pub const PERP_STATISTICS_RESET_DATA_SIZE: usize = 8;

impl PerpStatisticsResetData {
    /// The `PerpStatisticsResetData` image that starts at byte offset `off` of a buffer.
    pub open spec fn wire_at(b: Seq<u8>, off: int) -> PerpStatisticsResetData {
        PerpStatisticsResetData {
            tag: b[off],
            padding_u8: b[off + 1],
            padding_u16: spec_u16_from_le_bytes(b.subrange(off + 2, off + 4)),
            instr_id: spec_u32_from_le_bytes(b.subrange(off + 4, off + 8)),
        }
    }

    pub fn read_at(b: &[u8], off: usize) -> (r: PerpStatisticsResetData)
        requires
            off + PERP_STATISTICS_RESET_DATA_SIZE <= b@.len(),
        ensures
            r == Self::wire_at(b@, off as int),
    {
        let n = b.len();
        assert(off + 8 <= n);
        PerpStatisticsResetData {
            tag: read_u8(b, off),
            padding_u8: read_u8(b, off + 1),
            padding_u16: read_u16(b, off + 2),
            instr_id: read_u32(b, off + 4),
        }
    }

    pub fn write(&self, out: &mut Vec<u8>)
        ensures
            final(out)@.len() == old(out)@.len() + PERP_STATISTICS_RESET_DATA_SIZE,
            final(out)@.subrange(0, old(out)@.len() as int) == old(out)@,
            Self::wire_at(final(out)@, old(out)@.len() as int) == *self,
    {
        let ghost base = out@;
        put_u8(out, self.tag);
        put_u8(out, self.padding_u8);
        put_u16(out, self.padding_u16);
        put_u32(out, self.instr_id);
        proof {
            lemma_auto_spec_u16_to_from_le_bytes();
            lemma_auto_spec_u32_to_from_le_bytes();
            lemma_auto_spec_u64_to_from_le_bytes();
            lemma_auto_spec_i64_to_from_le_bytes();
            assert(out@ == base + seq![self.tag] + seq![self.padding_u8] + spec_u16_to_le_bytes(self.padding_u16) + spec_u32_to_le_bytes(self.instr_id));
            assert(out@[base.len() as int] == self.tag);
            assert(out@[base.len() as int + 1] == self.padding_u8);
            assert(out@.subrange(base.len() as int + 2, base.len() as int + 4) =~= spec_u16_to_le_bytes(self.padding_u16));
            assert(out@.subrange(base.len() as int + 4, base.len() as int + 8) =~= spec_u32_to_le_bytes(self.instr_id));
            assert(out@.subrange(0, base.len() as int) =~= base);
            assert(Self::wire_at(out@, base.len() as int) == *self);
        }
    }

    pub fn encode(&self) -> (r: Vec<u8>)
        ensures
            r@.len() == PERP_STATISTICS_RESET_DATA_SIZE,
            Self::wire_at(r@, 0) == *self,
    {
        let mut out: Vec<u8> = Vec::new();
        self.write(&mut out);
        out
    }

    /// What validating a `PerpStatisticsResetData` payload returns: the decoded value
    /// when the payload has the right length and every range check holds
    /// of the decoded fields, else the error of the first check that
    /// fails.
    pub open spec fn spec_new(bytes: Seq<u8>, instr_count: u32) -> Result<PerpStatisticsResetData, DeriverseErrorKind> {
        let d = Self::wire_at(bytes, 0);
        if bytes.len() != PERP_STATISTICS_RESET_DATA_SIZE {
            Err(DeriverseErrorKind::InvalidDataLength { expected: PERP_STATISTICS_RESET_DATA_SIZE, actual: bytes.len() as usize })
        } else if !(d.instr_id < instr_count) {
            Err(DeriverseErrorKind::InvalidInstrId { id: d.instr_id })
        } else {
            Ok(d)
        }
    }

    /// Decodes and validates one `PerpStatisticsResetData` payload.
    pub fn new(bytes: &[u8], instr_count: u32) -> (r: Result<PerpStatisticsResetData, DeriverseErrorKind>)
        ensures
            r == Self::spec_new(bytes@, instr_count),
    {
        if bytes.len() != PERP_STATISTICS_RESET_DATA_SIZE {
            return Err(DeriverseErrorKind::InvalidDataLength { expected: PERP_STATISTICS_RESET_DATA_SIZE, actual: bytes.len() });
        }
        let d = Self::read_at(bytes, 0);
        if !(d.instr_id < instr_count) {
            return Err(DeriverseErrorKind::InvalidInstrId { id: d.instr_id });
        }
        Ok(d)
    }
}

/// Spot Order Cancel Data, used by the `spot_order_cancel` instruction
/// (tag 13).
#[derive(Clone, Copy, Debug, PartialEq)]
pub struct SpotOrderCancelData {
    pub tag: u8,
    pub side: u8,
    pub padding_u16: u16,
    pub instr_id: u32,
    pub order_id: i64,
}

pub const SPOT_ORDER_CANCEL_DATA_SIZE: usize = 16;

impl SpotOrderCancelData {
    /// The `SpotOrderCancelData` image that starts at byte offset `off` of a buffer.
    pub open spec fn wire_at(b: Seq<u8>, off: int) -> SpotOrderCancelData {
        SpotOrderCancelData {
            tag: b[off],
            side: b[off + 1],
            padding_u16: spec_u16_from_le_bytes(b.subrange(off + 2, off + 4)),
            instr_id: spec_u32_from_le_bytes(b.subrange(off + 4, off + 8)),
            order_id: spec_i64_from_le_bytes(b.subrange(off + 8, off + 16)),
        }
    }

    pub fn read_at(b: &[u8], off: usize) -> (r: SpotOrderCancelData)
        requires
            off + SPOT_ORDER_CANCEL_DATA_SIZE <= b@.len(),
        ensures
            r == Self::wire_at(b@, off as int),
    {
        let n = b.len();
        assert(off + 16 <= n);
        SpotOrderCancelData {
            tag: read_u8(b, off),
            side: read_u8(b, off + 1),
            padding_u16: read_u16(b, off + 2),
            instr_id: read_u32(b, off + 4),
            order_id: read_i64(b, off + 8),
        }
    }

    pub fn write(&self, out: &mut Vec<u8>)
        ensures
            final(out)@.len() == old(out)@.len() + SPOT_ORDER_CANCEL_DATA_SIZE,
            final(out)@.subrange(0, old(out)@.len() as int) == old(out)@,
            Self::wire_at(final(out)@, old(out)@.len() as int) == *self,
    {
        let ghost base = out@;
        put_u8(out, self.tag);
        put_u8(out, self.side);
        put_u16(out, self.padding_u16);
        put_u32(out, self.instr_id);
        put_i64(out, self.order_id);
        proof {
            lemma_auto_spec_u16_to_from_le_bytes();
            lemma_auto_spec_u32_to_from_le_bytes();
            lemma_auto_spec_u64_to_from_le_bytes();
            lemma_auto_spec_i64_to_from_le_bytes();
            assert(out@ == base + seq![self.tag] + seq![self.side] + spec_u16_to_le_bytes(self.padding_u16) + spec_u32_to_le_bytes(self.instr_id) + spec_i64_to_le_bytes(self.order_id));
            assert(out@[base.len() as int] == self.tag);
            assert(out@[base.len() as int + 1] == self.side);
            assert(out@.subrange(base.len() as int + 2, base.len() as int + 4) =~= spec_u16_to_le_bytes(self.padding_u16));
            assert(out@.subrange(base.len() as int + 4, base.len() as int + 8) =~= spec_u32_to_le_bytes(self.instr_id));
            assert(out@.subrange(base.len() as int + 8, base.len() as int + 16) =~= spec_i64_to_le_bytes(self.order_id));
            assert(out@.subrange(0, base.len() as int) =~= base);
            assert(Self::wire_at(out@, base.len() as int) == *self);
        }
    }

    pub fn encode(&self) -> (r: Vec<u8>)
        ensures
            r@.len() == SPOT_ORDER_CANCEL_DATA_SIZE,
            Self::wire_at(r@, 0) == *self,
    {
        let mut out: Vec<u8> = Vec::new();
        self.write(&mut out);
        out
    }

    /// What validating a `SpotOrderCancelData` payload returns: the decoded value
    /// when the payload has the right length and every range check holds
    /// of the decoded fields, else the error of the first check that
    /// fails.
    pub open spec fn spec_new(bytes: Seq<u8>, instr_count: u32) -> Result<SpotOrderCancelData, DeriverseErrorKind> {
        let d = Self::wire_at(bytes, 0);
        if bytes.len() != SPOT_ORDER_CANCEL_DATA_SIZE {
            Err(DeriverseErrorKind::InvalidDataLength { expected: SPOT_ORDER_CANCEL_DATA_SIZE, actual: bytes.len() as usize })
        } else if !(d.instr_id < instr_count) {
            Err(DeriverseErrorKind::InvalidInstrId { id: d.instr_id })
        } else if !(0 <= d.order_id && d.order_id < MAX_ORDER_ID) {
            Err(DeriverseErrorKind::InvalidOrderId { value: d.order_id, min_value: 0, max_value: MAX_ORDER_ID })
        } else {
            Ok(d)
        }
    }

    /// Decodes and validates one `SpotOrderCancelData` payload.
    pub fn new(bytes: &[u8], instr_count: u32) -> (r: Result<SpotOrderCancelData, DeriverseErrorKind>)
        ensures
            r == Self::spec_new(bytes@, instr_count),
    {
        if bytes.len() != SPOT_ORDER_CANCEL_DATA_SIZE {
            return Err(DeriverseErrorKind::InvalidDataLength { expected: SPOT_ORDER_CANCEL_DATA_SIZE, actual: bytes.len() });
        }
        let d = Self::read_at(bytes, 0);
        if !(d.instr_id < instr_count) {
            return Err(DeriverseErrorKind::InvalidInstrId { id: d.instr_id });
        }
        if !(0 <= d.order_id && d.order_id < MAX_ORDER_ID) {
            return Err(DeriverseErrorKind::InvalidOrderId { value: d.order_id, min_value: 0, max_value: MAX_ORDER_ID });
        }
        Ok(d)
    }
}

/// Spot Mass Cancel Data, used by the `spot_mass_cancel` instruction
/// (tag 15).
#[derive(Clone, Copy, Debug, PartialEq)]
pub struct SpotMassCancelData {
    pub tag: u8,
    pub padding_u8: u8,
    pub padding_u16: u16,
    pub instr_id: u32,
}

pub const SPOT_MASS_CANCEL_DATA_SIZE: usize = 8;

impl SpotMassCancelData {
    /// The `SpotMassCancelData` image that starts at byte offset `off` of a buffer.
    pub open spec fn wire_at(b: Seq<u8>, off: int) -> SpotMassCancelData {
        SpotMassCancelData {
            tag: b[off],
            padding_u8: b[off + 1],
            padding_u16: spec_u16_from_le_bytes(b.subrange(off + 2, off + 4)),
            instr_id: spec_u32_from_le_bytes(b.subrange(off + 4, off + 8)),
        }
    }

    pub fn read_at(b: &[u8], off: usize) -> (r: SpotMassCancelData)
        requires
            off + SPOT_MASS_CANCEL_DATA_SIZE <= b@.len(),
        ensures
            r == Self::wire_at(b@, off as int),
    {
        let n = b.len();
        assert(off + 8 <= n);
        SpotMassCancelData {
            tag: read_u8(b, off),
            padding_u8: read_u8(b, off + 1),
            padding_u16: read_u16(b, off + 2),
            instr_id: read_u32(b, off + 4),
        }
    }

    pub fn write(&self, out: &mut Vec<u8>)
        ensures
            final(out)@.len() == old(out)@.len() + SPOT_MASS_CANCEL_DATA_SIZE,
            final(out)@.subrange(0, old(out)@.len() as int) == old(out)@,
            Self::wire_at(final(out)@, old(out)@.len() as int) == *self,
    {
        let ghost base = out@;
        put_u8(out, self.tag);
        put_u8(out, self.padding_u8);
        put_u16(out, self.padding_u16);
        put_u32(out, self.instr_id);
        proof {
            lemma_auto_spec_u16_to_from_le_bytes();
            lemma_auto_spec_u32_to_from_le_bytes();
            lemma_auto_spec_u64_to_from_le_bytes();
            lemma_auto_spec_i64_to_from_le_bytes();
            assert(out@ == base + seq![self.tag] + seq![self.padding_u8] + spec_u16_to_le_bytes(self.padding_u16) + spec_u32_to_le_bytes(self.instr_id));
            assert(out@[base.len() as int] == self.tag);
            assert(out@[base.len() as int + 1] == self.padding_u8);
            assert(out@.subrange(base.len() as int + 2, base.len() as int + 4) =~= spec_u16_to_le_bytes(self.padding_u16));
            assert(out@.subrange(base.len() as int + 4, base.len() as int + 8) =~= spec_u32_to_le_bytes(self.instr_id));
            assert(out@.subrange(0, base.len() as int) =~= base);
            assert(Self::wire_at(out@, base.len() as int) == *self);
        }
    }

    pub fn encode(&self) -> (r: Vec<u8>)
        ensures
            r@.len() == SPOT_MASS_CANCEL_DATA_SIZE,
            Self::wire_at(r@, 0) == *self,
    {
        let mut out: Vec<u8> = Vec::new();
        self.write(&mut out);
        out
    }

    /// What validating a `SpotMassCancelData` payload returns: the decoded value
    /// when the payload has the right length and every range check holds
    /// of the decoded fields, else the error of the first check that
    /// fails.
    pub open spec fn spec_new(bytes: Seq<u8>, instr_count: u32) -> Result<SpotMassCancelData, DeriverseErrorKind> {
        let d = Self::wire_at(bytes, 0);
        if bytes.len() != SPOT_MASS_CANCEL_DATA_SIZE {
            Err(DeriverseErrorKind::InvalidDataLength { expected: SPOT_MASS_CANCEL_DATA_SIZE, actual: bytes.len() as usize })
        } else if !(d.instr_id < instr_count) {
            Err(DeriverseErrorKind::InvalidInstrId { id: d.instr_id })
        } else {
            Ok(d)
        }
    }

    /// Decodes and validates one `SpotMassCancelData` payload.
    pub fn new(bytes: &[u8], instr_count: u32) -> (r: Result<SpotMassCancelData, DeriverseErrorKind>)
        ensures
            r == Self::spec_new(bytes@, instr_count),
    {
        if bytes.len() != SPOT_MASS_CANCEL_DATA_SIZE {
            return Err(DeriverseErrorKind::InvalidDataLength { expected: SPOT_MASS_CANCEL_DATA_SIZE, actual: bytes.len() });
        }
        let d = Self::read_at(bytes, 0);
        if !(d.instr_id < instr_count) {
            return Err(DeriverseErrorKind::InvalidInstrId { id: d.instr_id });
        }
        Ok(d)
    }
}

/// Spot LP Data, used by the `spot_lp` instruction (tag 14).
#[derive(Clone, Copy, Debug, PartialEq)]
pub struct SpotLpData {
    pub tag: u8,
    pub side: u8,
    pub padding_u16: u16,
    pub instr_id: u32,
    pub amount: i64,
    pub edge_price: i64,
}

pub const SPOT_LP_DATA_SIZE: usize = 24;

impl SpotLpData {
    /// The `SpotLpData` image that starts at byte offset `off` of a buffer.
    pub open spec fn wire_at(b: Seq<u8>, off: int) -> SpotLpData {
        SpotLpData {
            tag: b[off],
            side: b[off + 1],
            padding_u16: spec_u16_from_le_bytes(b.subrange(off + 2, off + 4)),
            instr_id: spec_u32_from_le_bytes(b.subrange(off + 4, off + 8)),
            amount: spec_i64_from_le_bytes(b.subrange(off + 8, off + 16)),
            edge_price: spec_i64_from_le_bytes(b.subrange(off + 16, off + 24)),
        }
    }

    pub fn read_at(b: &[u8], off: usize) -> (r: SpotLpData)
        requires
            off + SPOT_LP_DATA_SIZE <= b@.len(),
        ensures
            r == Self::wire_at(b@, off as int),
    {
        let n = b.len();
        assert(off + 24 <= n);
        SpotLpData {
            tag: read_u8(b, off),
            side: read_u8(b, off + 1),
            padding_u16: read_u16(b, off + 2),
            instr_id: read_u32(b, off + 4),
            amount: read_i64(b, off + 8),
            edge_price: read_i64(b, off + 16),
        }
    }

    pub fn write(&self, out: &mut Vec<u8>)
        ensures
            final(out)@.len() == old(out)@.len() + SPOT_LP_DATA_SIZE,
            final(out)@.subrange(0, old(out)@.len() as int) == old(out)@,
            Self::wire_at(final(out)@, old(out)@.len() as int) == *self,
    {
        let ghost base = out@;
        put_u8(out, self.tag);
        put_u8(out, self.side);
        put_u16(out, self.padding_u16);
        put_u32(out, self.instr_id);
        put_i64(out, self.amount);
        put_i64(out, self.edge_price);
        proof {
            lemma_auto_spec_u16_to_from_le_bytes();
            lemma_auto_spec_u32_to_from_le_bytes();
            lemma_auto_spec_u64_to_from_le_bytes();
            lemma_auto_spec_i64_to_from_le_bytes();
            assert(out@ == base + seq![self.tag] + seq![self.side] + spec_u16_to_le_bytes(self.padding_u16) + spec_u32_to_le_bytes(self.instr_id) + spec_i64_to_le_bytes(self.amount) + spec_i64_to_le_bytes(self.edge_price));
            assert(out@[base.len() as int] == self.tag);
            assert(out@[base.len() as int + 1] == self.side);
            assert(out@.subrange(base.len() as int + 2, base.len() as int + 4) =~= spec_u16_to_le_bytes(self.padding_u16));
            assert(out@.subrange(base.len() as int + 4, base.len() as int + 8) =~= spec_u32_to_le_bytes(self.instr_id));
            assert(out@.subrange(base.len() as int + 8, base.len() as int + 16) =~= spec_i64_to_le_bytes(self.amount));
            assert(out@.subrange(base.len() as int + 16, base.len() as int + 24) =~= spec_i64_to_le_bytes(self.edge_price));
            assert(out@.subrange(0, base.len() as int) =~= base);
            assert(Self::wire_at(out@, base.len() as int) == *self);
        }
    }

    pub fn encode(&self) -> (r: Vec<u8>)
        ensures
            r@.len() == SPOT_LP_DATA_SIZE,
            Self::wire_at(r@, 0) == *self,
    {
        let mut out: Vec<u8> = Vec::new();
        self.write(&mut out);
        out
    }

    /// What validating a `SpotLpData` payload returns: the decoded value
    /// when the payload has the right length and every range check holds
    /// of the decoded fields, else the error of the first check that
    /// fails.
    pub open spec fn spec_new(bytes: Seq<u8>, instr_count: u32) -> Result<SpotLpData, DeriverseErrorKind> {
        let d = Self::wire_at(bytes, 0);
        if bytes.len() != SPOT_LP_DATA_SIZE {
            Err(DeriverseErrorKind::InvalidDataLength { expected: SPOT_LP_DATA_SIZE, actual: bytes.len() as usize })
        } else if !(d.instr_id < instr_count) {
            Err(DeriverseErrorKind::InvalidInstrId { id: d.instr_id })
        } else if !(1 <= d.amount && d.amount < SPOT_MAX_AMOUNT) {
            Err(DeriverseErrorKind::InvalidQuantity { value: d.amount, min_value: 1, max_value: SPOT_MAX_AMOUNT })
        } else if !(0 <= d.edge_price && d.edge_price < MAX_PRICE) {
            Err(DeriverseErrorKind::InvalidPrice { price: d.edge_price, min_price: 0, max_price: MAX_PRICE })
        } else {
            Ok(d)
        }
    }

    /// Decodes and validates one `SpotLpData` payload.
    pub fn new(bytes: &[u8], instr_count: u32) -> (r: Result<SpotLpData, DeriverseErrorKind>)
        ensures
            r == Self::spec_new(bytes@, instr_count),
    {
        if bytes.len() != SPOT_LP_DATA_SIZE {
            return Err(DeriverseErrorKind::InvalidDataLength { expected: SPOT_LP_DATA_SIZE, actual: bytes.len() });
        }
        let d = Self::read_at(bytes, 0);
        if !(d.instr_id < instr_count) {
            return Err(DeriverseErrorKind::InvalidInstrId { id: d.instr_id });
        }
        if !(1 <= d.amount && d.amount < SPOT_MAX_AMOUNT) {
            return Err(DeriverseErrorKind::InvalidQuantity { value: d.amount, min_value: 1, max_value: SPOT_MAX_AMOUNT });
        }
        if !(0 <= d.edge_price && d.edge_price < MAX_PRICE) {
            return Err(DeriverseErrorKind::InvalidPrice { price: d.edge_price, min_price: 0, max_price: MAX_PRICE });
        }
        Ok(d)
    }
}

/// New Instrument Data, used by the `new_instrument` instruction (tag 9).
/// The base price of the new instrument must be a valid limit price.
#[derive(Clone, Copy, Debug, PartialEq)]
pub struct NewInstrumentData {
    pub tag: u8,
    pub padding_u8: u8,
    pub padding_u16: u16,
    pub padding_u32: u32,
    pub crncy_token_id: u32,
    pub lut_slot: u32,
    pub price: i64,
}

pub const NEW_INSTRUMENT_DATA_SIZE: usize = 24;

impl NewInstrumentData {
    /// The `NewInstrumentData` image that starts at byte offset `off` of a buffer.
    pub open spec fn wire_at(b: Seq<u8>, off: int) -> NewInstrumentData {
        NewInstrumentData {
            tag: b[off],
            padding_u8: b[off + 1],
            padding_u16: spec_u16_from_le_bytes(b.subrange(off + 2, off + 4)),
            padding_u32: spec_u32_from_le_bytes(b.subrange(off + 4, off + 8)),
            crncy_token_id: spec_u32_from_le_bytes(b.subrange(off + 8, off + 12)),
            lut_slot: spec_u32_from_le_bytes(b.subrange(off + 12, off + 16)),
            price: spec_i64_from_le_bytes(b.subrange(off + 16, off + 24)),
        }
    }

    pub fn read_at(b: &[u8], off: usize) -> (r: NewInstrumentData)
        requires
            off + NEW_INSTRUMENT_DATA_SIZE <= b@.len(),
        ensures
            r == Self::wire_at(b@, off as int),
    {
        let n = b.len();
        assert(off + 24 <= n);
        NewInstrumentData {
            tag: read_u8(b, off),
            padding_u8: read_u8(b, off + 1),
            padding_u16: read_u16(b, off + 2),
            padding_u32: read_u32(b, off + 4),
            crncy_token_id: read_u32(b, off + 8),
            lut_slot: read_u32(b, off + 12),
            price: read_i64(b, off + 16),
        }
    }

    pub fn write(&self, out: &mut Vec<u8>)
        ensures
            final(out)@.len() == old(out)@.len() + NEW_INSTRUMENT_DATA_SIZE,
            final(out)@.subrange(0, old(out)@.len() as int) == old(out)@,
            Self::wire_at(final(out)@, old(out)@.len() as int) == *self,
    {
        let ghost base = out@;
        put_u8(out, self.tag);
        put_u8(out, self.padding_u8);
        put_u16(out, self.padding_u16);
        put_u32(out, self.padding_u32);
        put_u32(out, self.crncy_token_id);
        put_u32(out, self.lut_slot);
        put_i64(out, self.price);
        proof {
            lemma_auto_spec_u16_to_from_le_bytes();
            lemma_auto_spec_u32_to_from_le_bytes();
            lemma_auto_spec_u64_to_from_le_bytes();
            lemma_auto_spec_i64_to_from_le_bytes();
            assert(out@ == base + seq![self.tag] + seq![self.padding_u8] + spec_u16_to_le_bytes(self.padding_u16) + spec_u32_to_le_bytes(self.padding_u32) + spec_u32_to_le_bytes(self.crncy_token_id) + spec_u32_to_le_bytes(self.lut_slot) + spec_i64_to_le_bytes(self.price));
            assert(out@[base.len() as int] == self.tag);
            assert(out@[base.len() as int + 1] == self.padding_u8);
            assert(out@.subrange(base.len() as int + 2, base.len() as int + 4) =~= spec_u16_to_le_bytes(self.padding_u16));
            assert(out@.subrange(base.len() as int + 4, base.len() as int + 8) =~= spec_u32_to_le_bytes(self.padding_u32));
            assert(out@.subrange(base.len() as int + 8, base.len() as int + 12) =~= spec_u32_to_le_bytes(self.crncy_token_id));
            assert(out@.subrange(base.len() as int + 12, base.len() as int + 16) =~= spec_u32_to_le_bytes(self.lut_slot));
            assert(out@.subrange(base.len() as int + 16, base.len() as int + 24) =~= spec_i64_to_le_bytes(self.price));
            assert(out@.subrange(0, base.len() as int) =~= base);
            assert(Self::wire_at(out@, base.len() as int) == *self);
        }
    }

    pub fn encode(&self) -> (r: Vec<u8>)
        ensures
            r@.len() == NEW_INSTRUMENT_DATA_SIZE,
            Self::wire_at(r@, 0) == *self,
    {
        let mut out: Vec<u8> = Vec::new();
        self.write(&mut out);
        out
    }

    /// What validating a `NewInstrumentData` payload returns: the decoded value
    /// when the payload has the right length and every range check holds
    /// of the decoded fields, else the error of the first check that
    /// fails.
    pub open spec fn spec_new(bytes: Seq<u8>, tokens_count: u32) -> Result<NewInstrumentData, DeriverseErrorKind> {
        let d = Self::wire_at(bytes, 0);
        if bytes.len() != NEW_INSTRUMENT_DATA_SIZE {
            Err(DeriverseErrorKind::InvalidDataLength { expected: NEW_INSTRUMENT_DATA_SIZE, actual: bytes.len() as usize })
        } else if !(d.crncy_token_id < tokens_count) {
            Err(DeriverseErrorKind::InvalidTokenId { id: d.crncy_token_id })
        } else if !(1 <= d.price && d.price < MAX_PRICE) {
            Err(DeriverseErrorKind::InvalidPrice { price: d.price, min_price: 1, max_price: MAX_PRICE })
        } else {
            Ok(d)
        }
    }

    /// Decodes and validates one `NewInstrumentData` payload.
    pub fn new(bytes: &[u8], tokens_count: u32) -> (r: Result<NewInstrumentData, DeriverseErrorKind>)
        ensures
            r == Self::spec_new(bytes@, tokens_count),
    {
        if bytes.len() != NEW_INSTRUMENT_DATA_SIZE {
            return Err(DeriverseErrorKind::InvalidDataLength { expected: NEW_INSTRUMENT_DATA_SIZE, actual: bytes.len() });
        }
        let d = Self::read_at(bytes, 0);
        if !(d.crncy_token_id < tokens_count) {
            return Err(DeriverseErrorKind::InvalidTokenId { id: d.crncy_token_id });
        }
        if !(1 <= d.price && d.price < MAX_PRICE) {
            return Err(DeriverseErrorKind::InvalidPrice { price: d.price, min_price: 1, max_price: MAX_PRICE });
        }
        Ok(d)
    }
}

/// Deposit Data, used by the `deposit` instruction (tag 7).  When the
/// `deposit_all` flag is set the `amount` field does not count.
#[derive(Clone, Copy, Debug, PartialEq)]
pub struct DepositData {
    pub tag: u8,
    pub competition_id: u8,
    pub deposit_all: u8,
    pub padding_u8: u8,
    pub token_id: u32,
    pub amount: i64,
    pub lut_slot: u32,
    pub ref_id: u32,
}

pub const DEPOSIT_DATA_SIZE: usize = 24;

impl DepositData {
    /// The `DepositData` image that starts at byte offset `off` of a buffer.
    pub open spec fn wire_at(b: Seq<u8>, off: int) -> DepositData {
        DepositData {
            tag: b[off],
            competition_id: b[off + 1],
            deposit_all: b[off + 2],
            padding_u8: b[off + 3],
            token_id: spec_u32_from_le_bytes(b.subrange(off + 4, off + 8)),
            amount: spec_i64_from_le_bytes(b.subrange(off + 8, off + 16)),
            lut_slot: spec_u32_from_le_bytes(b.subrange(off + 16, off + 20)),
            ref_id: spec_u32_from_le_bytes(b.subrange(off + 20, off + 24)),
        }
    }

    pub fn read_at(b: &[u8], off: usize) -> (r: DepositData)
        requires
            off + DEPOSIT_DATA_SIZE <= b@.len(),
        ensures
            r == Self::wire_at(b@, off as int),
    {
        let n = b.len();
        assert(off + 24 <= n);
        DepositData {
            tag: read_u8(b, off),
            competition_id: read_u8(b, off + 1),
            deposit_all: read_u8(b, off + 2),
            padding_u8: read_u8(b, off + 3),
            token_id: read_u32(b, off + 4),
            amount: read_i64(b, off + 8),
            lut_slot: read_u32(b, off + 16),
            ref_id: read_u32(b, off + 20),
        }
    }

    pub fn write(&self, out: &mut Vec<u8>)
        ensures
            final(out)@.len() == old(out)@.len() + DEPOSIT_DATA_SIZE,
            final(out)@.subrange(0, old(out)@.len() as int) == old(out)@,
            Self::wire_at(final(out)@, old(out)@.len() as int) == *self,
    {
        let ghost base = out@;
        put_u8(out, self.tag);
        put_u8(out, self.competition_id);
        put_u8(out, self.deposit_all);
        put_u8(out, self.padding_u8);
        put_u32(out, self.token_id);
        put_i64(out, self.amount);
        put_u32(out, self.lut_slot);
        put_u32(out, self.ref_id);
        proof {
            lemma_auto_spec_u16_to_from_le_bytes();
            lemma_auto_spec_u32_to_from_le_bytes();
            lemma_auto_spec_u64_to_from_le_bytes();
            lemma_auto_spec_i64_to_from_le_bytes();
            assert(out@ == base + seq![self.tag] + seq![self.competition_id] + seq![self.deposit_all] + seq![self.padding_u8] + spec_u32_to_le_bytes(self.token_id) + spec_i64_to_le_bytes(self.amount) + spec_u32_to_le_bytes(self.lut_slot) + spec_u32_to_le_bytes(self.ref_id));
            assert(out@[base.len() as int] == self.tag);
            assert(out@[base.len() as int + 1] == self.competition_id);
            assert(out@[base.len() as int + 2] == self.deposit_all);
            assert(out@[base.len() as int + 3] == self.padding_u8);
            assert(out@.subrange(base.len() as int + 4, base.len() as int + 8) =~= spec_u32_to_le_bytes(self.token_id));
            assert(out@.subrange(base.len() as int + 8, base.len() as int + 16) =~= spec_i64_to_le_bytes(self.amount));
            assert(out@.subrange(base.len() as int + 16, base.len() as int + 20) =~= spec_u32_to_le_bytes(self.lut_slot));
            assert(out@.subrange(base.len() as int + 20, base.len() as int + 24) =~= spec_u32_to_le_bytes(self.ref_id));
            assert(out@.subrange(0, base.len() as int) =~= base);
            assert(Self::wire_at(out@, base.len() as int) == *self);
        }
    }

    pub fn encode(&self) -> (r: Vec<u8>)
        ensures
            r@.len() == DEPOSIT_DATA_SIZE,
            Self::wire_at(r@, 0) == *self,
    {
        let mut out: Vec<u8> = Vec::new();
        self.write(&mut out);
        out
    }

    /// What validating a `DepositData` payload returns: the decoded value
    /// when the payload has the right length and every range check holds
    /// of the decoded fields, else the error of the first check that
    /// fails.
    pub open spec fn spec_new(bytes: Seq<u8>, tokens_count: u32) -> Result<DepositData, DeriverseErrorKind> {
        let d = Self::wire_at(bytes, 0);
        if bytes.len() != DEPOSIT_DATA_SIZE {
            Err(DeriverseErrorKind::InvalidDataLength { expected: DEPOSIT_DATA_SIZE, actual: bytes.len() as usize })
        } else if !(d.token_id < tokens_count) {
            Err(DeriverseErrorKind::InvalidTokenId { id: d.token_id })
        } else if !(d.deposit_all != 0 || (1 <= d.amount && d.amount < SPOT_MAX_AMOUNT)) {
            Err(DeriverseErrorKind::InvalidQuantity { value: d.amount, min_value: 1, max_value: SPOT_MAX_AMOUNT })
        } else {
            Ok(d)
        }
    }

    /// Decodes and validates one `DepositData` payload.
    pub fn new(bytes: &[u8], tokens_count: u32) -> (r: Result<DepositData, DeriverseErrorKind>)
        ensures
            r == Self::spec_new(bytes@, tokens_count),
    {
        if bytes.len() != DEPOSIT_DATA_SIZE {
            return Err(DeriverseErrorKind::InvalidDataLength { expected: DEPOSIT_DATA_SIZE, actual: bytes.len() });
        }
        let d = Self::read_at(bytes, 0);
        if !(d.token_id < tokens_count) {
            return Err(DeriverseErrorKind::InvalidTokenId { id: d.token_id });
        }
        if !(d.deposit_all != 0 || (1 <= d.amount && d.amount < SPOT_MAX_AMOUNT)) {
            return Err(DeriverseErrorKind::InvalidQuantity { value: d.amount, min_value: 1, max_value: SPOT_MAX_AMOUNT });
        }
        Ok(d)
    }
}

/// Fees Deposit Data, used by the `fees_deposit` instruction (tag 5).
#[derive(Clone, Copy, Debug, PartialEq)]
pub struct FeesDepositData {
    pub tag: u8,
    pub padding_u8: u8,
    pub padding_u16: u16,
    pub token_id: u32,
    pub amount: i64,
}

pub const FEES_DEPOSIT_DATA_SIZE: usize = 16;

impl FeesDepositData {
    /// The `FeesDepositData` image that starts at byte offset `off` of a buffer.
    pub open spec fn wire_at(b: Seq<u8>, off: int) -> FeesDepositData {
        FeesDepositData {
            tag: b[off],
            padding_u8: b[off + 1],
            padding_u16: spec_u16_from_le_bytes(b.subrange(off + 2, off + 4)),
            token_id: spec_u32_from_le_bytes(b.subrange(off + 4, off + 8)),
            amount: spec_i64_from_le_bytes(b.subrange(off + 8, off + 16)),
        }
    }

    pub fn read_at(b: &[u8], off: usize) -> (r: FeesDepositData)
        requires
            off + FEES_DEPOSIT_DATA_SIZE <= b@.len(),
        ensures
            r == Self::wire_at(b@, off as int),
    {
        let n = b.len();
        assert(off + 16 <= n);
        FeesDepositData {
            tag: read_u8(b, off),
            padding_u8: read_u8(b, off + 1),
            padding_u16: read_u16(b, off + 2),
            token_id: read_u32(b, off + 4),
            amount: read_i64(b, off + 8),
        }
    }

    pub fn write(&self, out: &mut Vec<u8>)
        ensures
            final(out)@.len() == old(out)@.len() + FEES_DEPOSIT_DATA_SIZE,
            final(out)@.subrange(0, old(out)@.len() as int) == old(out)@,
            Self::wire_at(final(out)@, old(out)@.len() as int) == *self,
    {
        let ghost base = out@;
        put_u8(out, self.tag);
        put_u8(out, self.padding_u8);
        put_u16(out, self.padding_u16);
        put_u32(out, self.token_id);
        put_i64(out, self.amount);
        proof {
            lemma_auto_spec_u16_to_from_le_bytes();
            lemma_auto_spec_u32_to_from_le_bytes();
            lemma_auto_spec_u64_to_from_le_bytes();
            lemma_auto_spec_i64_to_from_le_bytes();
            assert(out@ == base + seq![self.tag] + seq![self.padding_u8] + spec_u16_to_le_bytes(self.padding_u16) + spec_u32_to_le_bytes(self.token_id) + spec_i64_to_le_bytes(self.amount));
            assert(out@[base.len() as int] == self.tag);
            assert(out@[base.len() as int + 1] == self.padding_u8);
            assert(out@.subrange(base.len() as int + 2, base.len() as int + 4) =~= spec_u16_to_le_bytes(self.padding_u16));
            assert(out@.subrange(base.len() as int + 4, base.len() as int + 8) =~= spec_u32_to_le_bytes(self.token_id));
            assert(out@.subrange(base.len() as int + 8, base.len() as int + 16) =~= spec_i64_to_le_bytes(self.amount));
            assert(out@.subrange(0, base.len() as int) =~= base);
            assert(Self::wire_at(out@, base.len() as int) == *self);
        }
    }

    pub fn encode(&self) -> (r: Vec<u8>)
        ensures
            r@.len() == FEES_DEPOSIT_DATA_SIZE,
            Self::wire_at(r@, 0) == *self,
    {
        let mut out: Vec<u8> = Vec::new();
        self.write(&mut out);
        out
    }

    /// What validating a `FeesDepositData` payload returns: the decoded value
    /// when the payload has the right length and every range check holds
    /// of the decoded fields, else the error of the first check that
    /// fails.
    pub open spec fn spec_new(bytes: Seq<u8>, tokens_count: u32) -> Result<FeesDepositData, DeriverseErrorKind> {
        let d = Self::wire_at(bytes, 0);
        if bytes.len() != FEES_DEPOSIT_DATA_SIZE {
            Err(DeriverseErrorKind::InvalidDataLength { expected: FEES_DEPOSIT_DATA_SIZE, actual: bytes.len() as usize })
        } else if !(d.token_id < tokens_count) {
            Err(DeriverseErrorKind::InvalidTokenId { id: d.token_id })
        } else if !(1 <= d.amount && d.amount < SPOT_MAX_AMOUNT) {
            Err(DeriverseErrorKind::InvalidQuantity { value: d.amount, min_value: 1, max_value: SPOT_MAX_AMOUNT })
        } else {
            Ok(d)
        }
    }

    /// Decodes and validates one `FeesDepositData` payload.
    pub fn new(bytes: &[u8], tokens_count: u32) -> (r: Result<FeesDepositData, DeriverseErrorKind>)
        ensures
            r == Self::spec_new(bytes@, tokens_count),
    {
        if bytes.len() != FEES_DEPOSIT_DATA_SIZE {
            return Err(DeriverseErrorKind::InvalidDataLength { expected: FEES_DEPOSIT_DATA_SIZE, actual: bytes.len() });
        }
        let d = Self::read_at(bytes, 0);
        if !(d.token_id < tokens_count) {
            return Err(DeriverseErrorKind::InvalidTokenId { id: d.token_id });
        }
        if !(1 <= d.amount && d.amount < SPOT_MAX_AMOUNT) {
            return Err(DeriverseErrorKind::InvalidQuantity { value: d.amount, min_value: 1, max_value: SPOT_MAX_AMOUNT });
        }
        Ok(d)
    }
}

/// Fees Withdraw Data, used by the `fees_withdraw` instruction (tag 39).
#[derive(Clone, Copy, Debug, PartialEq)]
pub struct FeesWithdrawData {
    pub tag: u8,
    pub padding_u8: u8,
    pub padding_u16: u16,
    pub token_id: u32,
    pub amount: i64,
}

pub const FEES_WITHDRAW_DATA_SIZE: usize = 16;

impl FeesWithdrawData {
    /// The `FeesWithdrawData` image that starts at byte offset `off` of a buffer.
    pub open spec fn wire_at(b: Seq<u8>, off: int) -> FeesWithdrawData {
        FeesWithdrawData {
            tag: b[off],
            padding_u8: b[off + 1],
            padding_u16: spec_u16_from_le_bytes(b.subrange(off + 2, off + 4)),
            token_id: spec_u32_from_le_bytes(b.subrange(off + 4, off + 8)),
            amount: spec_i64_from_le_bytes(b.subrange(off + 8, off + 16)),
        }
    }

    pub fn read_at(b: &[u8], off: usize) -> (r: FeesWithdrawData)
        requires
            off + FEES_WITHDRAW_DATA_SIZE <= b@.len(),
        ensures
            r == Self::wire_at(b@, off as int),
    {
        let n = b.len();
        assert(off + 16 <= n);
        FeesWithdrawData {
            tag: read_u8(b, off),
            padding_u8: read_u8(b, off + 1),
            padding_u16: read_u16(b, off + 2),
            token_id: read_u32(b, off + 4),
            amount: read_i64(b, off + 8),
        }
    }

    pub fn write(&self, out: &mut Vec<u8>)
        ensures
            final(out)@.len() == old(out)@.len() + FEES_WITHDRAW_DATA_SIZE,
            final(out)@.subrange(0, old(out)@.len() as int) == old(out)@,
            Self::wire_at(final(out)@, old(out)@.len() as int) == *self,
    {
        let ghost base = out@;
        put_u8(out, self.tag);
        put_u8(out, self.padding_u8);
        put_u16(out, self.padding_u16);
        put_u32(out, self.token_id);
        put_i64(out, self.amount);
        proof {
            lemma_auto_spec_u16_to_from_le_bytes();
            lemma_auto_spec_u32_to_from_le_bytes();
            lemma_auto_spec_u64_to_from_le_bytes();
            lemma_auto_spec_i64_to_from_le_bytes();
            assert(out@ == base + seq![self.tag] + seq![self.padding_u8] + spec_u16_to_le_bytes(self.padding_u16) + spec_u32_to_le_bytes(self.token_id) + spec_i64_to_le_bytes(self.amount));
            assert(out@[base.len() as int] == self.tag);
            assert(out@[base.len() as int + 1] == self.padding_u8);
            assert(out@.subrange(base.len() as int + 2, base.len() as int + 4) =~= spec_u16_to_le_bytes(self.padding_u16));
            assert(out@.subrange(base.len() as int + 4, base.len() as int + 8) =~= spec_u32_to_le_bytes(self.token_id));
            assert(out@.subrange(base.len() as int + 8, base.len() as int + 16) =~= spec_i64_to_le_bytes(self.amount));
            assert(out@.subrange(0, base.len() as int) =~= base);
            assert(Self::wire_at(out@, base.len() as int) == *self);
        }
    }

    pub fn encode(&self) -> (r: Vec<u8>)
        ensures
            r@.len() == FEES_WITHDRAW_DATA_SIZE,
            Self::wire_at(r@, 0) == *self,
    {
        let mut out: Vec<u8> = Vec::new();
        self.write(&mut out);
        out
    }

    /// What validating a `FeesWithdrawData` payload returns: the decoded value
    /// when the payload has the right length and every range check holds
    /// of the decoded fields, else the error of the first check that
    /// fails.
    pub open spec fn spec_new(bytes: Seq<u8>, tokens_count: u32) -> Result<FeesWithdrawData, DeriverseErrorKind> {
        let d = Self::wire_at(bytes, 0);
        if bytes.len() != FEES_WITHDRAW_DATA_SIZE {
            Err(DeriverseErrorKind::InvalidDataLength { expected: FEES_WITHDRAW_DATA_SIZE, actual: bytes.len() as usize })
        } else if !(d.token_id < tokens_count) {
            Err(DeriverseErrorKind::InvalidTokenId { id: d.token_id })
        } else if !(0 <= d.amount && d.amount < SPOT_MAX_AMOUNT) {
            Err(DeriverseErrorKind::InvalidQuantity { value: d.amount, min_value: 0, max_value: SPOT_MAX_AMOUNT })
        } else {
            Ok(d)
        }
    }

    /// Decodes and validates one `FeesWithdrawData` payload.
    pub fn new(bytes: &[u8], tokens_count: u32) -> (r: Result<FeesWithdrawData, DeriverseErrorKind>)
        ensures
            r == Self::spec_new(bytes@, tokens_count),
    {
        if bytes.len() != FEES_WITHDRAW_DATA_SIZE {
            return Err(DeriverseErrorKind::InvalidDataLength { expected: FEES_WITHDRAW_DATA_SIZE, actual: bytes.len() });
        }
        let d = Self::read_at(bytes, 0);
        if !(d.token_id < tokens_count) {
            return Err(DeriverseErrorKind::InvalidTokenId { id: d.token_id });
        }
        if !(0 <= d.amount && d.amount < SPOT_MAX_AMOUNT) {
            return Err(DeriverseErrorKind::InvalidQuantity { value: d.amount, min_value: 0, max_value: SPOT_MAX_AMOUNT });
        }
        Ok(d)
    }
}

/// Perp Deposit Data, used by the `perp_deposit` instruction (tag 11).
#[derive(Clone, Copy, Debug, PartialEq)]
pub struct PerpDepositData {
    pub tag: u8,
    pub padding_u8: u8,
    pub padding_u16: u16,
    pub instr_id: u32,
    pub amount: i64,
}

pub const PERP_DEPOSIT_DATA_SIZE: usize = 16;

impl PerpDepositData {
    /// The `PerpDepositData` image that starts at byte offset `off` of a buffer.
    pub open spec fn wire_at(b: Seq<u8>, off: int) -> PerpDepositData {
        PerpDepositData {
            tag: b[off],
            padding_u8: b[off + 1],
            padding_u16: spec_u16_from_le_bytes(b.subrange(off + 2, off + 4)),
            instr_id: spec_u32_from_le_bytes(b.subrange(off + 4, off + 8)),
            amount: spec_i64_from_le_bytes(b.subrange(off + 8, off + 16)),
        }
    }

    pub fn read_at(b: &[u8], off: usize) -> (r: PerpDepositData)
        requires
            off + PERP_DEPOSIT_DATA_SIZE <= b@.len(),
        ensures
            r == Self::wire_at(b@, off as int),
    {
        let n = b.len();
        assert(off + 16 <= n);
        PerpDepositData {
            tag: read_u8(b, off),
            padding_u8: read_u8(b, off + 1),
            padding_u16: read_u16(b, off + 2),
            instr_id: read_u32(b, off + 4),
            amount: read_i64(b, off + 8),
        }
    }

    pub fn write(&self, out: &mut Vec<u8>)
        ensures
            final(out)@.len() == old(out)@.len() + PERP_DEPOSIT_DATA_SIZE,
            final(out)@.subrange(0, old(out)@.len() as int) == old(out)@,
            Self::wire_at(final(out)@, old(out)@.len() as int) == *self,
    {
        let ghost base = out@;
        put_u8(out, self.tag);
        put_u8(out, self.padding_u8);
        put_u16(out, self.padding_u16);
        put_u32(out, self.instr_id);
        put_i64(out, self.amount);
        proof {
            lemma_auto_spec_u16_to_from_le_bytes();
            lemma_auto_spec_u32_to_from_le_bytes();
            lemma_auto_spec_u64_to_from_le_bytes();
            lemma_auto_spec_i64_to_from_le_bytes();
            assert(out@ == base + seq![self.tag] + seq![self.padding_u8] + spec_u16_to_le_bytes(self.padding_u16) + spec_u32_to_le_bytes(self.instr_id) + spec_i64_to_le_bytes(self.amount));
            assert(out@[base.len() as int] == self.tag);
            assert(out@[base.len() as int + 1] == self.padding_u8);
            assert(out@.subrange(base.len() as int + 2, base.len() as int + 4) =~= spec_u16_to_le_bytes(self.padding_u16));
            assert(out@.subrange(base.len() as int + 4, base.len() as int + 8) =~= spec_u32_to_le_bytes(self.instr_id));
            assert(out@.subrange(base.len() as int + 8, base.len() as int + 16) =~= spec_i64_to_le_bytes(self.amount));
            assert(out@.subrange(0, base.len() as int) =~= base);
            assert(Self::wire_at(out@, base.len() as int) == *self);
        }
    }

    pub fn encode(&self) -> (r: Vec<u8>)
        ensures
            r@.len() == PERP_DEPOSIT_DATA_SIZE,
            Self::wire_at(r@, 0) == *self,
    {
        let mut out: Vec<u8> = Vec::new();
        self.write(&mut out);
        out
    }

    /// What validating a `PerpDepositData` payload returns: the decoded value
    /// when the payload has the right length and every range check holds
    /// of the decoded fields, else the error of the first check that
    /// fails.
    pub open spec fn spec_new(bytes: Seq<u8>, instr_count: u32) -> Result<PerpDepositData, DeriverseErrorKind> {
        let d = Self::wire_at(bytes, 0);
        if bytes.len() != PERP_DEPOSIT_DATA_SIZE {
            Err(DeriverseErrorKind::InvalidDataLength { expected: PERP_DEPOSIT_DATA_SIZE, actual: bytes.len() as usize })
        } else if !(d.instr_id < instr_count) {
            Err(DeriverseErrorKind::InvalidInstrId { id: d.instr_id })
        } else if !(1 <= d.amount && d.amount < SPOT_MAX_AMOUNT) {
            Err(DeriverseErrorKind::InvalidQuantity { value: d.amount, min_value: 1, max_value: SPOT_MAX_AMOUNT })
        } else {
            Ok(d)
        }
    }

    /// Decodes and validates one `PerpDepositData` payload.
    pub fn new(bytes: &[u8], instr_count: u32) -> (r: Result<PerpDepositData, DeriverseErrorKind>)
        ensures
            r == Self::spec_new(bytes@, instr_count),
    {
        if bytes.len() != PERP_DEPOSIT_DATA_SIZE {
            return Err(DeriverseErrorKind::InvalidDataLength { expected: PERP_DEPOSIT_DATA_SIZE, actual: bytes.len() });
        }
        let d = Self::read_at(bytes, 0);
        if !(d.instr_id < instr_count) {
            return Err(DeriverseErrorKind::InvalidInstrId { id: d.instr_id });
        }
        if !(1 <= d.amount && d.amount < SPOT_MAX_AMOUNT) {
            return Err(DeriverseErrorKind::InvalidQuantity { value: d.amount, min_value: 1, max_value: SPOT_MAX_AMOUNT });
        }
        Ok(d)
    }
}

/// Move Spot Available Funds Data, used by the `move_spot_avail_funds`
/// instruction (tag 43).
#[derive(Clone, Copy, Debug, PartialEq)]
pub struct MoveSpotAvailFundsData {
    pub tag: u8,
    pub padding_u8: u8,
    pub padding_u16: u16,
    pub instr_id: u32,
}

pub const MOVE_SPOT_AVAIL_FUNDS_DATA_SIZE: usize = 8;

impl MoveSpotAvailFundsData {
    /// The `MoveSpotAvailFundsData` image that starts at byte offset `off` of a buffer.
    pub open spec fn wire_at(b: Seq<u8>, off: int) -> MoveSpotAvailFundsData {
        MoveSpotAvailFundsData {
            tag: b[off],
            padding_u8: b[off + 1],
            padding_u16: spec_u16_from_le_bytes(b.subrange(off + 2, off + 4)),
            instr_id: spec_u32_from_le_bytes(b.subrange(off + 4, off + 8)),
        }
    }

    pub fn read_at(b: &[u8], off: usize) -> (r: MoveSpotAvailFundsData)
        requires
            off + MOVE_SPOT_AVAIL_FUNDS_DATA_SIZE <= b@.len(),
        ensures
            r == Self::wire_at(b@, off as int),
    {
        let n = b.len();
        assert(off + 8 <= n);
        MoveSpotAvailFundsData {
            tag: read_u8(b, off),
            padding_u8: read_u8(b, off + 1),
            padding_u16: read_u16(b, off + 2),
            instr_id: read_u32(b, off + 4),
        }
    }

    pub fn write(&self, out: &mut Vec<u8>)
        ensures
            final(out)@.len() == old(out)@.len() + MOVE_SPOT_AVAIL_FUNDS_DATA_SIZE,
            final(out)@.subrange(0, old(out)@.len() as int) == old(out)@,
            Self::wire_at(final(out)@, old(out)@.len() as int) == *self,
    {
        let ghost base = out@;
        put_u8(out, self.tag);
        put_u8(out, self.padding_u8);
        put_u16(out, self.padding_u16);
        put_u32(out, self.instr_id);
        proof {
            lemma_auto_spec_u16_to_from_le_bytes();
            lemma_auto_spec_u32_to_from_le_bytes();
            lemma_auto_spec_u64_to_from_le_bytes();
            lemma_auto_spec_i64_to_from_le_bytes();
            assert(out@ == base + seq![self.tag] + seq![self.padding_u8] + spec_u16_to_le_bytes(self.padding_u16) + spec_u32_to_le_bytes(self.instr_id));
            assert(out@[base.len() as int] == self.tag);
            assert(out@[base.len() as int + 1] == self.padding_u8);
            assert(out@.subrange(base.len() as int + 2, base.len() as int + 4) =~= spec_u16_to_le_bytes(self.padding_u16));
            assert(out@.subrange(base.len() as int + 4, base.len() as int + 8) =~= spec_u32_to_le_bytes(self.instr_id));
            assert(out@.subrange(0, base.len() as int) =~= base);
            assert(Self::wire_at(out@, base.len() as int) == *self);
        }
    }

    pub fn encode(&self) -> (r: Vec<u8>)
        ensures
            r@.len() == MOVE_SPOT_AVAIL_FUNDS_DATA_SIZE,
            Self::wire_at(r@, 0) == *self,
    {
        let mut out: Vec<u8> = Vec::new();
        self.write(&mut out);
        out
    }

    /// What validating a `MoveSpotAvailFundsData` payload returns: the decoded value
    /// when the payload has the right length and every range check holds
    /// of the decoded fields, else the error of the first check that
    /// fails.
    pub open spec fn spec_new(bytes: Seq<u8>, instr_count: u32) -> Result<MoveSpotAvailFundsData, DeriverseErrorKind> {
        let d = Self::wire_at(bytes, 0);
        if bytes.len() != MOVE_SPOT_AVAIL_FUNDS_DATA_SIZE {
            Err(DeriverseErrorKind::InvalidDataLength { expected: MOVE_SPOT_AVAIL_FUNDS_DATA_SIZE, actual: bytes.len() as usize })
        } else if !(d.instr_id < instr_count) {
            Err(DeriverseErrorKind::InvalidInstrId { id: d.instr_id })
        } else {
            Ok(d)
        }
    }

    /// Decodes and validates one `MoveSpotAvailFundsData` payload.
    pub fn new(bytes: &[u8], instr_count: u32) -> (r: Result<MoveSpotAvailFundsData, DeriverseErrorKind>)
        ensures
            r == Self::spec_new(bytes@, instr_count),
    {
        if bytes.len() != MOVE_SPOT_AVAIL_FUNDS_DATA_SIZE {
            return Err(DeriverseErrorKind::InvalidDataLength { expected: MOVE_SPOT_AVAIL_FUNDS_DATA_SIZE, actual: bytes.len() });
        }
        let d = Self::read_at(bytes, 0);
        if !(d.instr_id < instr_count) {
            return Err(DeriverseErrorKind::InvalidInstrId { id: d.instr_id });
        }
        Ok(d)
    }
}

/// Perp Withdraw Data, used by the `perp_withdraw` instruction (tag 3).
#[derive(Clone, Copy, Debug, PartialEq)]
pub struct PerpWithdrawData {
    pub tag: u8,
    pub padding_u8: u8,
    pub padding_u16: u16,
    pub instr_id: u32,
    pub amount: i64,
}

pub const PERP_WITHDRAW_DATA_SIZE: usize = 16;

impl PerpWithdrawData {
    /// The `PerpWithdrawData` image that starts at byte offset `off` of a buffer.
    pub open spec fn wire_at(b: Seq<u8>, off: int) -> PerpWithdrawData {
        PerpWithdrawData {
            tag: b[off],
            padding_u8: b[off + 1],
            padding_u16: spec_u16_from_le_bytes(b.subrange(off + 2, off + 4)),
            instr_id: spec_u32_from_le_bytes(b.subrange(off + 4, off + 8)),
            amount: spec_i64_from_le_bytes(b.subrange(off + 8, off + 16)),
        }
    }

    pub fn read_at(b: &[u8], off: usize) -> (r: PerpWithdrawData)
        requires
            off + PERP_WITHDRAW_DATA_SIZE <= b@.len(),
        ensures
            r == Self::wire_at(b@, off as int),
    {
        let n = b.len();
        assert(off + 16 <= n);
        PerpWithdrawData {
            tag: read_u8(b, off),
            padding_u8: read_u8(b, off + 1),
            padding_u16: read_u16(b, off + 2),
            instr_id: read_u32(b, off + 4),
            amount: read_i64(b, off + 8),
        }
    }

    pub fn write(&self, out: &mut Vec<u8>)
        ensures
            final(out)@.len() == old(out)@.len() + PERP_WITHDRAW_DATA_SIZE,
            final(out)@.subrange(0, old(out)@.len() as int) == old(out)@,
            Self::wire_at(final(out)@, old(out)@.len() as int) == *self,
    {
        let ghost base = out@;
        put_u8(out, self.tag);
        put_u8(out, self.padding_u8);
        put_u16(out, self.padding_u16);
        put_u32(out, self.instr_id);
        put_i64(out, self.amount);
        proof {
            lemma_auto_spec_u16_to_from_le_bytes();
            lemma_auto_spec_u32_to_from_le_bytes();
            lemma_auto_spec_u64_to_from_le_bytes();
            lemma_auto_spec_i64_to_from_le_bytes();
            assert(out@ == base + seq![self.tag] + seq![self.padding_u8] + spec_u16_to_le_bytes(self.padding_u16) + spec_u32_to_le_bytes(self.instr_id) + spec_i64_to_le_bytes(self.amount));
            assert(out@[base.len() as int] == self.tag);
            assert(out@[base.len() as int + 1] == self.padding_u8);
            assert(out@.subrange(base.len() as int + 2, base.len() as int + 4) =~= spec_u16_to_le_bytes(self.padding_u16));
            assert(out@.subrange(base.len() as int + 4, base.len() as int + 8) =~= spec_u32_to_le_bytes(self.instr_id));
            assert(out@.subrange(base.len() as int + 8, base.len() as int + 16) =~= spec_i64_to_le_bytes(self.amount));
            assert(out@.subrange(0, base.len() as int) =~= base);
            assert(Self::wire_at(out@, base.len() as int) == *self);
        }
    }

    pub fn encode(&self) -> (r: Vec<u8>)
        ensures
            r@.len() == PERP_WITHDRAW_DATA_SIZE,
            Self::wire_at(r@, 0) == *self,
    {
        let mut out: Vec<u8> = Vec::new();
        self.write(&mut out);
        out
    }

    /// What validating a `PerpWithdrawData` payload returns: the decoded value
    /// when the payload has the right length and every range check holds
    /// of the decoded fields, else the error of the first check that
    /// fails.
    pub open spec fn spec_new(bytes: Seq<u8>, instr_count: u32) -> Result<PerpWithdrawData, DeriverseErrorKind> {
        let d = Self::wire_at(bytes, 0);
        if bytes.len() != PERP_WITHDRAW_DATA_SIZE {
            Err(DeriverseErrorKind::InvalidDataLength { expected: PERP_WITHDRAW_DATA_SIZE, actual: bytes.len() as usize })
        } else if !(d.instr_id < instr_count) {
            Err(DeriverseErrorKind::InvalidInstrId { id: d.instr_id })
        } else if !(0 <= d.amount && d.amount < SPOT_MAX_AMOUNT) {
            Err(DeriverseErrorKind::InvalidQuantity { value: d.amount, min_value: 0, max_value: SPOT_MAX_AMOUNT })
        } else {
            Ok(d)
        }
    }

    /// Decodes and validates one `PerpWithdrawData` payload.
    pub fn new(bytes: &[u8], instr_count: u32) -> (r: Result<PerpWithdrawData, DeriverseErrorKind>)
        ensures
            r == Self::spec_new(bytes@, instr_count),
    {
        if bytes.len() != PERP_WITHDRAW_DATA_SIZE {
            return Err(DeriverseErrorKind::InvalidDataLength { expected: PERP_WITHDRAW_DATA_SIZE, actual: bytes.len() });
        }
        let d = Self::read_at(bytes, 0);
        if !(d.instr_id < instr_count) {
            return Err(DeriverseErrorKind::InvalidInstrId { id: d.instr_id });
        }
        if !(0 <= d.amount && d.amount < SPOT_MAX_AMOUNT) {
            return Err(DeriverseErrorKind::InvalidQuantity { value: d.amount, min_value: 0, max_value: SPOT_MAX_AMOUNT });
        }
        Ok(d)
    }
}

/// Withdraw Data, used by the `withdraw` instruction (tag 8).
#[derive(Clone, Copy, Debug, PartialEq)]
pub struct WithdrawData {
    pub tag: u8,
    pub padding_u8: u8,
    pub padding_u16: u16,
    pub token_id: u32,
    pub amount: i64,
}

pub const WITHDRAW_DATA_SIZE: usize = 16;

impl WithdrawData {
    /// The `WithdrawData` image that starts at byte offset `off` of a buffer.
    pub open spec fn wire_at(b: Seq<u8>, off: int) -> WithdrawData {
        WithdrawData {
            tag: b[off],
            padding_u8: b[off + 1],
            padding_u16: spec_u16_from_le_bytes(b.subrange(off + 2, off + 4)),
            token_id: spec_u32_from_le_bytes(b.subrange(off + 4, off + 8)),
            amount: spec_i64_from_le_bytes(b.subrange(off + 8, off + 16)),
        }
    }

    pub fn read_at(b: &[u8], off: usize) -> (r: WithdrawData)
        requires
            off + WITHDRAW_DATA_SIZE <= b@.len(),
        ensures
            r == Self::wire_at(b@, off as int),
    {
        let n = b.len();
        assert(off + 16 <= n);
        WithdrawData {
            tag: read_u8(b, off),
            padding_u8: read_u8(b, off + 1),
            padding_u16: read_u16(b, off + 2),
            token_id: read_u32(b, off + 4),
            amount: read_i64(b, off + 8),
        }
    }

    pub fn write(&self, out: &mut Vec<u8>)
        ensures
            final(out)@.len() == old(out)@.len() + WITHDRAW_DATA_SIZE,
            final(out)@.subrange(0, old(out)@.len() as int) == old(out)@,
            Self::wire_at(final(out)@, old(out)@.len() as int) == *self,
    {
        let ghost base = out@;
        put_u8(out, self.tag);
        put_u8(out, self.padding_u8);
        put_u16(out, self.padding_u16);
        put_u32(out, self.token_id);
        put_i64(out, self.amount);
        proof {
            lemma_auto_spec_u16_to_from_le_bytes();
            lemma_auto_spec_u32_to_from_le_bytes();
            lemma_auto_spec_u64_to_from_le_bytes();
            lemma_auto_spec_i64_to_from_le_bytes();
            assert(out@ == base + seq![self.tag] + seq![self.padding_u8] + spec_u16_to_le_bytes(self.padding_u16) + spec_u32_to_le_bytes(self.token_id) + spec_i64_to_le_bytes(self.amount));
            assert(out@[base.len() as int] == self.tag);
            assert(out@[base.len() as int + 1] == self.padding_u8);
            assert(out@.subrange(base.len() as int + 2, base.len() as int + 4) =~= spec_u16_to_le_bytes(self.padding_u16));
            assert(out@.subrange(base.len() as int + 4, base.len() as int + 8) =~= spec_u32_to_le_bytes(self.token_id));
            assert(out@.subrange(base.len() as int + 8, base.len() as int + 16) =~= spec_i64_to_le_bytes(self.amount));
            assert(out@.subrange(0, base.len() as int) =~= base);
            assert(Self::wire_at(out@, base.len() as int) == *self);
        }
    }

    pub fn encode(&self) -> (r: Vec<u8>)
        ensures
            r@.len() == WITHDRAW_DATA_SIZE,
            Self::wire_at(r@, 0) == *self,
    {
        let mut out: Vec<u8> = Vec::new();
        self.write(&mut out);
        out
    }

    /// What validating a `WithdrawData` payload returns: the decoded value
    /// when the payload has the right length and every range check holds
    /// of the decoded fields, else the error of the first check that
    /// fails.
    pub open spec fn spec_new(bytes: Seq<u8>, tokens_count: u32) -> Result<WithdrawData, DeriverseErrorKind> {
        let d = Self::wire_at(bytes, 0);
        if bytes.len() != WITHDRAW_DATA_SIZE {
            Err(DeriverseErrorKind::InvalidDataLength { expected: WITHDRAW_DATA_SIZE, actual: bytes.len() as usize })
        } else if !(d.token_id < tokens_count) {
            Err(DeriverseErrorKind::InvalidTokenId { id: d.token_id })
        } else if !(0 <= d.amount && d.amount < SPOT_MAX_AMOUNT) {
            Err(DeriverseErrorKind::InvalidQuantity { value: d.amount, min_value: 0, max_value: SPOT_MAX_AMOUNT })
        } else {
            Ok(d)
        }
    }

    /// Decodes and validates one `WithdrawData` payload.
    pub fn new(bytes: &[u8], tokens_count: u32) -> (r: Result<WithdrawData, DeriverseErrorKind>)
        ensures
            r == Self::spec_new(bytes@, tokens_count),
    {
        if bytes.len() != WITHDRAW_DATA_SIZE {
            return Err(DeriverseErrorKind::InvalidDataLength { expected: WITHDRAW_DATA_SIZE, actual: bytes.len() });
        }
        let d = Self::read_at(bytes, 0);
        if !(d.token_id < tokens_count) {
            return Err(DeriverseErrorKind::InvalidTokenId { id: d.token_id });
        }
        if !(0 <= d.amount && d.amount < SPOT_MAX_AMOUNT) {
            return Err(DeriverseErrorKind::InvalidQuantity { value: d.amount, min_value: 0, max_value: SPOT_MAX_AMOUNT });
        }
        Ok(d)
    }
}

/// Swap Data, used by the `swap` instruction (tag 26).
#[derive(Clone, Copy, Debug, PartialEq)]
pub struct SwapData {
    pub tag: u8,
    pub input_crncy: u8,
    pub padding_u16: u16,
    pub instr_id: u32,
    pub price: i64,
    pub amount: i64,
}

pub const SWAP_DATA_SIZE: usize = 24;

impl SwapData {
    /// The `SwapData` image that starts at byte offset `off` of a buffer.
    pub open spec fn wire_at(b: Seq<u8>, off: int) -> SwapData {
        SwapData {
            tag: b[off],
            input_crncy: b[off + 1],
            padding_u16: spec_u16_from_le_bytes(b.subrange(off + 2, off + 4)),
            instr_id: spec_u32_from_le_bytes(b.subrange(off + 4, off + 8)),
            price: spec_i64_from_le_bytes(b.subrange(off + 8, off + 16)),
            amount: spec_i64_from_le_bytes(b.subrange(off + 16, off + 24)),
        }
    }

    pub fn read_at(b: &[u8], off: usize) -> (r: SwapData)
        requires
            off + SWAP_DATA_SIZE <= b@.len(),
        ensures
            r == Self::wire_at(b@, off as int),
    {
        let n = b.len();
        assert(off + 24 <= n);
        SwapData {
            tag: read_u8(b, off),
            input_crncy: read_u8(b, off + 1),
            padding_u16: read_u16(b, off + 2),
            instr_id: read_u32(b, off + 4),
            price: read_i64(b, off + 8),
            amount: read_i64(b, off + 16),
        }
    }

    pub fn write(&self, out: &mut Vec<u8>)
        ensures
            final(out)@.len() == old(out)@.len() + SWAP_DATA_SIZE,
            final(out)@.subrange(0, old(out)@.len() as int) == old(out)@,
            Self::wire_at(final(out)@, old(out)@.len() as int) == *self,
    {
        let ghost base = out@;
        put_u8(out, self.tag);
        put_u8(out, self.input_crncy);
        put_u16(out, self.padding_u16);
        put_u32(out, self.instr_id);
        put_i64(out, self.price);
        put_i64(out, self.amount);
        proof {
            lemma_auto_spec_u16_to_from_le_bytes();
            lemma_auto_spec_u32_to_from_le_bytes();
            lemma_auto_spec_u64_to_from_le_bytes();
            lemma_auto_spec_i64_to_from_le_bytes();
            assert(out@ == base + seq![self.tag] + seq![self.input_crncy] + spec_u16_to_le_bytes(self.padding_u16) + spec_u32_to_le_bytes(self.instr_id) + spec_i64_to_le_bytes(self.price) + spec_i64_to_le_bytes(self.amount));
            assert(out@[base.len() as int] == self.tag);
            assert(out@[base.len() as int + 1] == self.input_crncy);
            assert(out@.subrange(base.len() as int + 2, base.len() as int + 4) =~= spec_u16_to_le_bytes(self.padding_u16));
            assert(out@.subrange(base.len() as int + 4, base.len() as int + 8) =~= spec_u32_to_le_bytes(self.instr_id));
            assert(out@.subrange(base.len() as int + 8, base.len() as int + 16) =~= spec_i64_to_le_bytes(self.price));
            assert(out@.subrange(base.len() as int + 16, base.len() as int + 24) =~= spec_i64_to_le_bytes(self.amount));
            assert(out@.subrange(0, base.len() as int) =~= base);
            assert(Self::wire_at(out@, base.len() as int) == *self);
        }
    }

    pub fn encode(&self) -> (r: Vec<u8>)
        ensures
            r@.len() == SWAP_DATA_SIZE,
            Self::wire_at(r@, 0) == *self,
    {
        let mut out: Vec<u8> = Vec::new();
        self.write(&mut out);
        out
    }

    /// What validating a `SwapData` payload returns: the decoded value
    /// when the payload has the right length and every range check holds
    /// of the decoded fields, else the error of the first check that
    /// fails.
    pub open spec fn spec_new(bytes: Seq<u8>, instr_count: u32) -> Result<SwapData, DeriverseErrorKind> {
        let d = Self::wire_at(bytes, 0);
        if bytes.len() != SWAP_DATA_SIZE {
            Err(DeriverseErrorKind::InvalidDataLength { expected: SWAP_DATA_SIZE, actual: bytes.len() as usize })
        } else if !(d.instr_id < instr_count) {
            Err(DeriverseErrorKind::InvalidInstrId { id: d.instr_id })
        } else if !(0 <= d.price && d.price < MAX_PRICE) {
            Err(DeriverseErrorKind::InvalidPrice { price: d.price, min_price: 0, max_price: MAX_PRICE })
        } else if !(1 <= d.amount && d.amount < SPOT_MAX_AMOUNT) {
            Err(DeriverseErrorKind::InvalidQuantity { value: d.amount, min_value: 1, max_value: SPOT_MAX_AMOUNT })
        } else {
            Ok(d)
        }
    }

    /// Decodes and validates one `SwapData` payload.
    pub fn new(bytes: &[u8], instr_count: u32) -> (r: Result<SwapData, DeriverseErrorKind>)
        ensures
            r == Self::spec_new(bytes@, instr_count),
    {
        if bytes.len() != SWAP_DATA_SIZE {
            return Err(DeriverseErrorKind::InvalidDataLength { expected: SWAP_DATA_SIZE, actual: bytes.len() });
        }
        let d = Self::read_at(bytes, 0);
        if !(d.instr_id < instr_count) {
            return Err(DeriverseErrorKind::InvalidInstrId { id: d.instr_id });
        }
        if !(0 <= d.price && d.price < MAX_PRICE) {
            return Err(DeriverseErrorKind::InvalidPrice { price: d.price, min_price: 0, max_price: MAX_PRICE });
        }
        if !(1 <= d.amount && d.amount < SPOT_MAX_AMOUNT) {
            return Err(DeriverseErrorKind::InvalidQuantity { value: d.amount, min_value: 1, max_value: SPOT_MAX_AMOUNT });
        }
        Ok(d)
    }
}

/// Spot Quotes Replace Data, used by the `spot_quotes_replace`
/// instruction (tag 34).  The new bid price must be strictly below the
/// new ask price, and both replaced order ids must be valid.
#[derive(Clone, Copy, Debug, PartialEq)]
pub struct SpotQuotesReplaceData {
    pub tag: u8,
    pub padding_u8: u8,
    pub padding_u16: u16,
    pub instr_id: u32,
    pub new_bid_price: i64,
    pub new_bid_qty: i64,
    pub old_bid_order_id: i64,
    pub new_ask_price: i64,
    pub new_ask_qty: i64,
    pub old_ask_order_id: i64,
}

pub const SPOT_QUOTES_REPLACE_DATA_SIZE: usize = 56;

impl SpotQuotesReplaceData {
    /// The `SpotQuotesReplaceData` image that starts at byte offset `off` of a buffer.
    pub open spec fn wire_at(b: Seq<u8>, off: int) -> SpotQuotesReplaceData {
        SpotQuotesReplaceData {
            tag: b[off],
            padding_u8: b[off + 1],
            padding_u16: spec_u16_from_le_bytes(b.subrange(off + 2, off + 4)),
            instr_id: spec_u32_from_le_bytes(b.subrange(off + 4, off + 8)),
            new_bid_price: spec_i64_from_le_bytes(b.subrange(off + 8, off + 16)),
            new_bid_qty: spec_i64_from_le_bytes(b.subrange(off + 16, off + 24)),
            old_bid_order_id: spec_i64_from_le_bytes(b.subrange(off + 24, off + 32)),
            new_ask_price: spec_i64_from_le_bytes(b.subrange(off + 32, off + 40)),
            new_ask_qty: spec_i64_from_le_bytes(b.subrange(off + 40, off + 48)),
            old_ask_order_id: spec_i64_from_le_bytes(b.subrange(off + 48, off + 56)),
        }
    }

    pub fn read_at(b: &[u8], off: usize) -> (r: SpotQuotesReplaceData)
        requires
            off + SPOT_QUOTES_REPLACE_DATA_SIZE <= b@.len(),
        ensures
            r == Self::wire_at(b@, off as int),
    {
        let n = b.len();
        assert(off + 56 <= n);
        SpotQuotesReplaceData {
            tag: read_u8(b, off),
            padding_u8: read_u8(b, off + 1),
            padding_u16: read_u16(b, off + 2),
            instr_id: read_u32(b, off + 4),
            new_bid_price: read_i64(b, off + 8),
            new_bid_qty: read_i64(b, off + 16),
            old_bid_order_id: read_i64(b, off + 24),
            new_ask_price: read_i64(b, off + 32),
            new_ask_qty: read_i64(b, off + 40),
            old_ask_order_id: read_i64(b, off + 48),
        }
    }

    pub fn write(&self, out: &mut Vec<u8>)
        ensures
            final(out)@.len() == old(out)@.len() + SPOT_QUOTES_REPLACE_DATA_SIZE,
            final(out)@.subrange(0, old(out)@.len() as int) == old(out)@,
            Self::wire_at(final(out)@, old(out)@.len() as int) == *self,
    {
        let ghost base = out@;
        put_u8(out, self.tag);
        put_u8(out, self.padding_u8);
        put_u16(out, self.padding_u16);
        put_u32(out, self.instr_id);
        put_i64(out, self.new_bid_price);
        put_i64(out, self.new_bid_qty);
        put_i64(out, self.old_bid_order_id);
        put_i64(out, self.new_ask_price);
        put_i64(out, self.new_ask_qty);
        put_i64(out, self.old_ask_order_id);
        proof {
            lemma_auto_spec_u16_to_from_le_bytes();
            lemma_auto_spec_u32_to_from_le_bytes();
            lemma_auto_spec_u64_to_from_le_bytes();
            lemma_auto_spec_i64_to_from_le_bytes();
            assert(out@ == base + seq![self.tag] + seq![self.padding_u8] + spec_u16_to_le_bytes(self.padding_u16) + spec_u32_to_le_bytes(self.instr_id) + spec_i64_to_le_bytes(self.new_bid_price) + spec_i64_to_le_bytes(self.new_bid_qty) + spec_i64_to_le_bytes(self.old_bid_order_id) + spec_i64_to_le_bytes(self.new_ask_price) + spec_i64_to_le_bytes(self.new_ask_qty) + spec_i64_to_le_bytes(self.old_ask_order_id));
            assert(out@[base.len() as int] == self.tag);
            assert(out@[base.len() as int + 1] == self.padding_u8);
            assert(out@.subrange(base.len() as int + 2, base.len() as int + 4) =~= spec_u16_to_le_bytes(self.padding_u16));
            assert(out@.subrange(base.len() as int + 4, base.len() as int + 8) =~= spec_u32_to_le_bytes(self.instr_id));
            assert(out@.subrange(base.len() as int + 8, base.len() as int + 16) =~= spec_i64_to_le_bytes(self.new_bid_price));
            assert(out@.subrange(base.len() as int + 16, base.len() as int + 24) =~= spec_i64_to_le_bytes(self.new_bid_qty));
            assert(out@.subrange(base.len() as int + 24, base.len() as int + 32) =~= spec_i64_to_le_bytes(self.old_bid_order_id));
            assert(out@.subrange(base.len() as int + 32, base.len() as int + 40) =~= spec_i64_to_le_bytes(self.new_ask_price));
            assert(out@.subrange(base.len() as int + 40, base.len() as int + 48) =~= spec_i64_to_le_bytes(self.new_ask_qty));
            assert(out@.subrange(base.len() as int + 48, base.len() as int + 56) =~= spec_i64_to_le_bytes(self.old_ask_order_id));
            assert(out@.subrange(0, base.len() as int) =~= base);
            assert(Self::wire_at(out@, base.len() as int) == *self);
        }
    }

    pub fn encode(&self) -> (r: Vec<u8>)
        ensures
            r@.len() == SPOT_QUOTES_REPLACE_DATA_SIZE,
            Self::wire_at(r@, 0) == *self,
    {
        let mut out: Vec<u8> = Vec::new();
        self.write(&mut out);
        out
    }

    /// What validating a `SpotQuotesReplaceData` payload returns: the decoded value
    /// when the payload has the right length and every range check holds
    /// of the decoded fields, else the error of the first check that
    /// fails.
    pub open spec fn spec_new(bytes: Seq<u8>, instr_count: u32) -> Result<SpotQuotesReplaceData, DeriverseErrorKind> {
        let d = Self::wire_at(bytes, 0);
        if bytes.len() != SPOT_QUOTES_REPLACE_DATA_SIZE {
            Err(DeriverseErrorKind::InvalidDataLength { expected: SPOT_QUOTES_REPLACE_DATA_SIZE, actual: bytes.len() as usize })
        } else if !(d.instr_id < instr_count) {
            Err(DeriverseErrorKind::InvalidInstrId { id: d.instr_id })
        } else if !(1 <= d.new_bid_price && d.new_bid_price < MAX_PRICE) {
            Err(DeriverseErrorKind::InvalidPrice { price: d.new_bid_price, min_price: 1, max_price: MAX_PRICE })
        } else if !(1 <= d.new_ask_price && d.new_ask_price < MAX_PRICE) {
            Err(DeriverseErrorKind::InvalidPrice { price: d.new_ask_price, min_price: 1, max_price: MAX_PRICE })
        } else if !(d.new_bid_price < d.new_ask_price) {
            Err(DeriverseErrorKind::InvalidPrice { price: d.new_bid_price, min_price: 1, max_price: d.new_ask_price })
        } else if !(1 <= d.new_bid_qty && d.new_bid_qty < SPOT_MAX_AMOUNT) {
            Err(DeriverseErrorKind::InvalidQuantity { value: d.new_bid_qty, min_value: 1, max_value: SPOT_MAX_AMOUNT })
        } else if !(1 <= d.new_ask_qty && d.new_ask_qty < SPOT_MAX_AMOUNT) {
            Err(DeriverseErrorKind::InvalidQuantity { value: d.new_ask_qty, min_value: 1, max_value: SPOT_MAX_AMOUNT })
        } else if !(0 <= d.old_bid_order_id && d.old_bid_order_id < MAX_ORDER_ID) {
            Err(DeriverseErrorKind::InvalidOrderId { value: d.old_bid_order_id, min_value: 0, max_value: MAX_ORDER_ID })
        } else if !(0 <= d.old_ask_order_id && d.old_ask_order_id < MAX_ORDER_ID) {
            Err(DeriverseErrorKind::InvalidOrderId { value: d.old_ask_order_id, min_value: 0, max_value: MAX_ORDER_ID })
        } else {
            Ok(d)
        }
    }

    /// Decodes and validates one `SpotQuotesReplaceData` payload.
    pub fn new(bytes: &[u8], instr_count: u32) -> (r: Result<SpotQuotesReplaceData, DeriverseErrorKind>)
        ensures
            r == Self::spec_new(bytes@, instr_count),
    {
        if bytes.len() != SPOT_QUOTES_REPLACE_DATA_SIZE {
            return Err(DeriverseErrorKind::InvalidDataLength { expected: SPOT_QUOTES_REPLACE_DATA_SIZE, actual: bytes.len() });
        }
        let d = Self::read_at(bytes, 0);
        if !(d.instr_id < instr_count) {
            return Err(DeriverseErrorKind::InvalidInstrId { id: d.instr_id });
        }
        if !(1 <= d.new_bid_price && d.new_bid_price < MAX_PRICE) {
            return Err(DeriverseErrorKind::InvalidPrice { price: d.new_bid_price, min_price: 1, max_price: MAX_PRICE });
        }
        if !(1 <= d.new_ask_price && d.new_ask_price < MAX_PRICE) {
            return Err(DeriverseErrorKind::InvalidPrice { price: d.new_ask_price, min_price: 1, max_price: MAX_PRICE });
        }
        if !(d.new_bid_price < d.new_ask_price) {
            return Err(DeriverseErrorKind::InvalidPrice { price: d.new_bid_price, min_price: 1, max_price: d.new_ask_price });
        }
        if !(1 <= d.new_bid_qty && d.new_bid_qty < SPOT_MAX_AMOUNT) {
            return Err(DeriverseErrorKind::InvalidQuantity { value: d.new_bid_qty, min_value: 1, max_value: SPOT_MAX_AMOUNT });
        }
        if !(1 <= d.new_ask_qty && d.new_ask_qty < SPOT_MAX_AMOUNT) {
            return Err(DeriverseErrorKind::InvalidQuantity { value: d.new_ask_qty, min_value: 1, max_value: SPOT_MAX_AMOUNT });
        }
        if !(0 <= d.old_bid_order_id && d.old_bid_order_id < MAX_ORDER_ID) {
            return Err(DeriverseErrorKind::InvalidOrderId { value: d.old_bid_order_id, min_value: 0, max_value: MAX_ORDER_ID });
        }
        if !(0 <= d.old_ask_order_id && d.old_ask_order_id < MAX_ORDER_ID) {
            return Err(DeriverseErrorKind::InvalidOrderId { value: d.old_ask_order_id, min_value: 0, max_value: MAX_ORDER_ID });
        }
        Ok(d)
    }
}

/// Perp Quotes Replace Data, used by the `perp_quotes_replace`
/// instruction (tag 42).  The new bid price must be strictly below the
/// new ask price, and both replaced order ids must be valid.
#[derive(Clone, Copy, Debug, PartialEq)]
pub struct PerpQuotesReplaceData {
    pub tag: u8,
    pub padding_u8: u8,
    pub padding_u16: u16,
    pub instr_id: u32,
    pub new_bid_price: i64,
    pub new_bid_qty: i64,
    pub old_bid_order_id: i64,
    pub new_ask_price: i64,
    pub new_ask_qty: i64,
    pub old_ask_order_id: i64,
}

pub const PERP_QUOTES_REPLACE_DATA_SIZE: usize = 56;

impl PerpQuotesReplaceData {
    /// The `PerpQuotesReplaceData` image that starts at byte offset `off` of a buffer.
    pub open spec fn wire_at(b: Seq<u8>, off: int) -> PerpQuotesReplaceData {
        PerpQuotesReplaceData {
            tag: b[off],
            padding_u8: b[off + 1],
            padding_u16: spec_u16_from_le_bytes(b.subrange(off + 2, off + 4)),
            instr_id: spec_u32_from_le_bytes(b.subrange(off + 4, off + 8)),
            new_bid_price: spec_i64_from_le_bytes(b.subrange(off + 8, off + 16)),
            new_bid_qty: spec_i64_from_le_bytes(b.subrange(off + 16, off + 24)),
            old_bid_order_id: spec_i64_from_le_bytes(b.subrange(off + 24, off + 32)),
            new_ask_price: spec_i64_from_le_bytes(b.subrange(off + 32, off + 40)),
            new_ask_qty: spec_i64_from_le_bytes(b.subrange(off + 40, off + 48)),
            old_ask_order_id: spec_i64_from_le_bytes(b.subrange(off + 48, off + 56)),
        }
    }

    pub fn read_at(b: &[u8], off: usize) -> (r: PerpQuotesReplaceData)
        requires
            off + PERP_QUOTES_REPLACE_DATA_SIZE <= b@.len(),
        ensures
            r == Self::wire_at(b@, off as int),
    {
        let n = b.len();
        assert(off + 56 <= n);
        PerpQuotesReplaceData {
            tag: read_u8(b, off),
            padding_u8: read_u8(b, off + 1),
            padding_u16: read_u16(b, off + 2),
            instr_id: read_u32(b, off + 4),
            new_bid_price: read_i64(b, off + 8),
            new_bid_qty: read_i64(b, off + 16),
            old_bid_order_id: read_i64(b, off + 24),
            new_ask_price: read_i64(b, off + 32),
            new_ask_qty: read_i64(b, off + 40),
            old_ask_order_id: read_i64(b, off + 48),
        }
    }

    pub fn write(&self, out: &mut Vec<u8>)
        ensures
            final(out)@.len() == old(out)@.len() + PERP_QUOTES_REPLACE_DATA_SIZE,
            final(out)@.subrange(0, old(out)@.len() as int) == old(out)@,
            Self::wire_at(final(out)@, old(out)@.len() as int) == *self,
    {
        let ghost base = out@;
        put_u8(out, self.tag);
        put_u8(out, self.padding_u8);
        put_u16(out, self.padding_u16);
        put_u32(out, self.instr_id);
        put_i64(out, self.new_bid_price);
        put_i64(out, self.new_bid_qty);
        put_i64(out, self.old_bid_order_id);
        put_i64(out, self.new_ask_price);
        put_i64(out, self.new_ask_qty);
        put_i64(out, self.old_ask_order_id);
        proof {
            lemma_auto_spec_u16_to_from_le_bytes();
            lemma_auto_spec_u32_to_from_le_bytes();
            lemma_auto_spec_u64_to_from_le_bytes();
            lemma_auto_spec_i64_to_from_le_bytes();
            assert(out@ == base + seq![self.tag] + seq![self.padding_u8] + spec_u16_to_le_bytes(self.padding_u16) + spec_u32_to_le_bytes(self.instr_id) + spec_i64_to_le_bytes(self.new_bid_price) + spec_i64_to_le_bytes(self.new_bid_qty) + spec_i64_to_le_bytes(self.old_bid_order_id) + spec_i64_to_le_bytes(self.new_ask_price) + spec_i64_to_le_bytes(self.new_ask_qty) + spec_i64_to_le_bytes(self.old_ask_order_id));
            assert(out@[base.len() as int] == self.tag);
            assert(out@[base.len() as int + 1] == self.padding_u8);
            assert(out@.subrange(base.len() as int + 2, base.len() as int + 4) =~= spec_u16_to_le_bytes(self.padding_u16));
            assert(out@.subrange(base.len() as int + 4, base.len() as int + 8) =~= spec_u32_to_le_bytes(self.instr_id));
            assert(out@.subrange(base.len() as int + 8, base.len() as int + 16) =~= spec_i64_to_le_bytes(self.new_bid_price));
            assert(out@.subrange(base.len() as int + 16, base.len() as int + 24) =~= spec_i64_to_le_bytes(self.new_bid_qty));
            assert(out@.subrange(base.len() as int + 24, base.len() as int + 32) =~= spec_i64_to_le_bytes(self.old_bid_order_id));
            assert(out@.subrange(base.len() as int + 32, base.len() as int + 40) =~= spec_i64_to_le_bytes(self.new_ask_price));
            assert(out@.subrange(base.len() as int + 40, base.len() as int + 48) =~= spec_i64_to_le_bytes(self.new_ask_qty));
            assert(out@.subrange(base.len() as int + 48, base.len() as int + 56) =~= spec_i64_to_le_bytes(self.old_ask_order_id));
            assert(out@.subrange(0, base.len() as int) =~= base);
            assert(Self::wire_at(out@, base.len() as int) == *self);
        }
    }

    pub fn encode(&self) -> (r: Vec<u8>)
        ensures
            r@.len() == PERP_QUOTES_REPLACE_DATA_SIZE,
            Self::wire_at(r@, 0) == *self,
    {
        let mut out: Vec<u8> = Vec::new();
        self.write(&mut out);
        out
    }

    /// What validating a `PerpQuotesReplaceData` payload returns: the decoded value
    /// when the payload has the right length and every range check holds
    /// of the decoded fields, else the error of the first check that
    /// fails.
    pub open spec fn spec_new(bytes: Seq<u8>, instr_count: u32) -> Result<PerpQuotesReplaceData, DeriverseErrorKind> {
        let d = Self::wire_at(bytes, 0);
        if bytes.len() != PERP_QUOTES_REPLACE_DATA_SIZE {
            Err(DeriverseErrorKind::InvalidDataLength { expected: PERP_QUOTES_REPLACE_DATA_SIZE, actual: bytes.len() as usize })
        } else if !(d.instr_id < instr_count) {
            Err(DeriverseErrorKind::InvalidInstrId { id: d.instr_id })
        } else if !(1 <= d.new_bid_price && d.new_bid_price < MAX_PRICE) {
            Err(DeriverseErrorKind::InvalidPrice { price: d.new_bid_price, min_price: 1, max_price: MAX_PRICE })
        } else if !(1 <= d.new_ask_price && d.new_ask_price < MAX_PRICE) {
            Err(DeriverseErrorKind::InvalidPrice { price: d.new_ask_price, min_price: 1, max_price: MAX_PRICE })
        } else if !(d.new_bid_price < d.new_ask_price) {
            Err(DeriverseErrorKind::InvalidPrice { price: d.new_bid_price, min_price: 1, max_price: d.new_ask_price })
        } else if !(1 <= d.new_bid_qty && d.new_bid_qty < SPOT_MAX_AMOUNT) {
            Err(DeriverseErrorKind::InvalidQuantity { value: d.new_bid_qty, min_value: 1, max_value: SPOT_MAX_AMOUNT })
        } else if !(1 <= d.new_ask_qty && d.new_ask_qty < SPOT_MAX_AMOUNT) {
            Err(DeriverseErrorKind::InvalidQuantity { value: d.new_ask_qty, min_value: 1, max_value: SPOT_MAX_AMOUNT })
        } else if !(0 <= d.old_bid_order_id && d.old_bid_order_id < MAX_ORDER_ID) {
            Err(DeriverseErrorKind::InvalidOrderId { value: d.old_bid_order_id, min_value: 0, max_value: MAX_ORDER_ID })
        } else if !(0 <= d.old_ask_order_id && d.old_ask_order_id < MAX_ORDER_ID) {
            Err(DeriverseErrorKind::InvalidOrderId { value: d.old_ask_order_id, min_value: 0, max_value: MAX_ORDER_ID })
        } else {
            Ok(d)
        }
    }

    /// Decodes and validates one `PerpQuotesReplaceData` payload.
    pub fn new(bytes: &[u8], instr_count: u32) -> (r: Result<PerpQuotesReplaceData, DeriverseErrorKind>)
        ensures
            r == Self::spec_new(bytes@, instr_count),
    {
        if bytes.len() != PERP_QUOTES_REPLACE_DATA_SIZE {
            return Err(DeriverseErrorKind::InvalidDataLength { expected: PERP_QUOTES_REPLACE_DATA_SIZE, actual: bytes.len() });
        }
        let d = Self::read_at(bytes, 0);
        if !(d.instr_id < instr_count) {
            return Err(DeriverseErrorKind::InvalidInstrId { id: d.instr_id });
        }
        if !(1 <= d.new_bid_price && d.new_bid_price < MAX_PRICE) {
            return Err(DeriverseErrorKind::InvalidPrice { price: d.new_bid_price, min_price: 1, max_price: MAX_PRICE });
        }
        if !(1 <= d.new_ask_price && d.new_ask_price < MAX_PRICE) {
            return Err(DeriverseErrorKind::InvalidPrice { price: d.new_ask_price, min_price: 1, max_price: MAX_PRICE });
        }
        if !(d.new_bid_price < d.new_ask_price) {
            return Err(DeriverseErrorKind::InvalidPrice { price: d.new_bid_price, min_price: 1, max_price: d.new_ask_price });
        }
        if !(1 <= d.new_bid_qty && d.new_bid_qty < SPOT_MAX_AMOUNT) {
            return Err(DeriverseErrorKind::InvalidQuantity { value: d.new_bid_qty, min_value: 1, max_value: SPOT_MAX_AMOUNT });
        }
        if !(1 <= d.new_ask_qty && d.new_ask_qty < SPOT_MAX_AMOUNT) {
            return Err(DeriverseErrorKind::InvalidQuantity { value: d.new_ask_qty, min_value: 1, max_value: SPOT_MAX_AMOUNT });
        }
        if !(0 <= d.old_bid_order_id && d.old_bid_order_id < MAX_ORDER_ID) {
            return Err(DeriverseErrorKind::InvalidOrderId { value: d.old_bid_order_id, min_value: 0, max_value: MAX_ORDER_ID });
        }
        if !(0 <= d.old_ask_order_id && d.old_ask_order_id < MAX_ORDER_ID) {
            return Err(DeriverseErrorKind::InvalidOrderId { value: d.old_ask_order_id, min_value: 0, max_value: MAX_ORDER_ID });
        }
        Ok(d)
    }
}

/// Voting Data, used by the `voting` instruction (tag 32).  The voting
/// counter is held against the community state by the handler.
#[derive(Clone, Copy, Debug, PartialEq)]
pub struct VotingData {
    pub tag: u8,
    pub choice: u8,
    pub padding_u16: u16,
    pub voting_counter: u32,
}

pub const VOTING_DATA_SIZE: usize = 8;

impl VotingData {
    /// The `VotingData` image that starts at byte offset `off` of a buffer.
    pub open spec fn wire_at(b: Seq<u8>, off: int) -> VotingData {
        VotingData {
            tag: b[off],
            choice: b[off + 1],
            padding_u16: spec_u16_from_le_bytes(b.subrange(off + 2, off + 4)),
            voting_counter: spec_u32_from_le_bytes(b.subrange(off + 4, off + 8)),
        }
    }

    pub fn read_at(b: &[u8], off: usize) -> (r: VotingData)
        requires
            off + VOTING_DATA_SIZE <= b@.len(),
        ensures
            r == Self::wire_at(b@, off as int),
    {
        let n = b.len();
        assert(off + 8 <= n);
        VotingData {
            tag: read_u8(b, off),
            choice: read_u8(b, off + 1),
            padding_u16: read_u16(b, off + 2),
            voting_counter: read_u32(b, off + 4),
        }
    }

    pub fn write(&self, out: &mut Vec<u8>)
        ensures
            final(out)@.len() == old(out)@.len() + VOTING_DATA_SIZE,
            final(out)@.subrange(0, old(out)@.len() as int) == old(out)@,
            Self::wire_at(final(out)@, old(out)@.len() as int) == *self,
    {
        let ghost base = out@;
        put_u8(out, self.tag);
        put_u8(out, self.choice);
        put_u16(out, self.padding_u16);
        put_u32(out, self.voting_counter);
        proof {
            lemma_auto_spec_u16_to_from_le_bytes();
            lemma_auto_spec_u32_to_from_le_bytes();
            lemma_auto_spec_u64_to_from_le_bytes();
            lemma_auto_spec_i64_to_from_le_bytes();
            assert(out@ == base + seq![self.tag] + seq![self.choice] + spec_u16_to_le_bytes(self.padding_u16) + spec_u32_to_le_bytes(self.voting_counter));
            assert(out@[base.len() as int] == self.tag);
            assert(out@[base.len() as int + 1] == self.choice);
            assert(out@.subrange(base.len() as int + 2, base.len() as int + 4) =~= spec_u16_to_le_bytes(self.padding_u16));
            assert(out@.subrange(base.len() as int + 4, base.len() as int + 8) =~= spec_u32_to_le_bytes(self.voting_counter));
            assert(out@.subrange(0, base.len() as int) =~= base);
            assert(Self::wire_at(out@, base.len() as int) == *self);
        }
    }

    pub fn encode(&self) -> (r: Vec<u8>)
        ensures
            r@.len() == VOTING_DATA_SIZE,
            Self::wire_at(r@, 0) == *self,
    {
        let mut out: Vec<u8> = Vec::new();
        self.write(&mut out);
        out
    }

    /// What validating a `VotingData` payload returns: the decoded value
    /// when the payload has the right length and every range check holds
    /// of the decoded fields, else the error of the first check that
    /// fails.
    pub open spec fn spec_new(bytes: Seq<u8>) -> Result<VotingData, DeriverseErrorKind> {
        let d = Self::wire_at(bytes, 0);
        if bytes.len() != VOTING_DATA_SIZE {
            Err(DeriverseErrorKind::InvalidDataLength { expected: VOTING_DATA_SIZE, actual: bytes.len() as usize })
        } else {
            Ok(d)
        }
    }

    /// Decodes and validates one `VotingData` payload.
    pub fn new(bytes: &[u8]) -> (r: Result<VotingData, DeriverseErrorKind>)
        ensures
            r == Self::spec_new(bytes@),
    {
        if bytes.len() != VOTING_DATA_SIZE {
            return Err(DeriverseErrorKind::InvalidDataLength { expected: VOTING_DATA_SIZE, actual: bytes.len() });
        }
        let d = Self::read_at(bytes, 0);
        Ok(d)
    }
}

/// Airdrop Data, used by the `airdrop` instruction (tag 27).  The ratio
/// is a binary64 parameter of the host-side airdrop arithmetic, carried
/// here as its raw bit pattern.
#[derive(Clone, Copy, Debug, PartialEq)]
pub struct AirdropData {
    pub tag: u8,
    pub padding_u8: u8,
    pub padding_u16: u16,
    pub padding_u32: u32,
    pub ratio: u64,
}

pub const AIRDROP_DATA_SIZE: usize = 16;

impl AirdropData {
    /// The `AirdropData` image that starts at byte offset `off` of a buffer.
    pub open spec fn wire_at(b: Seq<u8>, off: int) -> AirdropData {
        AirdropData {
            tag: b[off],
            padding_u8: b[off + 1],
            padding_u16: spec_u16_from_le_bytes(b.subrange(off + 2, off + 4)),
            padding_u32: spec_u32_from_le_bytes(b.subrange(off + 4, off + 8)),
            ratio: spec_u64_from_le_bytes(b.subrange(off + 8, off + 16)),
        }
    }

    pub fn read_at(b: &[u8], off: usize) -> (r: AirdropData)
        requires
            off + AIRDROP_DATA_SIZE <= b@.len(),
        ensures
            r == Self::wire_at(b@, off as int),
    {
        let n = b.len();
        assert(off + 16 <= n);
        AirdropData {
            tag: read_u8(b, off),
            padding_u8: read_u8(b, off + 1),
            padding_u16: read_u16(b, off + 2),
            padding_u32: read_u32(b, off + 4),
            ratio: read_u64(b, off + 8),
        }
    }

    pub fn write(&self, out: &mut Vec<u8>)
        ensures
            final(out)@.len() == old(out)@.len() + AIRDROP_DATA_SIZE,
            final(out)@.subrange(0, old(out)@.len() as int) == old(out)@,
            Self::wire_at(final(out)@, old(out)@.len() as int) == *self,
    {
        let ghost base = out@;
        put_u8(out, self.tag);
        put_u8(out, self.padding_u8);
        put_u16(out, self.padding_u16);
        put_u32(out, self.padding_u32);
        put_u64(out, self.ratio);
        proof {
            lemma_auto_spec_u16_to_from_le_bytes();
            lemma_auto_spec_u32_to_from_le_bytes();
            lemma_auto_spec_u64_to_from_le_bytes();
            lemma_auto_spec_i64_to_from_le_bytes();
            assert(out@ == base + seq![self.tag] + seq![self.padding_u8] + spec_u16_to_le_bytes(self.padding_u16) + spec_u32_to_le_bytes(self.padding_u32) + spec_u64_to_le_bytes(self.ratio));
            assert(out@[base.len() as int] == self.tag);
            assert(out@[base.len() as int + 1] == self.padding_u8);
            assert(out@.subrange(base.len() as int + 2, base.len() as int + 4) =~= spec_u16_to_le_bytes(self.padding_u16));
            assert(out@.subrange(base.len() as int + 4, base.len() as int + 8) =~= spec_u32_to_le_bytes(self.padding_u32));
            assert(out@.subrange(base.len() as int + 8, base.len() as int + 16) =~= spec_u64_to_le_bytes(self.ratio));
            assert(out@.subrange(0, base.len() as int) =~= base);
            assert(Self::wire_at(out@, base.len() as int) == *self);
        }
    }

    pub fn encode(&self) -> (r: Vec<u8>)
        ensures
            r@.len() == AIRDROP_DATA_SIZE,
            Self::wire_at(r@, 0) == *self,
    {
        let mut out: Vec<u8> = Vec::new();
        self.write(&mut out);
        out
    }

    /// What validating a `AirdropData` payload returns: the decoded value
    /// when the payload has the right length and every range check holds
    /// of the decoded fields, else the error of the first check that
    /// fails.
    pub open spec fn spec_new(bytes: Seq<u8>) -> Result<AirdropData, DeriverseErrorKind> {
        let d = Self::wire_at(bytes, 0);
        if bytes.len() != AIRDROP_DATA_SIZE {
            Err(DeriverseErrorKind::InvalidDataLength { expected: AIRDROP_DATA_SIZE, actual: bytes.len() as usize })
        } else {
            Ok(d)
        }
    }

    /// Decodes and validates one `AirdropData` payload.
    pub fn new(bytes: &[u8]) -> (r: Result<AirdropData, DeriverseErrorKind>)
        ensures
            r == Self::spec_new(bytes@),
    {
        if bytes.len() != AIRDROP_DATA_SIZE {
            return Err(DeriverseErrorKind::InvalidDataLength { expected: AIRDROP_DATA_SIZE, actual: bytes.len() });
        }
        let d = Self::read_at(bytes, 0);
        Ok(d)
    }
}

/// Upgrade To Perp Data, used by the `upgrade_to_perp` instruction
/// (tag 10).
#[derive(Clone, Copy, Debug, PartialEq)]
pub struct UpgradeToPerpData {
    pub tag: u8,
    pub padding_u8: u8,
    pub padding_u16: u16,
    pub instr_id: u32,
}

pub const UPGRADE_TO_PERP_DATA_SIZE: usize = 8;

impl UpgradeToPerpData {
    /// The `UpgradeToPerpData` image that starts at byte offset `off` of a buffer.
    pub open spec fn wire_at(b: Seq<u8>, off: int) -> UpgradeToPerpData {
        UpgradeToPerpData {
            tag: b[off],
            padding_u8: b[off + 1],
            padding_u16: spec_u16_from_le_bytes(b.subrange(off + 2, off + 4)),
            instr_id: spec_u32_from_le_bytes(b.subrange(off + 4, off + 8)),
        }
    }

    pub fn read_at(b: &[u8], off: usize) -> (r: UpgradeToPerpData)
        requires
            off + UPGRADE_TO_PERP_DATA_SIZE <= b@.len(),
        ensures
            r == Self::wire_at(b@, off as int),
    {
        let n = b.len();
        assert(off + 8 <= n);
        UpgradeToPerpData {
            tag: read_u8(b, off),
            padding_u8: read_u8(b, off + 1),
            padding_u16: read_u16(b, off + 2),
            instr_id: read_u32(b, off + 4),
        }
    }

    pub fn write(&self, out: &mut Vec<u8>)
        ensures
            final(out)@.len() == old(out)@.len() + UPGRADE_TO_PERP_DATA_SIZE,
            final(out)@.subrange(0, old(out)@.len() as int) == old(out)@,
            Self::wire_at(final(out)@, old(out)@.len() as int) == *self,
    {
        let ghost base = out@;
        put_u8(out, self.tag);
        put_u8(out, self.padding_u8);
        put_u16(out, self.padding_u16);
        put_u32(out, self.instr_id);
        proof {
            lemma_auto_spec_u16_to_from_le_bytes();
            lemma_auto_spec_u32_to_from_le_bytes();
            lemma_auto_spec_u64_to_from_le_bytes();
            lemma_auto_spec_i64_to_from_le_bytes();
            assert(out@ == base + seq![self.tag] + seq![self.padding_u8] + spec_u16_to_le_bytes(self.padding_u16) + spec_u32_to_le_bytes(self.instr_id));
            assert(out@[base.len() as int] == self.tag);
            assert(out@[base.len() as int + 1] == self.padding_u8);
            assert(out@.subrange(base.len() as int + 2, base.len() as int + 4) =~= spec_u16_to_le_bytes(self.padding_u16));
            assert(out@.subrange(base.len() as int + 4, base.len() as int + 8) =~= spec_u32_to_le_bytes(self.instr_id));
            assert(out@.subrange(0, base.len() as int) =~= base);
            assert(Self::wire_at(out@, base.len() as int) == *self);
        }
    }

    pub fn encode(&self) -> (r: Vec<u8>)
        ensures
            r@.len() == UPGRADE_TO_PERP_DATA_SIZE,
            Self::wire_at(r@, 0) == *self,
    {
        let mut out: Vec<u8> = Vec::new();
        self.write(&mut out);
        out
    }

    /// What validating a `UpgradeToPerpData` payload returns: the decoded value
    /// when the payload has the right length and every range check holds
    /// of the decoded fields, else the error of the first check that
    /// fails.
    pub open spec fn spec_new(bytes: Seq<u8>, instr_count: u32) -> Result<UpgradeToPerpData, DeriverseErrorKind> {
        let d = Self::wire_at(bytes, 0);
        if bytes.len() != UPGRADE_TO_PERP_DATA_SIZE {
            Err(DeriverseErrorKind::InvalidDataLength { expected: UPGRADE_TO_PERP_DATA_SIZE, actual: bytes.len() as usize })
        } else if !(d.instr_id < instr_count) {
            Err(DeriverseErrorKind::InvalidInstrId { id: d.instr_id })
        } else {
            Ok(d)
        }
    }

    /// Decodes and validates one `UpgradeToPerpData` payload.
    pub fn new(bytes: &[u8], instr_count: u32) -> (r: Result<UpgradeToPerpData, DeriverseErrorKind>)
        ensures
            r == Self::spec_new(bytes@, instr_count),
    {
        if bytes.len() != UPGRADE_TO_PERP_DATA_SIZE {
            return Err(DeriverseErrorKind::InvalidDataLength { expected: UPGRADE_TO_PERP_DATA_SIZE, actual: bytes.len() });
        }
        let d = Self::read_at(bytes, 0);
        if !(d.instr_id < instr_count) {
            return Err(DeriverseErrorKind::InvalidInstrId { id: d.instr_id });
        }
        Ok(d)
    }
}

/// Set Instrument Ready For Perp Upgrade Data, used by the
/// `set_instr_ready_for_perp_upgrade` instruction (tag 41).  The price
/// variance is a binary64 value carried as its raw bit pattern.
#[derive(Clone, Copy, Debug, PartialEq)]
pub struct SetInstrReadyForPerpUpgradeData {
    pub tag: u8,
    pub padding_u8: u8,
    pub padding_u16: u16,
    pub instr_id: u32,
    pub variance: u64,
}

pub const SET_INSTR_READY_FOR_PERP_UPGRADE_DATA_SIZE: usize = 16;

impl SetInstrReadyForPerpUpgradeData {
    /// The `SetInstrReadyForPerpUpgradeData` image that starts at byte offset `off` of a buffer.
    pub open spec fn wire_at(b: Seq<u8>, off: int) -> SetInstrReadyForPerpUpgradeData {
        SetInstrReadyForPerpUpgradeData {
            tag: b[off],
            padding_u8: b[off + 1],
            padding_u16: spec_u16_from_le_bytes(b.subrange(off + 2, off + 4)),
            instr_id: spec_u32_from_le_bytes(b.subrange(off + 4, off + 8)),
            variance: spec_u64_from_le_bytes(b.subrange(off + 8, off + 16)),
        }
    }

    pub fn read_at(b: &[u8], off: usize) -> (r: SetInstrReadyForPerpUpgradeData)
        requires
            off + SET_INSTR_READY_FOR_PERP_UPGRADE_DATA_SIZE <= b@.len(),
        ensures
            r == Self::wire_at(b@, off as int),
    {
        let n = b.len();
        assert(off + 16 <= n);
        SetInstrReadyForPerpUpgradeData {
            tag: read_u8(b, off),
            padding_u8: read_u8(b, off + 1),
            padding_u16: read_u16(b, off + 2),
            instr_id: read_u32(b, off + 4),
            variance: read_u64(b, off + 8),
        }
    }

    pub fn write(&self, out: &mut Vec<u8>)
        ensures
            final(out)@.len() == old(out)@.len() + SET_INSTR_READY_FOR_PERP_UPGRADE_DATA_SIZE,
            final(out)@.subrange(0, old(out)@.len() as int) == old(out)@,
            Self::wire_at(final(out)@, old(out)@.len() as int) == *self,
    {
        let ghost base = out@;
        put_u8(out, self.tag);
        put_u8(out, self.padding_u8);
        put_u16(out, self.padding_u16);
        put_u32(out, self.instr_id);
        put_u64(out, self.variance);
        proof {
            lemma_auto_spec_u16_to_from_le_bytes();
            lemma_auto_spec_u32_to_from_le_bytes();
            lemma_auto_spec_u64_to_from_le_bytes();
            lemma_auto_spec_i64_to_from_le_bytes();
            assert(out@ == base + seq![self.tag] + seq![self.padding_u8] + spec_u16_to_le_bytes(self.padding_u16) + spec_u32_to_le_bytes(self.instr_id) + spec_u64_to_le_bytes(self.variance));
            assert(out@[base.len() as int] == self.tag);
            assert(out@[base.len() as int + 1] == self.padding_u8);
            assert(out@.subrange(base.len() as int + 2, base.len() as int + 4) =~= spec_u16_to_le_bytes(self.padding_u16));
            assert(out@.subrange(base.len() as int + 4, base.len() as int + 8) =~= spec_u32_to_le_bytes(self.instr_id));
            assert(out@.subrange(base.len() as int + 8, base.len() as int + 16) =~= spec_u64_to_le_bytes(self.variance));
            assert(out@.subrange(0, base.len() as int) =~= base);
            assert(Self::wire_at(out@, base.len() as int) == *self);
        }
    }

    pub fn encode(&self) -> (r: Vec<u8>)
        ensures
            r@.len() == SET_INSTR_READY_FOR_PERP_UPGRADE_DATA_SIZE,
            Self::wire_at(r@, 0) == *self,
    {
        let mut out: Vec<u8> = Vec::new();
        self.write(&mut out);
        out
    }

    /// What validating a `SetInstrReadyForPerpUpgradeData` payload returns: the decoded value
    /// when the payload has the right length and every range check holds
    /// of the decoded fields, else the error of the first check that
    /// fails.
    pub open spec fn spec_new(bytes: Seq<u8>, instr_count: u32) -> Result<SetInstrReadyForPerpUpgradeData, DeriverseErrorKind> {
        let d = Self::wire_at(bytes, 0);
        if bytes.len() != SET_INSTR_READY_FOR_PERP_UPGRADE_DATA_SIZE {
            Err(DeriverseErrorKind::InvalidDataLength { expected: SET_INSTR_READY_FOR_PERP_UPGRADE_DATA_SIZE, actual: bytes.len() as usize })
        } else if !(d.instr_id < instr_count) {
            Err(DeriverseErrorKind::InvalidInstrId { id: d.instr_id })
        } else {
            Ok(d)
        }
    }

    /// Decodes and validates one `SetInstrReadyForPerpUpgradeData` payload.
    pub fn new(bytes: &[u8], instr_count: u32) -> (r: Result<SetInstrReadyForPerpUpgradeData, DeriverseErrorKind>)
        ensures
            r == Self::spec_new(bytes@, instr_count),
    {
        if bytes.len() != SET_INSTR_READY_FOR_PERP_UPGRADE_DATA_SIZE {
            return Err(DeriverseErrorKind::InvalidDataLength { expected: SET_INSTR_READY_FOR_PERP_UPGRADE_DATA_SIZE, actual: bytes.len() });
        }
        let d = Self::read_at(bytes, 0);
        if !(d.instr_id < instr_count) {
            return Err(DeriverseErrorKind::InvalidInstrId { id: d.instr_id });
        }
        Ok(d)
    }
}

/// Perp Order Cancel Data, used by the `perp_order_cancel` instruction
/// (tag 30).
#[derive(Clone, Copy, Debug, PartialEq)]
pub struct PerpOrderCancelData {
    pub tag: u8,
    pub side: u8,
    pub padding_u16: u16,
    pub instr_id: u32,
    pub order_id: i64,
}

pub const PERP_ORDER_CANCEL_DATA_SIZE: usize = 16;

impl PerpOrderCancelData {
    /// The `PerpOrderCancelData` image that starts at byte offset `off` of a buffer.
    pub open spec fn wire_at(b: Seq<u8>, off: int) -> PerpOrderCancelData {
        PerpOrderCancelData {
            tag: b[off],
            side: b[off + 1],
            padding_u16: spec_u16_from_le_bytes(b.subrange(off + 2, off + 4)),
            instr_id: spec_u32_from_le_bytes(b.subrange(off + 4, off + 8)),
            order_id: spec_i64_from_le_bytes(b.subrange(off + 8, off + 16)),
        }
    }

    pub fn read_at(b: &[u8], off: usize) -> (r: PerpOrderCancelData)
        requires
            off + PERP_ORDER_CANCEL_DATA_SIZE <= b@.len(),
        ensures
            r == Self::wire_at(b@, off as int),
    {
        let n = b.len();
        assert(off + 16 <= n);
        PerpOrderCancelData {
            tag: read_u8(b, off),
            side: read_u8(b, off + 1),
            padding_u16: read_u16(b, off + 2),
            instr_id: read_u32(b, off + 4),
            order_id: read_i64(b, off + 8),
        }
    }

    pub fn write(&self, out: &mut Vec<u8>)
        ensures
            final(out)@.len() == old(out)@.len() + PERP_ORDER_CANCEL_DATA_SIZE,
            final(out)@.subrange(0, old(out)@.len() as int) == old(out)@,
            Self::wire_at(final(out)@, old(out)@.len() as int) == *self,
    {
        let ghost base = out@;
        put_u8(out, self.tag);
        put_u8(out, self.side);
        put_u16(out, self.padding_u16);
        put_u32(out, self.instr_id);
        put_i64(out, self.order_id);
        proof {
            lemma_auto_spec_u16_to_from_le_bytes();
            lemma_auto_spec_u32_to_from_le_bytes();
            lemma_auto_spec_u64_to_from_le_bytes();
            lemma_auto_spec_i64_to_from_le_bytes();
            assert(out@ == base + seq![self.tag] + seq![self.side] + spec_u16_to_le_bytes(self.padding_u16) + spec_u32_to_le_bytes(self.instr_id) + spec_i64_to_le_bytes(self.order_id));
            assert(out@[base.len() as int] == self.tag);
            assert(out@[base.len() as int + 1] == self.side);
            assert(out@.subrange(base.len() as int + 2, base.len() as int + 4) =~= spec_u16_to_le_bytes(self.padding_u16));
            assert(out@.subrange(base.len() as int + 4, base.len() as int + 8) =~= spec_u32_to_le_bytes(self.instr_id));
            assert(out@.subrange(base.len() as int + 8, base.len() as int + 16) =~= spec_i64_to_le_bytes(self.order_id));
            assert(out@.subrange(0, base.len() as int) =~= base);
            assert(Self::wire_at(out@, base.len() as int) == *self);
        }
    }

    pub fn encode(&self) -> (r: Vec<u8>)
        ensures
            r@.len() == PERP_ORDER_CANCEL_DATA_SIZE,
            Self::wire_at(r@, 0) == *self,
    {
        let mut out: Vec<u8> = Vec::new();
        self.write(&mut out);
        out
    }

    /// What validating a `PerpOrderCancelData` payload returns: the decoded value
    /// when the payload has the right length and every range check holds
    /// of the decoded fields, else the error of the first check that
    /// fails.
    pub open spec fn spec_new(bytes: Seq<u8>, instr_count: u32) -> Result<PerpOrderCancelData, DeriverseErrorKind> {
        let d = Self::wire_at(bytes, 0);
        if bytes.len() != PERP_ORDER_CANCEL_DATA_SIZE {
            Err(DeriverseErrorKind::InvalidDataLength { expected: PERP_ORDER_CANCEL_DATA_SIZE, actual: bytes.len() as usize })
        } else if !(d.instr_id < instr_count) {
            Err(DeriverseErrorKind::InvalidInstrId { id: d.instr_id })
        } else if !(0 <= d.order_id && d.order_id < MAX_ORDER_ID) {
            Err(DeriverseErrorKind::InvalidOrderId { value: d.order_id, min_value: 0, max_value: MAX_ORDER_ID })
        } else {
            Ok(d)
        }
    }

    /// Decodes and validates one `PerpOrderCancelData` payload.
    pub fn new(bytes: &[u8], instr_count: u32) -> (r: Result<PerpOrderCancelData, DeriverseErrorKind>)
        ensures
            r == Self::spec_new(bytes@, instr_count),
    {
        if bytes.len() != PERP_ORDER_CANCEL_DATA_SIZE {
            return Err(DeriverseErrorKind::InvalidDataLength { expected: PERP_ORDER_CANCEL_DATA_SIZE, actual: bytes.len() });
        }
        let d = Self::read_at(bytes, 0);
        if !(d.instr_id < instr_count) {
            return Err(DeriverseErrorKind::InvalidInstrId { id: d.instr_id });
        }
        if !(0 <= d.order_id && d.order_id < MAX_ORDER_ID) {
            return Err(DeriverseErrorKind::InvalidOrderId { value: d.order_id, min_value: 0, max_value: MAX_ORDER_ID });
        }
        Ok(d)
    }
}

/// Perp Mass Cancel Data, used by the `perp_mass_cancel` instruction
/// (tag 36).
#[derive(Clone, Copy, Debug, PartialEq)]
pub struct PerpMassCancelData {
    pub tag: u8,
    pub padding_u8: u8,
    pub padding_u16: u16,
    pub instr_id: u32,
}

pub const PERP_MASS_CANCEL_DATA_SIZE: usize = 8;

impl PerpMassCancelData {
    /// The `PerpMassCancelData` image that starts at byte offset `off` of a buffer.
    pub open spec fn wire_at(b: Seq<u8>, off: int) -> PerpMassCancelData {
        PerpMassCancelData {
            tag: b[off],
            padding_u8: b[off + 1],
            padding_u16: spec_u16_from_le_bytes(b.subrange(off + 2, off + 4)),
            instr_id: spec_u32_from_le_bytes(b.subrange(off + 4, off + 8)),
        }
    }

    pub fn read_at(b: &[u8], off: usize) -> (r: PerpMassCancelData)
        requires
            off + PERP_MASS_CANCEL_DATA_SIZE <= b@.len(),
        ensures
            r == Self::wire_at(b@, off as int),
    {
        let n = b.len();
        assert(off + 8 <= n);
        PerpMassCancelData {
            tag: read_u8(b, off),
            padding_u8: read_u8(b, off + 1),
            padding_u16: read_u16(b, off + 2),
            instr_id: read_u32(b, off + 4),
        }
    }

    pub fn write(&self, out: &mut Vec<u8>)
        ensures
            final(out)@.len() == old(out)@.len() + PERP_MASS_CANCEL_DATA_SIZE,
            final(out)@.subrange(0, old(out)@.len() as int) == old(out)@,
            Self::wire_at(final(out)@, old(out)@.len() as int) == *self,
    {
        let ghost base = out@;
        put_u8(out, self.tag);
        put_u8(out, self.padding_u8);
        put_u16(out, self.padding_u16);
        put_u32(out, self.instr_id);
        proof {
            lemma_auto_spec_u16_to_from_le_bytes();
            lemma_auto_spec_u32_to_from_le_bytes();
            lemma_auto_spec_u64_to_from_le_bytes();
            lemma_auto_spec_i64_to_from_le_bytes();
            assert(out@ == base + seq![self.tag] + seq![self.padding_u8] + spec_u16_to_le_bytes(self.padding_u16) + spec_u32_to_le_bytes(self.instr_id));
            assert(out@[base.len() as int] == self.tag);
            assert(out@[base.len() as int + 1] == self.padding_u8);
            assert(out@.subrange(base.len() as int + 2, base.len() as int + 4) =~= spec_u16_to_le_bytes(self.padding_u16));
            assert(out@.subrange(base.len() as int + 4, base.len() as int + 8) =~= spec_u32_to_le_bytes(self.instr_id));
            assert(out@.subrange(0, base.len() as int) =~= base);
            assert(Self::wire_at(out@, base.len() as int) == *self);
        }
    }

    pub fn encode(&self) -> (r: Vec<u8>)
        ensures
            r@.len() == PERP_MASS_CANCEL_DATA_SIZE,
            Self::wire_at(r@, 0) == *self,
    {
        let mut out: Vec<u8> = Vec::new();
        self.write(&mut out);
        out
    }

    /// What validating a `PerpMassCancelData` payload returns: the decoded value
    /// when the payload has the right length and every range check holds
    /// of the decoded fields, else the error of the first check that
    /// fails.
    pub open spec fn spec_new(bytes: Seq<u8>, instr_count: u32) -> Result<PerpMassCancelData, DeriverseErrorKind> {
        let d = Self::wire_at(bytes, 0);
        if bytes.len() != PERP_MASS_CANCEL_DATA_SIZE {
            Err(DeriverseErrorKind::InvalidDataLength { expected: PERP_MASS_CANCEL_DATA_SIZE, actual: bytes.len() as usize })
        } else if !(d.instr_id < instr_count) {
            Err(DeriverseErrorKind::InvalidInstrId { id: d.instr_id })
        } else {
            Ok(d)
        }
    }

    /// Decodes and validates one `PerpMassCancelData` payload.
    pub fn new(bytes: &[u8], instr_count: u32) -> (r: Result<PerpMassCancelData, DeriverseErrorKind>)
        ensures
            r == Self::spec_new(bytes@, instr_count),
    {
        if bytes.len() != PERP_MASS_CANCEL_DATA_SIZE {
            return Err(DeriverseErrorKind::InvalidDataLength { expected: PERP_MASS_CANCEL_DATA_SIZE, actual: bytes.len() });
        }
        let d = Self::read_at(bytes, 0);
        if !(d.instr_id < instr_count) {
            return Err(DeriverseErrorKind::InvalidInstrId { id: d.instr_id });
        }
        Ok(d)
    }
}

/// Change Ref Program Data, used by the `change_ref_program` instruction
/// (tag 44).  The discount and ratio are binary64 parameters of the
/// host-side referral arithmetic, carried as raw bit patterns.
#[derive(Clone, Copy, Debug, PartialEq)]
pub struct ChangeRefProgramData {
    pub tag: u8,
    pub padding_u8: u8,
    pub padding_u16: u16,
    pub padding_u32: u32,
    pub ref_program_duration: u32,
    pub ref_link_duration: u32,
    pub ref_discount: u64,
    pub ref_ratio: u64,
}

pub const CHANGE_REF_PROGRAM_DATA_SIZE: usize = 32;

impl ChangeRefProgramData {
    /// The `ChangeRefProgramData` image that starts at byte offset `off` of a buffer.
    pub open spec fn wire_at(b: Seq<u8>, off: int) -> ChangeRefProgramData {
        ChangeRefProgramData {
            tag: b[off],
            padding_u8: b[off + 1],
            padding_u16: spec_u16_from_le_bytes(b.subrange(off + 2, off + 4)),
            padding_u32: spec_u32_from_le_bytes(b.subrange(off + 4, off + 8)),
            ref_program_duration: spec_u32_from_le_bytes(b.subrange(off + 8, off + 12)),
            ref_link_duration: spec_u32_from_le_bytes(b.subrange(off + 12, off + 16)),
            ref_discount: spec_u64_from_le_bytes(b.subrange(off + 16, off + 24)),
            ref_ratio: spec_u64_from_le_bytes(b.subrange(off + 24, off + 32)),
        }
    }

    pub fn read_at(b: &[u8], off: usize) -> (r: ChangeRefProgramData)
        requires
            off + CHANGE_REF_PROGRAM_DATA_SIZE <= b@.len(),
        ensures
            r == Self::wire_at(b@, off as int),
    {
        let n = b.len();
        assert(off + 32 <= n);
        ChangeRefProgramData {
            tag: read_u8(b, off),
            padding_u8: read_u8(b, off + 1),
            padding_u16: read_u16(b, off + 2),
            padding_u32: read_u32(b, off + 4),
            ref_program_duration: read_u32(b, off + 8),
            ref_link_duration: read_u32(b, off + 12),
            ref_discount: read_u64(b, off + 16),
            ref_ratio: read_u64(b, off + 24),
        }
    }

    pub fn write(&self, out: &mut Vec<u8>)
        ensures
            final(out)@.len() == old(out)@.len() + CHANGE_REF_PROGRAM_DATA_SIZE,
            final(out)@.subrange(0, old(out)@.len() as int) == old(out)@,
            Self::wire_at(final(out)@, old(out)@.len() as int) == *self,
    {
        let ghost base = out@;
        put_u8(out, self.tag);
        put_u8(out, self.padding_u8);
        put_u16(out, self.padding_u16);
        put_u32(out, self.padding_u32);
        put_u32(out, self.ref_program_duration);
        put_u32(out, self.ref_link_duration);
        put_u64(out, self.ref_discount);
        put_u64(out, self.ref_ratio);
        proof {
            lemma_auto_spec_u16_to_from_le_bytes();
            lemma_auto_spec_u32_to_from_le_bytes();
            lemma_auto_spec_u64_to_from_le_bytes();
            lemma_auto_spec_i64_to_from_le_bytes();
            assert(out@ == base + seq![self.tag] + seq![self.padding_u8] + spec_u16_to_le_bytes(self.padding_u16) + spec_u32_to_le_bytes(self.padding_u32) + spec_u32_to_le_bytes(self.ref_program_duration) + spec_u32_to_le_bytes(self.ref_link_duration) + spec_u64_to_le_bytes(self.ref_discount) + spec_u64_to_le_bytes(self.ref_ratio));
            assert(out@[base.len() as int] == self.tag);
            assert(out@[base.len() as int + 1] == self.padding_u8);
            assert(out@.subrange(base.len() as int + 2, base.len() as int + 4) =~= spec_u16_to_le_bytes(self.padding_u16));
            assert(out@.subrange(base.len() as int + 4, base.len() as int + 8) =~= spec_u32_to_le_bytes(self.padding_u32));
            assert(out@.subrange(base.len() as int + 8, base.len() as int + 12) =~= spec_u32_to_le_bytes(self.ref_program_duration));
            assert(out@.subrange(base.len() as int + 12, base.len() as int + 16) =~= spec_u32_to_le_bytes(self.ref_link_duration));
            assert(out@.subrange(base.len() as int + 16, base.len() as int + 24) =~= spec_u64_to_le_bytes(self.ref_discount));
            assert(out@.subrange(base.len() as int + 24, base.len() as int + 32) =~= spec_u64_to_le_bytes(self.ref_ratio));
            assert(out@.subrange(0, base.len() as int) =~= base);
            assert(Self::wire_at(out@, base.len() as int) == *self);
        }
    }

    pub fn encode(&self) -> (r: Vec<u8>)
        ensures
            r@.len() == CHANGE_REF_PROGRAM_DATA_SIZE,
            Self::wire_at(r@, 0) == *self,
    {
        let mut out: Vec<u8> = Vec::new();
        self.write(&mut out);
        out
    }

    /// What validating a `ChangeRefProgramData` payload returns: the decoded value
    /// when the payload has the right length and every range check holds
    /// of the decoded fields, else the error of the first check that
    /// fails.
    pub open spec fn spec_new(bytes: Seq<u8>) -> Result<ChangeRefProgramData, DeriverseErrorKind> {
        let d = Self::wire_at(bytes, 0);
        if bytes.len() != CHANGE_REF_PROGRAM_DATA_SIZE {
            Err(DeriverseErrorKind::InvalidDataLength { expected: CHANGE_REF_PROGRAM_DATA_SIZE, actual: bytes.len() as usize })
        } else {
            Ok(d)
        }
    }

    /// Decodes and validates one `ChangeRefProgramData` payload.
    pub fn new(bytes: &[u8]) -> (r: Result<ChangeRefProgramData, DeriverseErrorKind>)
        ensures
            r == Self::spec_new(bytes@),
    {
        if bytes.len() != CHANGE_REF_PROGRAM_DATA_SIZE {
            return Err(DeriverseErrorKind::InvalidDataLength { expected: CHANGE_REF_PROGRAM_DATA_SIZE, actual: bytes.len() });
        }
        let d = Self::read_at(bytes, 0);
        Ok(d)
    }
}

/// Buy Market Seat Data, used by the `buy_market_seat` instruction
/// (tag 47).
#[derive(Clone, Copy, Debug, PartialEq)]
pub struct BuyMarketSeatData {
    pub tag: u8,
    pub padding_u8: u8,
    pub padding_u16: u16,
    pub instr_id: u32,
    pub edge_price: i64,
    pub amount: i64,
}

pub const BUY_MARKET_SEAT_DATA_SIZE: usize = 24;

impl BuyMarketSeatData {
    /// The `BuyMarketSeatData` image that starts at byte offset `off` of a buffer.
    pub open spec fn wire_at(b: Seq<u8>, off: int) -> BuyMarketSeatData {
        BuyMarketSeatData {
            tag: b[off],
            padding_u8: b[off + 1],
            padding_u16: spec_u16_from_le_bytes(b.subrange(off + 2, off + 4)),
            instr_id: spec_u32_from_le_bytes(b.subrange(off + 4, off + 8)),
            edge_price: spec_i64_from_le_bytes(b.subrange(off + 8, off + 16)),
            amount: spec_i64_from_le_bytes(b.subrange(off + 16, off + 24)),
        }
    }

    pub fn read_at(b: &[u8], off: usize) -> (r: BuyMarketSeatData)
        requires
            off + BUY_MARKET_SEAT_DATA_SIZE <= b@.len(),
        ensures
            r == Self::wire_at(b@, off as int),
    {
        let n = b.len();
        assert(off + 24 <= n);
        BuyMarketSeatData {
            tag: read_u8(b, off),
            padding_u8: read_u8(b, off + 1),
            padding_u16: read_u16(b, off + 2),
            instr_id: read_u32(b, off + 4),
            edge_price: read_i64(b, off + 8),
            amount: read_i64(b, off + 16),
        }
    }

    pub fn write(&self, out: &mut Vec<u8>)
        ensures
            final(out)@.len() == old(out)@.len() + BUY_MARKET_SEAT_DATA_SIZE,
            final(out)@.subrange(0, old(out)@.len() as int) == old(out)@,
            Self::wire_at(final(out)@, old(out)@.len() as int) == *self,
    {
        let ghost base = out@;
        put_u8(out, self.tag);
        put_u8(out, self.padding_u8);
        put_u16(out, self.padding_u16);
        put_u32(out, self.instr_id);
        put_i64(out, self.edge_price);
        put_i64(out, self.amount);
        proof {
            lemma_auto_spec_u16_to_from_le_bytes();
            lemma_auto_spec_u32_to_from_le_bytes();
            lemma_auto_spec_u64_to_from_le_bytes();
            lemma_auto_spec_i64_to_from_le_bytes();
            assert(out@ == base + seq![self.tag] + seq![self.padding_u8] + spec_u16_to_le_bytes(self.padding_u16) + spec_u32_to_le_bytes(self.instr_id) + spec_i64_to_le_bytes(self.edge_price) + spec_i64_to_le_bytes(self.amount));
            assert(out@[base.len() as int] == self.tag);
            assert(out@[base.len() as int + 1] == self.padding_u8);
            assert(out@.subrange(base.len() as int + 2, base.len() as int + 4) =~= spec_u16_to_le_bytes(self.padding_u16));
            assert(out@.subrange(base.len() as int + 4, base.len() as int + 8) =~= spec_u32_to_le_bytes(self.instr_id));
            assert(out@.subrange(base.len() as int + 8, base.len() as int + 16) =~= spec_i64_to_le_bytes(self.edge_price));
            assert(out@.subrange(base.len() as int + 16, base.len() as int + 24) =~= spec_i64_to_le_bytes(self.amount));
            assert(out@.subrange(0, base.len() as int) =~= base);
            assert(Self::wire_at(out@, base.len() as int) == *self);
        }
    }

    pub fn encode(&self) -> (r: Vec<u8>)
        ensures
            r@.len() == BUY_MARKET_SEAT_DATA_SIZE,
            Self::wire_at(r@, 0) == *self,
    {
        let mut out: Vec<u8> = Vec::new();
        self.write(&mut out);
        out
    }

    /// What validating a `BuyMarketSeatData` payload returns: the decoded value
    /// when the payload has the right length and every range check holds
    /// of the decoded fields, else the error of the first check that
    /// fails.
    pub open spec fn spec_new(bytes: Seq<u8>, instr_count: u32) -> Result<BuyMarketSeatData, DeriverseErrorKind> {
        let d = Self::wire_at(bytes, 0);
        if bytes.len() != BUY_MARKET_SEAT_DATA_SIZE {
            Err(DeriverseErrorKind::InvalidDataLength { expected: BUY_MARKET_SEAT_DATA_SIZE, actual: bytes.len() as usize })
        } else if !(d.instr_id < instr_count) {
            Err(DeriverseErrorKind::InvalidInstrId { id: d.instr_id })
        } else if !(0 <= d.edge_price && d.edge_price < MAX_PRICE) {
            Err(DeriverseErrorKind::InvalidPrice { price: d.edge_price, min_price: 0, max_price: MAX_PRICE })
        } else if !(1 <= d.amount && d.amount < SPOT_MAX_AMOUNT) {
            Err(DeriverseErrorKind::InvalidQuantity { value: d.amount, min_value: 1, max_value: SPOT_MAX_AMOUNT })
        } else {
            Ok(d)
        }
    }

    /// Decodes and validates one `BuyMarketSeatData` payload.
    pub fn new(bytes: &[u8], instr_count: u32) -> (r: Result<BuyMarketSeatData, DeriverseErrorKind>)
        ensures
            r == Self::spec_new(bytes@, instr_count),
    {
        if bytes.len() != BUY_MARKET_SEAT_DATA_SIZE {
            return Err(DeriverseErrorKind::InvalidDataLength { expected: BUY_MARKET_SEAT_DATA_SIZE, actual: bytes.len() });
        }
        let d = Self::read_at(bytes, 0);
        if !(d.instr_id < instr_count) {
            return Err(DeriverseErrorKind::InvalidInstrId { id: d.instr_id });
        }
        if !(0 <= d.edge_price && d.edge_price < MAX_PRICE) {
            return Err(DeriverseErrorKind::InvalidPrice { price: d.edge_price, min_price: 0, max_price: MAX_PRICE });
        }
        if !(1 <= d.amount && d.amount < SPOT_MAX_AMOUNT) {
            return Err(DeriverseErrorKind::InvalidQuantity { value: d.amount, min_value: 1, max_value: SPOT_MAX_AMOUNT });
        }
        Ok(d)
    }
}

/// Sell Market Seat Data, used by the `sell_market_seat` instruction
/// (tag 48).
#[derive(Clone, Copy, Debug, PartialEq)]
pub struct SellMarketSeatData {
    pub tag: u8,
    pub padding_u8: u8,
    pub padding_u16: u16,
    pub instr_id: u32,
    pub edge_price: i64,
}

pub const SELL_MARKET_SEAT_DATA_SIZE: usize = 16;

impl SellMarketSeatData {
    /// The `SellMarketSeatData` image that starts at byte offset `off` of a buffer.
    pub open spec fn wire_at(b: Seq<u8>, off: int) -> SellMarketSeatData {
        SellMarketSeatData {
            tag: b[off],
            padding_u8: b[off + 1],
            padding_u16: spec_u16_from_le_bytes(b.subrange(off + 2, off + 4)),
            instr_id: spec_u32_from_le_bytes(b.subrange(off + 4, off + 8)),
            edge_price: spec_i64_from_le_bytes(b.subrange(off + 8, off + 16)),
        }
    }

    pub fn read_at(b: &[u8], off: usize) -> (r: SellMarketSeatData)
        requires
            off + SELL_MARKET_SEAT_DATA_SIZE <= b@.len(),
        ensures
            r == Self::wire_at(b@, off as int),
    {
        let n = b.len();
        assert(off + 16 <= n);
        SellMarketSeatData {
            tag: read_u8(b, off),
            padding_u8: read_u8(b, off + 1),
            padding_u16: read_u16(b, off + 2),
            instr_id: read_u32(b, off + 4),
            edge_price: read_i64(b, off + 8),
        }
    }

    pub fn write(&self, out: &mut Vec<u8>)
        ensures
            final(out)@.len() == old(out)@.len() + SELL_MARKET_SEAT_DATA_SIZE,
            final(out)@.subrange(0, old(out)@.len() as int) == old(out)@,
            Self::wire_at(final(out)@, old(out)@.len() as int) == *self,
    {
        let ghost base = out@;
        put_u8(out, self.tag);
        put_u8(out, self.padding_u8);
        put_u16(out, self.padding_u16);
        put_u32(out, self.instr_id);
        put_i64(out, self.edge_price);
        proof {
            lemma_auto_spec_u16_to_from_le_bytes();
            lemma_auto_spec_u32_to_from_le_bytes();
            lemma_auto_spec_u64_to_from_le_bytes();
            lemma_auto_spec_i64_to_from_le_bytes();
            assert(out@ == base + seq![self.tag] + seq![self.padding_u8] + spec_u16_to_le_bytes(self.padding_u16) + spec_u32_to_le_bytes(self.instr_id) + spec_i64_to_le_bytes(self.edge_price));
            assert(out@[base.len() as int] == self.tag);
            assert(out@[base.len() as int + 1] == self.padding_u8);
            assert(out@.subrange(base.len() as int + 2, base.len() as int + 4) =~= spec_u16_to_le_bytes(self.padding_u16));
            assert(out@.subrange(base.len() as int + 4, base.len() as int + 8) =~= spec_u32_to_le_bytes(self.instr_id));
            assert(out@.subrange(base.len() as int + 8, base.len() as int + 16) =~= spec_i64_to_le_bytes(self.edge_price));
            assert(out@.subrange(0, base.len() as int) =~= base);
            assert(Self::wire_at(out@, base.len() as int) == *self);
        }
    }

    pub fn encode(&self) -> (r: Vec<u8>)
        ensures
            r@.len() == SELL_MARKET_SEAT_DATA_SIZE,
            Self::wire_at(r@, 0) == *self,
    {
        let mut out: Vec<u8> = Vec::new();
        self.write(&mut out);
        out
    }

    /// What validating a `SellMarketSeatData` payload returns: the decoded value
    /// when the payload has the right length and every range check holds
    /// of the decoded fields, else the error of the first check that
    /// fails.
    pub open spec fn spec_new(bytes: Seq<u8>, instr_count: u32) -> Result<SellMarketSeatData, DeriverseErrorKind> {
        let d = Self::wire_at(bytes, 0);
        if bytes.len() != SELL_MARKET_SEAT_DATA_SIZE {
            Err(DeriverseErrorKind::InvalidDataLength { expected: SELL_MARKET_SEAT_DATA_SIZE, actual: bytes.len() as usize })
        } else if !(d.instr_id < instr_count) {
            Err(DeriverseErrorKind::InvalidInstrId { id: d.instr_id })
        } else if !(0 <= d.edge_price && d.edge_price < MAX_PRICE) {
            Err(DeriverseErrorKind::InvalidPrice { price: d.edge_price, min_price: 0, max_price: MAX_PRICE })
        } else {
            Ok(d)
        }
    }

    /// Decodes and validates one `SellMarketSeatData` payload.
    pub fn new(bytes: &[u8], instr_count: u32) -> (r: Result<SellMarketSeatData, DeriverseErrorKind>)
        ensures
            r == Self::spec_new(bytes@, instr_count),
    {
        if bytes.len() != SELL_MARKET_SEAT_DATA_SIZE {
            return Err(DeriverseErrorKind::InvalidDataLength { expected: SELL_MARKET_SEAT_DATA_SIZE, actual: bytes.len() });
        }
        let d = Self::read_at(bytes, 0);
        if !(d.instr_id < instr_count) {
            return Err(DeriverseErrorKind::InvalidInstrId { id: d.instr_id });
        }
        if !(0 <= d.edge_price && d.edge_price < MAX_PRICE) {
            return Err(DeriverseErrorKind::InvalidPrice { price: d.edge_price, min_price: 0, max_price: MAX_PRICE });
        }
        Ok(d)
    }
}

/// New Private Client, used by the `new_private_client` instruction
/// (tag 49).
#[derive(Clone, Copy, Debug, PartialEq)]
pub struct NewPrivateClient {
    pub tag: u8,
    pub padding_u8: u8,
    pub padding_u16: u16,
    pub expiration_time: u32,
}

pub const NEW_PRIVATE_CLIENT_SIZE: usize = 8;

impl NewPrivateClient {
    /// The `NewPrivateClient` image that starts at byte offset `off` of a buffer.
    pub open spec fn wire_at(b: Seq<u8>, off: int) -> NewPrivateClient {
        NewPrivateClient {
            tag: b[off],
            padding_u8: b[off + 1],
            padding_u16: spec_u16_from_le_bytes(b.subrange(off + 2, off + 4)),
            expiration_time: spec_u32_from_le_bytes(b.subrange(off + 4, off + 8)),
        }
    }

    pub fn read_at(b: &[u8], off: usize) -> (r: NewPrivateClient)
        requires
            off + NEW_PRIVATE_CLIENT_SIZE <= b@.len(),
        ensures
            r == Self::wire_at(b@, off as int),
    {
        let n = b.len();
        assert(off + 8 <= n);
        NewPrivateClient {
            tag: read_u8(b, off),
            padding_u8: read_u8(b, off + 1),
            padding_u16: read_u16(b, off + 2),
            expiration_time: read_u32(b, off + 4),
        }
    }

    pub fn write(&self, out: &mut Vec<u8>)
        ensures
            final(out)@.len() == old(out)@.len() + NEW_PRIVATE_CLIENT_SIZE,
            final(out)@.subrange(0, old(out)@.len() as int) == old(out)@,
            Self::wire_at(final(out)@, old(out)@.len() as int) == *self,
    {
        let ghost base = out@;
        put_u8(out, self.tag);
        put_u8(out, self.padding_u8);
        put_u16(out, self.padding_u16);
        put_u32(out, self.expiration_time);
        proof {
            lemma_auto_spec_u16_to_from_le_bytes();
            lemma_auto_spec_u32_to_from_le_bytes();
            lemma_auto_spec_u64_to_from_le_bytes();
            lemma_auto_spec_i64_to_from_le_bytes();
            assert(out@ == base + seq![self.tag] + seq![self.padding_u8] + spec_u16_to_le_bytes(self.padding_u16) + spec_u32_to_le_bytes(self.expiration_time));
            assert(out@[base.len() as int] == self.tag);
            assert(out@[base.len() as int + 1] == self.padding_u8);
            assert(out@.subrange(base.len() as int + 2, base.len() as int + 4) =~= spec_u16_to_le_bytes(self.padding_u16));
            assert(out@.subrange(base.len() as int + 4, base.len() as int + 8) =~= spec_u32_to_le_bytes(self.expiration_time));
            assert(out@.subrange(0, base.len() as int) =~= base);
            assert(Self::wire_at(out@, base.len() as int) == *self);
        }
    }

    pub fn encode(&self) -> (r: Vec<u8>)
        ensures
            r@.len() == NEW_PRIVATE_CLIENT_SIZE,
            Self::wire_at(r@, 0) == *self,
    {
        let mut out: Vec<u8> = Vec::new();
        self.write(&mut out);
        out
    }

    /// What validating a `NewPrivateClient` payload returns: the decoded value
    /// when the payload has the right length and every range check holds
    /// of the decoded fields, else the error of the first check that
    /// fails.
    pub open spec fn spec_new(bytes: Seq<u8>) -> Result<NewPrivateClient, DeriverseErrorKind> {
        let d = Self::wire_at(bytes, 0);
        if bytes.len() != NEW_PRIVATE_CLIENT_SIZE {
            Err(DeriverseErrorKind::InvalidDataLength { expected: NEW_PRIVATE_CLIENT_SIZE, actual: bytes.len() as usize })
        } else {
            Ok(d)
        }
    }

    /// Decodes and validates one `NewPrivateClient` payload.
    pub fn new(bytes: &[u8]) -> (r: Result<NewPrivateClient, DeriverseErrorKind>)
        ensures
            r == Self::spec_new(bytes@),
    {
        if bytes.len() != NEW_PRIVATE_CLIENT_SIZE {
            return Err(DeriverseErrorKind::InvalidDataLength { expected: NEW_PRIVATE_CLIENT_SIZE, actual: bytes.len() });
        }
        let d = Self::read_at(bytes, 0);
        Ok(d)
    }
}

/// Points Program Expiration, used by the
/// `change_points_program_expiration` instruction (tag 51).
#[derive(Clone, Copy, Debug, PartialEq)]
pub struct PointsProgramExpiration {
    pub tag: u8,
    pub padding_u8: u8,
    pub padding_u16: u16,
    pub new_expiration_time: u32,
}

pub const POINTS_PROGRAM_EXPIRATION_SIZE: usize = 8;

impl PointsProgramExpiration {
    /// The `PointsProgramExpiration` image that starts at byte offset `off` of a buffer.
    pub open spec fn wire_at(b: Seq<u8>, off: int) -> PointsProgramExpiration {
        PointsProgramExpiration {
            tag: b[off],
            padding_u8: b[off + 1],
            padding_u16: spec_u16_from_le_bytes(b.subrange(off + 2, off + 4)),
            new_expiration_time: spec_u32_from_le_bytes(b.subrange(off + 4, off + 8)),
        }
    }

    pub fn read_at(b: &[u8], off: usize) -> (r: PointsProgramExpiration)
        requires
            off + POINTS_PROGRAM_EXPIRATION_SIZE <= b@.len(),
        ensures
            r == Self::wire_at(b@, off as int),
    {
        let n = b.len();
        assert(off + 8 <= n);
        PointsProgramExpiration {
            tag: read_u8(b, off),
            padding_u8: read_u8(b, off + 1),
            padding_u16: read_u16(b, off + 2),
            new_expiration_time: read_u32(b, off + 4),
        }
    }

    pub fn write(&self, out: &mut Vec<u8>)
        ensures
            final(out)@.len() == old(out)@.len() + POINTS_PROGRAM_EXPIRATION_SIZE,
            final(out)@.subrange(0, old(out)@.len() as int) == old(out)@,
            Self::wire_at(final(out)@, old(out)@.len() as int) == *self,
    {
        let ghost base = out@;
        put_u8(out, self.tag);
        put_u8(out, self.padding_u8);
        put_u16(out, self.padding_u16);
        put_u32(out, self.new_expiration_time);
        proof {
            lemma_auto_spec_u16_to_from_le_bytes();
            lemma_auto_spec_u32_to_from_le_bytes();
            lemma_auto_spec_u64_to_from_le_bytes();
            lemma_auto_spec_i64_to_from_le_bytes();
            assert(out@ == base + seq![self.tag] + seq![self.padding_u8] + spec_u16_to_le_bytes(self.padding_u16) + spec_u32_to_le_bytes(self.new_expiration_time));
            assert(out@[base.len() as int] == self.tag);
            assert(out@[base.len() as int + 1] == self.padding_u8);
            assert(out@.subrange(base.len() as int + 2, base.len() as int + 4) =~= spec_u16_to_le_bytes(self.padding_u16));
            assert(out@.subrange(base.len() as int + 4, base.len() as int + 8) =~= spec_u32_to_le_bytes(self.new_expiration_time));
            assert(out@.subrange(0, base.len() as int) =~= base);
            assert(Self::wire_at(out@, base.len() as int) == *self);
        }
    }

    pub fn encode(&self) -> (r: Vec<u8>)
        ensures
            r@.len() == POINTS_PROGRAM_EXPIRATION_SIZE,
            Self::wire_at(r@, 0) == *self,
    {
        let mut out: Vec<u8> = Vec::new();
        self.write(&mut out);
        out
    }

    /// What validating a `PointsProgramExpiration` payload returns: the decoded value
    /// when the payload has the right length and every range check holds
    /// of the decoded fields, else the error of the first check that
    /// fails.
    pub open spec fn spec_new(bytes: Seq<u8>) -> Result<PointsProgramExpiration, DeriverseErrorKind> {
        let d = Self::wire_at(bytes, 0);
        if bytes.len() != POINTS_PROGRAM_EXPIRATION_SIZE {
            Err(DeriverseErrorKind::InvalidDataLength { expected: POINTS_PROGRAM_EXPIRATION_SIZE, actual: bytes.len() as usize })
        } else {
            Ok(d)
        }
    }

    /// Decodes and validates one `PointsProgramExpiration` payload.
    pub fn new(bytes: &[u8]) -> (r: Result<PointsProgramExpiration, DeriverseErrorKind>)
        ensures
            r == Self::spec_new(bytes@),
    {
        if bytes.len() != POINTS_PROGRAM_EXPIRATION_SIZE {
            return Err(DeriverseErrorKind::InvalidDataLength { expected: POINTS_PROGRAM_EXPIRATION_SIZE, actual: bytes.len() });
        }
        let d = Self::read_at(bytes, 0);
        Ok(d)
    }
}

/// Set Variance Data, used by the `set_variance` instruction (tag 54).
/// The variance is a binary64 value carried as its raw bit pattern.
#[derive(Clone, Copy, Debug, PartialEq)]
pub struct SetVarianceData {
    pub tag: u8,
    pub padding_u8: u8,
    pub padding_u16: u16,
    pub instr_id: InstrId,
    pub variance: u64,
}

pub const SET_VARIANCE_DATA_SIZE: usize = 16;

impl SetVarianceData {
    /// The `SetVarianceData` image that starts at byte offset `off` of a buffer.
    pub open spec fn wire_at(b: Seq<u8>, off: int) -> SetVarianceData {
        SetVarianceData {
            tag: b[off],
            padding_u8: b[off + 1],
            padding_u16: spec_u16_from_le_bytes(b.subrange(off + 2, off + 4)),
            instr_id: InstrId(spec_u32_from_le_bytes(b.subrange(off + 4, off + 8))),
            variance: spec_u64_from_le_bytes(b.subrange(off + 8, off + 16)),
        }
    }

    pub fn read_at(b: &[u8], off: usize) -> (r: SetVarianceData)
        requires
            off + SET_VARIANCE_DATA_SIZE <= b@.len(),
        ensures
            r == Self::wire_at(b@, off as int),
    {
        let n = b.len();
        assert(off + 16 <= n);
        SetVarianceData {
            tag: read_u8(b, off),
            padding_u8: read_u8(b, off + 1),
            padding_u16: read_u16(b, off + 2),
            instr_id: InstrId(read_u32(b, off + 4)),
            variance: read_u64(b, off + 8),
        }
    }

    pub fn write(&self, out: &mut Vec<u8>)
        ensures
            final(out)@.len() == old(out)@.len() + SET_VARIANCE_DATA_SIZE,
            final(out)@.subrange(0, old(out)@.len() as int) == old(out)@,
            Self::wire_at(final(out)@, old(out)@.len() as int) == *self,
    {
        let ghost base = out@;
        put_u8(out, self.tag);
        put_u8(out, self.padding_u8);
        put_u16(out, self.padding_u16);
        put_u32(out, self.instr_id.0);
        put_u64(out, self.variance);
        proof {
            lemma_auto_spec_u16_to_from_le_bytes();
            lemma_auto_spec_u32_to_from_le_bytes();
            lemma_auto_spec_u64_to_from_le_bytes();
            lemma_auto_spec_i64_to_from_le_bytes();
            assert(out@ == base + seq![self.tag] + seq![self.padding_u8] + spec_u16_to_le_bytes(self.padding_u16) + spec_u32_to_le_bytes(self.instr_id.0) + spec_u64_to_le_bytes(self.variance));
            assert(out@[base.len() as int] == self.tag);
            assert(out@[base.len() as int + 1] == self.padding_u8);
            assert(out@.subrange(base.len() as int + 2, base.len() as int + 4) =~= spec_u16_to_le_bytes(self.padding_u16));
            assert(out@.subrange(base.len() as int + 4, base.len() as int + 8) =~= spec_u32_to_le_bytes(self.instr_id.0));
            assert(out@.subrange(base.len() as int + 8, base.len() as int + 16) =~= spec_u64_to_le_bytes(self.variance));
            assert(out@.subrange(0, base.len() as int) =~= base);
            assert(Self::wire_at(out@, base.len() as int) == *self);
        }
    }

    pub fn encode(&self) -> (r: Vec<u8>)
        ensures
            r@.len() == SET_VARIANCE_DATA_SIZE,
            Self::wire_at(r@, 0) == *self,
    {
        let mut out: Vec<u8> = Vec::new();
        self.write(&mut out);
        out
    }

    /// What validating a `SetVarianceData` payload returns: the decoded value
    /// when the payload has the right length and every range check holds
    /// of the decoded fields, else the error of the first check that
    /// fails.
    pub open spec fn spec_new(bytes: Seq<u8>, instr_count: u32) -> Result<SetVarianceData, DeriverseErrorKind> {
        let d = Self::wire_at(bytes, 0);
        if bytes.len() != SET_VARIANCE_DATA_SIZE {
            Err(DeriverseErrorKind::InvalidDataLength { expected: SET_VARIANCE_DATA_SIZE, actual: bytes.len() as usize })
        } else if !(d.instr_id.0 < instr_count) {
            Err(DeriverseErrorKind::InvalidInstrId { id: d.instr_id.0 })
        } else {
            Ok(d)
        }
    }

    /// Decodes and validates one `SetVarianceData` payload.
    pub fn new(bytes: &[u8], instr_count: u32) -> (r: Result<SetVarianceData, DeriverseErrorKind>)
        ensures
            r == Self::spec_new(bytes@, instr_count),
    {
        if bytes.len() != SET_VARIANCE_DATA_SIZE {
            return Err(DeriverseErrorKind::InvalidDataLength { expected: SET_VARIANCE_DATA_SIZE, actual: bytes.len() });
        }
        let d = Self::read_at(bytes, 0);
        if !(d.instr_id.0 < instr_count) {
            return Err(DeriverseErrorKind::InvalidInstrId { id: d.instr_id.0 });
        }
        Ok(d)
    }
}

/// Change Denominator Data, used by the `change_denominator` instruction
/// (tag 56).  The denominator is a binary64 parameter carried as its raw
/// bit pattern.
#[derive(Clone, Copy, Debug, PartialEq)]
pub struct ChangeDenominatorData {
    pub tag: u8,
    pub padding_u8: u8,
    pub padding_u16: u16,
    pub base_crncy_id: u32,
    pub denominator: u64,
}

pub const CHANGE_DENOMINATOR_DATA_SIZE: usize = 16;

impl ChangeDenominatorData {
    /// The `ChangeDenominatorData` image that starts at byte offset `off` of a buffer.
    pub open spec fn wire_at(b: Seq<u8>, off: int) -> ChangeDenominatorData {
        ChangeDenominatorData {
            tag: b[off],
            padding_u8: b[off + 1],
            padding_u16: spec_u16_from_le_bytes(b.subrange(off + 2, off + 4)),
            base_crncy_id: spec_u32_from_le_bytes(b.subrange(off + 4, off + 8)),
            denominator: spec_u64_from_le_bytes(b.subrange(off + 8, off + 16)),
        }
    }

    pub fn read_at(b: &[u8], off: usize) -> (r: ChangeDenominatorData)
        requires
            off + CHANGE_DENOMINATOR_DATA_SIZE <= b@.len(),
        ensures
            r == Self::wire_at(b@, off as int),
    {
        let n = b.len();
        assert(off + 16 <= n);
        ChangeDenominatorData {
            tag: read_u8(b, off),
            padding_u8: read_u8(b, off + 1),
            padding_u16: read_u16(b, off + 2),
            base_crncy_id: read_u32(b, off + 4),
            denominator: read_u64(b, off + 8),
        }
    }

    pub fn write(&self, out: &mut Vec<u8>)
        ensures
            final(out)@.len() == old(out)@.len() + CHANGE_DENOMINATOR_DATA_SIZE,
            final(out)@.subrange(0, old(out)@.len() as int) == old(out)@,
            Self::wire_at(final(out)@, old(out)@.len() as int) == *self,
    {
        let ghost base = out@;
        put_u8(out, self.tag);
        put_u8(out, self.padding_u8);
        put_u16(out, self.padding_u16);
        put_u32(out, self.base_crncy_id);
        put_u64(out, self.denominator);
        proof {
            lemma_auto_spec_u16_to_from_le_bytes();
            lemma_auto_spec_u32_to_from_le_bytes();
            lemma_auto_spec_u64_to_from_le_bytes();
            lemma_auto_spec_i64_to_from_le_bytes();
            assert(out@ == base + seq![self.tag] + seq![self.padding_u8] + spec_u16_to_le_bytes(self.padding_u16) + spec_u32_to_le_bytes(self.base_crncy_id) + spec_u64_to_le_bytes(self.denominator));
            assert(out@[base.len() as int] == self.tag);
            assert(out@[base.len() as int + 1] == self.padding_u8);
            assert(out@.subrange(base.len() as int + 2, base.len() as int + 4) =~= spec_u16_to_le_bytes(self.padding_u16));
            assert(out@.subrange(base.len() as int + 4, base.len() as int + 8) =~= spec_u32_to_le_bytes(self.base_crncy_id));
            assert(out@.subrange(base.len() as int + 8, base.len() as int + 16) =~= spec_u64_to_le_bytes(self.denominator));
            assert(out@.subrange(0, base.len() as int) =~= base);
            assert(Self::wire_at(out@, base.len() as int) == *self);
        }
    }

    pub fn encode(&self) -> (r: Vec<u8>)
        ensures
            r@.len() == CHANGE_DENOMINATOR_DATA_SIZE,
            Self::wire_at(r@, 0) == *self,
    {
        let mut out: Vec<u8> = Vec::new();
        self.write(&mut out);
        out
    }

    /// What validating a `ChangeDenominatorData` payload returns: the decoded value
    /// when the payload has the right length and every range check holds
    /// of the decoded fields, else the error of the first check that
    /// fails.
    pub open spec fn spec_new(bytes: Seq<u8>, tokens_count: u32) -> Result<ChangeDenominatorData, DeriverseErrorKind> {
        let d = Self::wire_at(bytes, 0);
        if bytes.len() != CHANGE_DENOMINATOR_DATA_SIZE {
            Err(DeriverseErrorKind::InvalidDataLength { expected: CHANGE_DENOMINATOR_DATA_SIZE, actual: bytes.len() as usize })
        } else if !(d.base_crncy_id < tokens_count) {
            Err(DeriverseErrorKind::InvalidTokenId { id: d.base_crncy_id })
        } else {
            Ok(d)
        }
    }

    /// Decodes and validates one `ChangeDenominatorData` payload.
    pub fn new(bytes: &[u8], tokens_count: u32) -> (r: Result<ChangeDenominatorData, DeriverseErrorKind>)
        ensures
            r == Self::spec_new(bytes@, tokens_count),
    {
        if bytes.len() != CHANGE_DENOMINATOR_DATA_SIZE {
            return Err(DeriverseErrorKind::InvalidDataLength { expected: CHANGE_DENOMINATOR_DATA_SIZE, actual: bytes.len() });
        }
        let d = Self::read_at(bytes, 0);
        if !(d.base_crncy_id < tokens_count) {
            return Err(DeriverseErrorKind::InvalidTokenId { id: d.base_crncy_id });
        }
        Ok(d)
    }
}

/// New Base Crncy Data, used by the `new_base_crncy` instruction (tag 4).
#[derive(Clone, Copy, Debug, PartialEq)]
pub struct NewBaseCrncyData {
    pub tag: u8,
    pub padding_u8: u8,
    pub padding_u16: u16,
    pub padding_u32: u32,
    pub denominator: u64,
}

pub const NEW_BASE_CRNCY_DATA_SIZE: usize = 16;

impl NewBaseCrncyData {
    /// The `NewBaseCrncyData` image that starts at byte offset `off` of a buffer.
    pub open spec fn wire_at(b: Seq<u8>, off: int) -> NewBaseCrncyData {
        NewBaseCrncyData {
            tag: b[off],
            padding_u8: b[off + 1],
            padding_u16: spec_u16_from_le_bytes(b.subrange(off + 2, off + 4)),
            padding_u32: spec_u32_from_le_bytes(b.subrange(off + 4, off + 8)),
            denominator: spec_u64_from_le_bytes(b.subrange(off + 8, off + 16)),
        }
    }

    pub fn read_at(b: &[u8], off: usize) -> (r: NewBaseCrncyData)
        requires
            off + NEW_BASE_CRNCY_DATA_SIZE <= b@.len(),
        ensures
            r == Self::wire_at(b@, off as int),
    {
        let n = b.len();
        assert(off + 16 <= n);
        NewBaseCrncyData {
            tag: read_u8(b, off),
            padding_u8: read_u8(b, off + 1),
            padding_u16: read_u16(b, off + 2),
            padding_u32: read_u32(b, off + 4),
            denominator: read_u64(b, off + 8),
        }
    }

    pub fn write(&self, out: &mut Vec<u8>)
        ensures
            final(out)@.len() == old(out)@.len() + NEW_BASE_CRNCY_DATA_SIZE,
            final(out)@.subrange(0, old(out)@.len() as int) == old(out)@,
            Self::wire_at(final(out)@, old(out)@.len() as int) == *self,
    {
        let ghost base = out@;
        put_u8(out, self.tag);
        put_u8(out, self.padding_u8);
        put_u16(out, self.padding_u16);
        put_u32(out, self.padding_u32);
        put_u64(out, self.denominator);
        proof {
            lemma_auto_spec_u16_to_from_le_bytes();
            lemma_auto_spec_u32_to_from_le_bytes();
            lemma_auto_spec_u64_to_from_le_bytes();
            lemma_auto_spec_i64_to_from_le_bytes();
            assert(out@ == base + seq![self.tag] + seq![self.padding_u8] + spec_u16_to_le_bytes(self.padding_u16) + spec_u32_to_le_bytes(self.padding_u32) + spec_u64_to_le_bytes(self.denominator));
            assert(out@[base.len() as int] == self.tag);
            assert(out@[base.len() as int + 1] == self.padding_u8);
            assert(out@.subrange(base.len() as int + 2, base.len() as int + 4) =~= spec_u16_to_le_bytes(self.padding_u16));
            assert(out@.subrange(base.len() as int + 4, base.len() as int + 8) =~= spec_u32_to_le_bytes(self.padding_u32));
            assert(out@.subrange(base.len() as int + 8, base.len() as int + 16) =~= spec_u64_to_le_bytes(self.denominator));
            assert(out@.subrange(0, base.len() as int) =~= base);
            assert(Self::wire_at(out@, base.len() as int) == *self);
        }
    }

    pub fn encode(&self) -> (r: Vec<u8>)
        ensures
            r@.len() == NEW_BASE_CRNCY_DATA_SIZE,
            Self::wire_at(r@, 0) == *self,
    {
        let mut out: Vec<u8> = Vec::new();
        self.write(&mut out);
        out
    }

    /// What validating a `NewBaseCrncyData` payload returns: the decoded value
    /// when the payload has the right length and every range check holds
    /// of the decoded fields, else the error of the first check that
    /// fails.
    pub open spec fn spec_new(bytes: Seq<u8>) -> Result<NewBaseCrncyData, DeriverseErrorKind> {
        let d = Self::wire_at(bytes, 0);
        if bytes.len() != NEW_BASE_CRNCY_DATA_SIZE {
            Err(DeriverseErrorKind::InvalidDataLength { expected: NEW_BASE_CRNCY_DATA_SIZE, actual: bytes.len() as usize })
        } else {
            Ok(d)
        }
    }

    /// Decodes and validates one `NewBaseCrncyData` payload.
    pub fn new(bytes: &[u8]) -> (r: Result<NewBaseCrncyData, DeriverseErrorKind>)
        ensures
            r == Self::spec_new(bytes@),
    {
        if bytes.len() != NEW_BASE_CRNCY_DATA_SIZE {
            return Err(DeriverseErrorKind::InvalidDataLength { expected: NEW_BASE_CRNCY_DATA_SIZE, actual: bytes.len() });
        }
        let d = Self::read_at(bytes, 0);
        Ok(d)
    }
}

/// Perp Clients Processing Data, used by the `perp_clients_processing`
/// instruction (tag 57).
#[derive(Clone, Copy, Debug, PartialEq)]
pub struct PerpClientsProcessingData {
    pub tag: u8,
    pub padding_u8: u8,
    pub padding_u16: u16,
    pub instr_id: u32,
}

pub const PERP_CLIENTS_PROCESSING_DATA_SIZE: usize = 8;

impl PerpClientsProcessingData {
    /// The `PerpClientsProcessingData` image that starts at byte offset `off` of a buffer.
    pub open spec fn wire_at(b: Seq<u8>, off: int) -> PerpClientsProcessingData {
        PerpClientsProcessingData {
            tag: b[off],
            padding_u8: b[off + 1],
            padding_u16: spec_u16_from_le_bytes(b.subrange(off + 2, off + 4)),
            instr_id: spec_u32_from_le_bytes(b.subrange(off + 4, off + 8)),
        }
    }

    pub fn read_at(b: &[u8], off: usize) -> (r: PerpClientsProcessingData)
        requires
            off + PERP_CLIENTS_PROCESSING_DATA_SIZE <= b@.len(),
        ensures
            r == Self::wire_at(b@, off as int),
    {
        let n = b.len();
        assert(off + 8 <= n);
        PerpClientsProcessingData {
            tag: read_u8(b, off),
            padding_u8: read_u8(b, off + 1),
            padding_u16: read_u16(b, off + 2),
            instr_id: read_u32(b, off + 4),
        }
    }

    pub fn write(&self, out: &mut Vec<u8>)
        ensures
            final(out)@.len() == old(out)@.len() + PERP_CLIENTS_PROCESSING_DATA_SIZE,
            final(out)@.subrange(0, old(out)@.len() as int) == old(out)@,
            Self::wire_at(final(out)@, old(out)@.len() as int) == *self,
    {
        let ghost base = out@;
        put_u8(out, self.tag);
        put_u8(out, self.padding_u8);
        put_u16(out, self.padding_u16);
        put_u32(out, self.instr_id);
        proof {
            lemma_auto_spec_u16_to_from_le_bytes();
            lemma_auto_spec_u32_to_from_le_bytes();
            lemma_auto_spec_u64_to_from_le_bytes();
            lemma_auto_spec_i64_to_from_le_bytes();
            assert(out@ == base + seq![self.tag] + seq![self.padding_u8] + spec_u16_to_le_bytes(self.padding_u16) + spec_u32_to_le_bytes(self.instr_id));
            assert(out@[base.len() as int] == self.tag);
            assert(out@[base.len() as int + 1] == self.padding_u8);
            assert(out@.subrange(base.len() as int + 2, base.len() as int + 4) =~= spec_u16_to_le_bytes(self.padding_u16));
            assert(out@.subrange(base.len() as int + 4, base.len() as int + 8) =~= spec_u32_to_le_bytes(self.instr_id));
            assert(out@.subrange(0, base.len() as int) =~= base);
            assert(Self::wire_at(out@, base.len() as int) == *self);
        }
    }

    pub fn encode(&self) -> (r: Vec<u8>)
        ensures
            r@.len() == PERP_CLIENTS_PROCESSING_DATA_SIZE,
            Self::wire_at(r@, 0) == *self,
    {
        let mut out: Vec<u8> = Vec::new();
        self.write(&mut out);
        out
    }

    /// What validating a `PerpClientsProcessingData` payload returns: the decoded value
    /// when the payload has the right length and every range check holds
    /// of the decoded fields, else the error of the first check that
    /// fails.
    pub open spec fn spec_new(bytes: Seq<u8>, instr_count: u32) -> Result<PerpClientsProcessingData, DeriverseErrorKind> {
        let d = Self::wire_at(bytes, 0);
        if bytes.len() != PERP_CLIENTS_PROCESSING_DATA_SIZE {
            Err(DeriverseErrorKind::InvalidDataLength { expected: PERP_CLIENTS_PROCESSING_DATA_SIZE, actual: bytes.len() as usize })
        } else if !(d.instr_id < instr_count) {
            Err(DeriverseErrorKind::InvalidInstrId { id: d.instr_id })
        } else {
            Ok(d)
        }
    }

    /// Decodes and validates one `PerpClientsProcessingData` payload.
    pub fn new(bytes: &[u8], instr_count: u32) -> (r: Result<PerpClientsProcessingData, DeriverseErrorKind>)
        ensures
            r == Self::spec_new(bytes@, instr_count),
    {
        if bytes.len() != PERP_CLIENTS_PROCESSING_DATA_SIZE {
            return Err(DeriverseErrorKind::InvalidDataLength { expected: PERP_CLIENTS_PROCESSING_DATA_SIZE, actual: bytes.len() });
        }
        let d = Self::read_at(bytes, 0);
        if !(d.instr_id < instr_count) {
            return Err(DeriverseErrorKind::InvalidInstrId { id: d.instr_id });
        }
        Ok(d)
    }
}

/// Set Seat Purchasing Fee Data, used by the `set_seat_purchasing_fee`
/// instruction (tag 58).  The fee is a binary64 parameter carried as its
/// raw bit pattern.
#[derive(Clone, Copy, Debug, PartialEq)]
pub struct SetSeatPurchasingFeeData {
    pub tag: u8,
    pub padding_u8: u8,
    pub padding_u16: u16,
    pub padding_u32: u32,
    pub fee: u64,
}

pub const SET_SEAT_PURCHASING_FEE_DATA_SIZE: usize = 16;

impl SetSeatPurchasingFeeData {
    /// The `SetSeatPurchasingFeeData` image that starts at byte offset `off` of a buffer.
    pub open spec fn wire_at(b: Seq<u8>, off: int) -> SetSeatPurchasingFeeData {
        SetSeatPurchasingFeeData {
            tag: b[off],
            padding_u8: b[off + 1],
            padding_u16: spec_u16_from_le_bytes(b.subrange(off + 2, off + 4)),
            padding_u32: spec_u32_from_le_bytes(b.subrange(off + 4, off + 8)),
            fee: spec_u64_from_le_bytes(b.subrange(off + 8, off + 16)),
        }
    }

    pub fn read_at(b: &[u8], off: usize) -> (r: SetSeatPurchasingFeeData)
        requires
            off + SET_SEAT_PURCHASING_FEE_DATA_SIZE <= b@.len(),
        ensures
            r == Self::wire_at(b@, off as int),
    {
        let n = b.len();
        assert(off + 16 <= n);
        SetSeatPurchasingFeeData {
            tag: read_u8(b, off),
            padding_u8: read_u8(b, off + 1),
            padding_u16: read_u16(b, off + 2),
            padding_u32: read_u32(b, off + 4),
            fee: read_u64(b, off + 8),
        }
    }

    pub fn write(&self, out: &mut Vec<u8>)
        ensures
            final(out)@.len() == old(out)@.len() + SET_SEAT_PURCHASING_FEE_DATA_SIZE,
            final(out)@.subrange(0, old(out)@.len() as int) == old(out)@,
            Self::wire_at(final(out)@, old(out)@.len() as int) == *self,
    {
        let ghost base = out@;
        put_u8(out, self.tag);
        put_u8(out, self.padding_u8);
        put_u16(out, self.padding_u16);
        put_u32(out, self.padding_u32);
        put_u64(out, self.fee);
        proof {
            lemma_auto_spec_u16_to_from_le_bytes();
            lemma_auto_spec_u32_to_from_le_bytes();
            lemma_auto_spec_u64_to_from_le_bytes();
            lemma_auto_spec_i64_to_from_le_bytes();
            assert(out@ == base + seq![self.tag] + seq![self.padding_u8] + spec_u16_to_le_bytes(self.padding_u16) + spec_u32_to_le_bytes(self.padding_u32) + spec_u64_to_le_bytes(self.fee));
            assert(out@[base.len() as int] == self.tag);
            assert(out@[base.len() as int + 1] == self.padding_u8);
            assert(out@.subrange(base.len() as int + 2, base.len() as int + 4) =~= spec_u16_to_le_bytes(self.padding_u16));
            assert(out@.subrange(base.len() as int + 4, base.len() as int + 8) =~= spec_u32_to_le_bytes(self.padding_u32));
            assert(out@.subrange(base.len() as int + 8, base.len() as int + 16) =~= spec_u64_to_le_bytes(self.fee));
            assert(out@.subrange(0, base.len() as int) =~= base);
            assert(Self::wire_at(out@, base.len() as int) == *self);
        }
    }

    pub fn encode(&self) -> (r: Vec<u8>)
        ensures
            r@.len() == SET_SEAT_PURCHASING_FEE_DATA_SIZE,
            Self::wire_at(r@, 0) == *self,
    {
        let mut out: Vec<u8> = Vec::new();
        self.write(&mut out);
        out
    }

    /// What validating a `SetSeatPurchasingFeeData` payload returns: the decoded value
    /// when the payload has the right length and every range check holds
    /// of the decoded fields, else the error of the first check that
    /// fails.
    pub open spec fn spec_new(bytes: Seq<u8>) -> Result<SetSeatPurchasingFeeData, DeriverseErrorKind> {
        let d = Self::wire_at(bytes, 0);
        if bytes.len() != SET_SEAT_PURCHASING_FEE_DATA_SIZE {
            Err(DeriverseErrorKind::InvalidDataLength { expected: SET_SEAT_PURCHASING_FEE_DATA_SIZE, actual: bytes.len() as usize })
        } else {
            Ok(d)
        }
    }

    /// Decodes and validates one `SetSeatPurchasingFeeData` payload.
    pub fn new(bytes: &[u8]) -> (r: Result<SetSeatPurchasingFeeData, DeriverseErrorKind>)
        ensures
            r == Self::spec_new(bytes@),
    {
        if bytes.len() != SET_SEAT_PURCHASING_FEE_DATA_SIZE {
            return Err(DeriverseErrorKind::InvalidDataLength { expected: SET_SEAT_PURCHASING_FEE_DATA_SIZE, actual: bytes.len() });
        }
        let d = Self::read_at(bytes, 0);
        Ok(d)
    }
}

/// Change Voting Data, used by the `change_voting` instruction (tag 59).
#[derive(Clone, Copy, Debug, PartialEq)]
pub struct ChangeVotingData {
    pub tag: u8,
    pub new_choice: u8,
    pub padding_u16: u16,
    pub voting_counter: u32,
}

pub const CHANGE_VOTING_DATA_SIZE: usize = 8;

impl ChangeVotingData {
    /// The `ChangeVotingData` image that starts at byte offset `off` of a buffer.
    pub open spec fn wire_at(b: Seq<u8>, off: int) -> ChangeVotingData {
        ChangeVotingData {
            tag: b[off],
            new_choice: b[off + 1],
            padding_u16: spec_u16_from_le_bytes(b.subrange(off + 2, off + 4)),
            voting_counter: spec_u32_from_le_bytes(b.subrange(off + 4, off + 8)),
        }
    }

    pub fn read_at(b: &[u8], off: usize) -> (r: ChangeVotingData)
        requires
            off + CHANGE_VOTING_DATA_SIZE <= b@.len(),
        ensures
            r == Self::wire_at(b@, off as int),
    {
        let n = b.len();
        assert(off + 8 <= n);
        ChangeVotingData {
            tag: read_u8(b, off),
            new_choice: read_u8(b, off + 1),
            padding_u16: read_u16(b, off + 2),
            voting_counter: read_u32(b, off + 4),
        }
    }

    pub fn write(&self, out: &mut Vec<u8>)
        ensures
            final(out)@.len() == old(out)@.len() + CHANGE_VOTING_DATA_SIZE,
            final(out)@.subrange(0, old(out)@.len() as int) == old(out)@,
            Self::wire_at(final(out)@, old(out)@.len() as int) == *self,
    {
        let ghost base = out@;
        put_u8(out, self.tag);
        put_u8(out, self.new_choice);
        put_u16(out, self.padding_u16);
        put_u32(out, self.voting_counter);
        proof {
            lemma_auto_spec_u16_to_from_le_bytes();
            lemma_auto_spec_u32_to_from_le_bytes();
            lemma_auto_spec_u64_to_from_le_bytes();
            lemma_auto_spec_i64_to_from_le_bytes();
            assert(out@ == base + seq![self.tag] + seq![self.new_choice] + spec_u16_to_le_bytes(self.padding_u16) + spec_u32_to_le_bytes(self.voting_counter));
            assert(out@[base.len() as int] == self.tag);
            assert(out@[base.len() as int + 1] == self.new_choice);
            assert(out@.subrange(base.len() as int + 2, base.len() as int + 4) =~= spec_u16_to_le_bytes(self.padding_u16));
            assert(out@.subrange(base.len() as int + 4, base.len() as int + 8) =~= spec_u32_to_le_bytes(self.voting_counter));
            assert(out@.subrange(0, base.len() as int) =~= base);
            assert(Self::wire_at(out@, base.len() as int) == *self);
        }
    }

    pub fn encode(&self) -> (r: Vec<u8>)
        ensures
            r@.len() == CHANGE_VOTING_DATA_SIZE,
            Self::wire_at(r@, 0) == *self,
    {
        let mut out: Vec<u8> = Vec::new();
        self.write(&mut out);
        out
    }

    /// What validating a `ChangeVotingData` payload returns: the decoded value
    /// when the payload has the right length and every range check holds
    /// of the decoded fields, else the error of the first check that
    /// fails.
    pub open spec fn spec_new(bytes: Seq<u8>) -> Result<ChangeVotingData, DeriverseErrorKind> {
        let d = Self::wire_at(bytes, 0);
        if bytes.len() != CHANGE_VOTING_DATA_SIZE {
            Err(DeriverseErrorKind::InvalidDataLength { expected: CHANGE_VOTING_DATA_SIZE, actual: bytes.len() as usize })
        } else {
            Ok(d)
        }
    }

    /// Decodes and validates one `ChangeVotingData` payload.
    pub fn new(bytes: &[u8]) -> (r: Result<ChangeVotingData, DeriverseErrorKind>)
        ensures
            r == Self::spec_new(bytes@),
    {
        if bytes.len() != CHANGE_VOTING_DATA_SIZE {
            return Err(DeriverseErrorKind::InvalidDataLength { expected: CHANGE_VOTING_DATA_SIZE, actual: bytes.len() });
        }
        let d = Self::read_at(bytes, 0);
        Ok(d)
    }
}

/// Garbage Collector Data, used by the `garbage_collector` instruction
/// (tag 60).
#[derive(Clone, Copy, Debug, PartialEq)]
pub struct GarbageCollectorData {
    pub tag: u8,
    pub padding_u8: u8,
    pub padding_u16: u16,
    pub instr_id: u32,
}

pub const GARBAGE_COLLECTOR_DATA_SIZE: usize = 8;

impl GarbageCollectorData {
    /// The `GarbageCollectorData` image that starts at byte offset `off` of a buffer.
    pub open spec fn wire_at(b: Seq<u8>, off: int) -> GarbageCollectorData {
        GarbageCollectorData {
            tag: b[off],
            padding_u8: b[off + 1],
            padding_u16: spec_u16_from_le_bytes(b.subrange(off + 2, off + 4)),
            instr_id: spec_u32_from_le_bytes(b.subrange(off + 4, off + 8)),
        }
    }

    pub fn read_at(b: &[u8], off: usize) -> (r: GarbageCollectorData)
        requires
            off + GARBAGE_COLLECTOR_DATA_SIZE <= b@.len(),
        ensures
            r == Self::wire_at(b@, off as int),
    {
        let n = b.len();
        assert(off + 8 <= n);
        GarbageCollectorData {
            tag: read_u8(b, off),
            padding_u8: read_u8(b, off + 1),
            padding_u16: read_u16(b, off + 2),
            instr_id: read_u32(b, off + 4),
        }
    }

    pub fn write(&self, out: &mut Vec<u8>)
        ensures
            final(out)@.len() == old(out)@.len() + GARBAGE_COLLECTOR_DATA_SIZE,
            final(out)@.subrange(0, old(out)@.len() as int) == old(out)@,
            Self::wire_at(final(out)@, old(out)@.len() as int) == *self,
    {
        let ghost base = out@;
        put_u8(out, self.tag);
        put_u8(out, self.padding_u8);
        put_u16(out, self.padding_u16);
        put_u32(out, self.instr_id);
        proof {
            lemma_auto_spec_u16_to_from_le_bytes();
            lemma_auto_spec_u32_to_from_le_bytes();
            lemma_auto_spec_u64_to_from_le_bytes();
            lemma_auto_spec_i64_to_from_le_bytes();
            assert(out@ == base + seq![self.tag] + seq![self.padding_u8] + spec_u16_to_le_bytes(self.padding_u16) + spec_u32_to_le_bytes(self.instr_id));
            assert(out@[base.len() as int] == self.tag);
            assert(out@[base.len() as int + 1] == self.padding_u8);
            assert(out@.subrange(base.len() as int + 2, base.len() as int + 4) =~= spec_u16_to_le_bytes(self.padding_u16));
            assert(out@.subrange(base.len() as int + 4, base.len() as int + 8) =~= spec_u32_to_le_bytes(self.instr_id));
            assert(out@.subrange(0, base.len() as int) =~= base);
            assert(Self::wire_at(out@, base.len() as int) == *self);
        }
    }

    pub fn encode(&self) -> (r: Vec<u8>)
        ensures
            r@.len() == GARBAGE_COLLECTOR_DATA_SIZE,
            Self::wire_at(r@, 0) == *self,
    {
        let mut out: Vec<u8> = Vec::new();
        self.write(&mut out);
        out
    }

    /// What validating a `GarbageCollectorData` payload returns: the decoded value
    /// when the payload has the right length and every range check holds
    /// of the decoded fields, else the error of the first check that
    /// fails.
    pub open spec fn spec_new(bytes: Seq<u8>, instr_count: u32) -> Result<GarbageCollectorData, DeriverseErrorKind> {
        let d = Self::wire_at(bytes, 0);
        if bytes.len() != GARBAGE_COLLECTOR_DATA_SIZE {
            Err(DeriverseErrorKind::InvalidDataLength { expected: GARBAGE_COLLECTOR_DATA_SIZE, actual: bytes.len() as usize })
        } else if !(d.instr_id < instr_count) {
            Err(DeriverseErrorKind::InvalidInstrId { id: d.instr_id })
        } else {
            Ok(d)
        }
    }

    /// Decodes and validates one `GarbageCollectorData` payload.
    pub fn new(bytes: &[u8], instr_count: u32) -> (r: Result<GarbageCollectorData, DeriverseErrorKind>)
        ensures
            r == Self::spec_new(bytes@, instr_count),
    {
        if bytes.len() != GARBAGE_COLLECTOR_DATA_SIZE {
            return Err(DeriverseErrorKind::InvalidDataLength { expected: GARBAGE_COLLECTOR_DATA_SIZE, actual: bytes.len() });
        }
        let d = Self::read_at(bytes, 0);
        if !(d.instr_id < instr_count) {
            return Err(DeriverseErrorKind::InvalidInstrId { id: d.instr_id });
        }
        Ok(d)
    }
}

/// Activate Client Ref Program Data, used by the
/// `activate_client_ref_program` instruction (tag 61).
#[derive(Clone, Copy, Debug, PartialEq)]
pub struct ActivateClientRefProgramData {
    pub tag: u8,
    pub padding_u8: u8,
    pub padding_u16: u16,
    pub ref_id: u32,
}

pub const ACTIVATE_CLIENT_REF_PROGRAM_DATA_SIZE: usize = 8;

impl ActivateClientRefProgramData {
    /// The `ActivateClientRefProgramData` image that starts at byte offset `off` of a buffer.
    pub open spec fn wire_at(b: Seq<u8>, off: int) -> ActivateClientRefProgramData {
        ActivateClientRefProgramData {
            tag: b[off],
            padding_u8: b[off + 1],
            padding_u16: spec_u16_from_le_bytes(b.subrange(off + 2, off + 4)),
            ref_id: spec_u32_from_le_bytes(b.subrange(off + 4, off + 8)),
        }
    }

    pub fn read_at(b: &[u8], off: usize) -> (r: ActivateClientRefProgramData)
        requires
            off + ACTIVATE_CLIENT_REF_PROGRAM_DATA_SIZE <= b@.len(),
        ensures
            r == Self::wire_at(b@, off as int),
    {
        let n = b.len();
        assert(off + 8 <= n);
        ActivateClientRefProgramData {
            tag: read_u8(b, off),
            padding_u8: read_u8(b, off + 1),
            padding_u16: read_u16(b, off + 2),
            ref_id: read_u32(b, off + 4),
        }
    }

    pub fn write(&self, out: &mut Vec<u8>)
        ensures
            final(out)@.len() == old(out)@.len() + ACTIVATE_CLIENT_REF_PROGRAM_DATA_SIZE,
            final(out)@.subrange(0, old(out)@.len() as int) == old(out)@,
            Self::wire_at(final(out)@, old(out)@.len() as int) == *self,
    {
        let ghost base = out@;
        put_u8(out, self.tag);
        put_u8(out, self.padding_u8);
        put_u16(out, self.padding_u16);
        put_u32(out, self.ref_id);
        proof {
            lemma_auto_spec_u16_to_from_le_bytes();
            lemma_auto_spec_u32_to_from_le_bytes();
            lemma_auto_spec_u64_to_from_le_bytes();
            lemma_auto_spec_i64_to_from_le_bytes();
            assert(out@ == base + seq![self.tag] + seq![self.padding_u8] + spec_u16_to_le_bytes(self.padding_u16) + spec_u32_to_le_bytes(self.ref_id));
            assert(out@[base.len() as int] == self.tag);
            assert(out@[base.len() as int + 1] == self.padding_u8);
            assert(out@.subrange(base.len() as int + 2, base.len() as int + 4) =~= spec_u16_to_le_bytes(self.padding_u16));
            assert(out@.subrange(base.len() as int + 4, base.len() as int + 8) =~= spec_u32_to_le_bytes(self.ref_id));
            assert(out@.subrange(0, base.len() as int) =~= base);
            assert(Self::wire_at(out@, base.len() as int) == *self);
        }
    }

    pub fn encode(&self) -> (r: Vec<u8>)
        ensures
            r@.len() == ACTIVATE_CLIENT_REF_PROGRAM_DATA_SIZE,
            Self::wire_at(r@, 0) == *self,
    {
        let mut out: Vec<u8> = Vec::new();
        self.write(&mut out);
        out
    }

    /// What validating a `ActivateClientRefProgramData` payload returns: the decoded value
    /// when the payload has the right length and every range check holds
    /// of the decoded fields, else the error of the first check that
    /// fails.
    pub open spec fn spec_new(bytes: Seq<u8>) -> Result<ActivateClientRefProgramData, DeriverseErrorKind> {
        let d = Self::wire_at(bytes, 0);
        if bytes.len() != ACTIVATE_CLIENT_REF_PROGRAM_DATA_SIZE {
            Err(DeriverseErrorKind::InvalidDataLength { expected: ACTIVATE_CLIENT_REF_PROGRAM_DATA_SIZE, actual: bytes.len() as usize })
        } else {
            Ok(d)
        }
    }

    /// Decodes and validates one `ActivateClientRefProgramData` payload.
    pub fn new(bytes: &[u8]) -> (r: Result<ActivateClientRefProgramData, DeriverseErrorKind>)
        ensures
            r == Self::spec_new(bytes@),
    {
        if bytes.len() != ACTIVATE_CLIENT_REF_PROGRAM_DATA_SIZE {
            return Err(DeriverseErrorKind::InvalidDataLength { expected: ACTIVATE_CLIENT_REF_PROGRAM_DATA_SIZE, actual: bytes.len() });
        }
        let d = Self::read_at(bytes, 0);
        Ok(d)
    }
}

} // verus!
