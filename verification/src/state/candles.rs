//! Candle accounts: an OHLC aggregate per fixed time bucket, stored in a
//! fixed-capacity circular buffer per duration.  One underlying layout
//! serves the three durations; the const tag parameter keeps the
//! discriminator tag distinct per instantiation.

use vstd::bytes::*;
use vstd::prelude::*;

use crate::codec::{
    lemma_auto_spec_i64_to_from_le_bytes, lemma_subrange_of_concat_left,
    lemma_subrange_of_concat_right, put_i64, put_u16, put_u32, put_u64, put_u8, read_i64,
    read_u16, read_u32, read_u64, read_u8, spec_i64_from_le_bytes, spec_i64_to_le_bytes,
};
use crate::errors::DeriverseErrorKind;
use crate::ids::InstrId;
use crate::types::{AccountType, Address, Discriminator};


verus! {

broadcast use lemma_subrange_of_concat_left, lemma_subrange_of_concat_right;

/// A single price candle: open, close, extreme prices and traded
/// volumes over one duration bucket.  `time` is aligned to the candle
/// duration.
#[derive(Clone, Copy, Debug, PartialEq)]
pub struct Candle {
    pub open: i64,
    pub close: i64,
    pub max: i64,
    pub min: i64,
    pub asset_tokens: i64,
    pub crncy_tokens: i64,
    pub time: u32,
    pub counter: u32,
}

pub const CANDLE_SIZE: usize = 56;

impl Candle {
    /// The `Candle` image that starts at byte offset `off` of a buffer.
    pub open spec fn wire_at(b: Seq<u8>, off: int) -> Candle {
        Candle {
            open: spec_i64_from_le_bytes(b.subrange(off, off + 8)),
            close: spec_i64_from_le_bytes(b.subrange(off + 8, off + 16)),
            max: spec_i64_from_le_bytes(b.subrange(off + 16, off + 24)),
            min: spec_i64_from_le_bytes(b.subrange(off + 24, off + 32)),
            asset_tokens: spec_i64_from_le_bytes(b.subrange(off + 32, off + 40)),
            crncy_tokens: spec_i64_from_le_bytes(b.subrange(off + 40, off + 48)),
            time: spec_u32_from_le_bytes(b.subrange(off + 48, off + 52)),
            counter: spec_u32_from_le_bytes(b.subrange(off + 52, off + 56)),
        }
    }

    pub fn read_at(b: &[u8], off: usize) -> (r: Candle)
        requires
            off + CANDLE_SIZE <= b@.len(),
        ensures
            r == Self::wire_at(b@, off as int),
    {
        let n = b.len();
        assert(off + 56 <= n);
        Candle {
            open: read_i64(b, off),
            close: read_i64(b, off + 8),
            max: read_i64(b, off + 16),
            min: read_i64(b, off + 24),
            asset_tokens: read_i64(b, off + 32),
            crncy_tokens: read_i64(b, off + 40),
            time: read_u32(b, off + 48),
            counter: read_u32(b, off + 52),
        }
    }

    pub fn write(&self, out: &mut Vec<u8>)
        ensures
            final(out)@.len() == old(out)@.len() + CANDLE_SIZE,
            final(out)@.subrange(0, old(out)@.len() as int) == old(out)@,
            Self::wire_at(final(out)@, old(out)@.len() as int) == *self,
    {
        let ghost base = out@;
        put_i64(out, self.open);
        put_i64(out, self.close);
        put_i64(out, self.max);
        put_i64(out, self.min);
        put_i64(out, self.asset_tokens);
        put_i64(out, self.crncy_tokens);
        put_u32(out, self.time);
        put_u32(out, self.counter);
        proof {
            lemma_auto_spec_u16_to_from_le_bytes();
            lemma_auto_spec_u32_to_from_le_bytes();
            lemma_auto_spec_u64_to_from_le_bytes();
            lemma_auto_spec_i64_to_from_le_bytes();
            assert(out@ == base + spec_i64_to_le_bytes(self.open) + spec_i64_to_le_bytes(self.close) + spec_i64_to_le_bytes(self.max) + spec_i64_to_le_bytes(self.min) + spec_i64_to_le_bytes(self.asset_tokens) + spec_i64_to_le_bytes(self.crncy_tokens) + spec_u32_to_le_bytes(self.time) + spec_u32_to_le_bytes(self.counter));
            assert(out@.subrange(base.len() as int, base.len() as int + 8) =~= spec_i64_to_le_bytes(self.open));
            assert(out@.subrange(base.len() as int + 8, base.len() as int + 16) =~= spec_i64_to_le_bytes(self.close));
            assert(out@.subrange(base.len() as int + 16, base.len() as int + 24) =~= spec_i64_to_le_bytes(self.max));
            assert(out@.subrange(base.len() as int + 24, base.len() as int + 32) =~= spec_i64_to_le_bytes(self.min));
            assert(out@.subrange(base.len() as int + 32, base.len() as int + 40) =~= spec_i64_to_le_bytes(self.asset_tokens));
            assert(out@.subrange(base.len() as int + 40, base.len() as int + 48) =~= spec_i64_to_le_bytes(self.crncy_tokens));
            assert(out@.subrange(base.len() as int + 48, base.len() as int + 52) =~= spec_u32_to_le_bytes(self.time));
            assert(out@.subrange(base.len() as int + 52, base.len() as int + 56) =~= spec_u32_to_le_bytes(self.counter));
            assert(out@.subrange(0, base.len() as int) =~= base);
            assert(Self::wire_at(out@, base.len() as int) == *self);
        }
    }

    pub fn encode(&self) -> (r: Vec<u8>)
        ensures
            r@.len() == CANDLE_SIZE,
            Self::wire_at(r@, 0) == *self,
    {
        let mut out: Vec<u8> = Vec::new();
        self.write(&mut out);
        out
    }
}

/// State of one candle ring buffer: `count` candles are allocated and
/// `last` is the index of the most recently written one, both below the
/// duration's capacity.
#[derive(Clone, Copy, Debug, PartialEq)]
pub struct CandlesAccountHeader<const TAG: u32> {
    pub discriminator: Discriminator,
    pub id: InstrId,
    pub slot: u32,
    pub count: u32,
    pub last: u32,
}

pub const CANDLES_ACCOUNT_HEADER_SIZE: usize = 24;

impl<const TAG: u32> CandlesAccountHeader<TAG> {
    /// The `CandlesAccountHeader` image that starts at byte offset `off` of a buffer.
    pub open spec fn wire_at(b: Seq<u8>, off: int) -> CandlesAccountHeader<TAG> {
        CandlesAccountHeader {
            discriminator: Discriminator::wire_at(b, off),
            id: InstrId(spec_u32_from_le_bytes(b.subrange(off + 8, off + 12))),
            slot: spec_u32_from_le_bytes(b.subrange(off + 12, off + 16)),
            count: spec_u32_from_le_bytes(b.subrange(off + 16, off + 20)),
            last: spec_u32_from_le_bytes(b.subrange(off + 20, off + 24)),
        }
    }

    pub fn read_at(b: &[u8], off: usize) -> (r: CandlesAccountHeader<TAG>)
        requires
            off + CANDLES_ACCOUNT_HEADER_SIZE <= b@.len(),
        ensures
            r == Self::wire_at(b@, off as int),
    {
        let n = b.len();
        assert(off + 24 <= n);
        CandlesAccountHeader {
            discriminator: Discriminator::read_at(b, off),
            id: InstrId(read_u32(b, off + 8)),
            slot: read_u32(b, off + 12),
            count: read_u32(b, off + 16),
            last: read_u32(b, off + 20),
        }
    }

    pub fn write(&self, out: &mut Vec<u8>)
        ensures
            final(out)@.len() == old(out)@.len() + CANDLES_ACCOUNT_HEADER_SIZE,
            final(out)@.subrange(0, old(out)@.len() as int) == old(out)@,
            Self::wire_at(final(out)@, old(out)@.len() as int) == *self,
    {
        let ghost base = out@;
        put_u32(out, self.discriminator.tag.0);
        put_u32(out, self.discriminator.version.0);
        put_u32(out, self.id.0);
        put_u32(out, self.slot);
        put_u32(out, self.count);
        put_u32(out, self.last);
        proof {
            lemma_auto_spec_u16_to_from_le_bytes();
            lemma_auto_spec_u32_to_from_le_bytes();
            lemma_auto_spec_u64_to_from_le_bytes();
            lemma_auto_spec_i64_to_from_le_bytes();
            assert(out@ == base + spec_u32_to_le_bytes(self.discriminator.tag.0) + spec_u32_to_le_bytes(self.discriminator.version.0) + spec_u32_to_le_bytes(self.id.0) + spec_u32_to_le_bytes(self.slot) + spec_u32_to_le_bytes(self.count) + spec_u32_to_le_bytes(self.last));
            assert(out@.subrange(base.len() as int, base.len() as int + 4) =~= spec_u32_to_le_bytes(self.discriminator.tag.0));
            assert(out@.subrange(base.len() as int + 4, base.len() as int + 8) =~= spec_u32_to_le_bytes(self.discriminator.version.0));
            assert(out@.subrange(base.len() as int + 8, base.len() as int + 12) =~= spec_u32_to_le_bytes(self.id.0));
            assert(out@.subrange(base.len() as int + 12, base.len() as int + 16) =~= spec_u32_to_le_bytes(self.slot));
            assert(out@.subrange(base.len() as int + 16, base.len() as int + 20) =~= spec_u32_to_le_bytes(self.count));
            assert(out@.subrange(base.len() as int + 20, base.len() as int + 24) =~= spec_u32_to_le_bytes(self.last));
            assert(out@.subrange(0, base.len() as int) =~= base);
            assert(Self::wire_at(out@, base.len() as int) == *self);
        }
    }

    pub fn encode(&self) -> (r: Vec<u8>)
        ensures
            r@.len() == CANDLES_ACCOUNT_HEADER_SIZE,
            Self::wire_at(r@, 0) == *self,
    {
        let mut out: Vec<u8> = Vec::new();
        self.write(&mut out);
        out
    }

    /// Whether the ring-buffer counters fit the capacity of the duration
    /// this account was created for: `count` candles are allocated and the
    /// index of the last written candle stays inside the buffer.
    pub open spec fn wf(self, params: CandleParams) -> bool {
        &&& self.count <= params.capacity
        &&& self.last < params.capacity
    }

    /// Checks the ring-buffer counters against the duration's capacity.
    pub fn check_counts(&self, params: &CandleParams) -> (r: bool)
        ensures
            r == self.wf(*params),
    {
        self.count <= params.capacity && self.last < params.capacity
    }

    /// Re-validates the stored discriminator before any other field of
    /// the buffer may be trusted: the buffer must be long enough, carry
    /// the expected account tag, and carry the expected schema version.
    pub fn load(b: &[u8], address: &Address, expected_version: u32) -> (r: Result<Self, DeriverseErrorKind>)
        ensures
            ({
                let d = Discriminator::wire_at(b@, 0);
                if b@.len() < CANDLES_ACCOUNT_HEADER_SIZE {
                    r == Err::<Self, DeriverseErrorKind>(match AccountType::spec_from_tag(TAG) {
                        Some(at) => DeriverseErrorKind::InvalidAccountSize { address: *address, account_type: at, expected: CANDLES_ACCOUNT_HEADER_SIZE, actual: b@.len() as usize },
                        None => DeriverseErrorKind::UnsupportedAccountTag { tag: TAG },
                    })
                } else if d.tag.0 != TAG {
                    r == Err::<Self, DeriverseErrorKind>(match AccountType::spec_from_tag(TAG) {
                        Some(at) => DeriverseErrorKind::InvalidAccountTag { expected_account_type: at, actual_tag: d.tag.0, address: *address },
                        None => DeriverseErrorKind::UnsupportedAccountTag { tag: TAG },
                    })
                } else if d.version.0 != expected_version {
                    r == Err::<Self, DeriverseErrorKind>(match AccountType::spec_from_tag(TAG) {
                        Some(at) => DeriverseErrorKind::InvalidVersion { address: *address, account_type: at, expected: expected_version, actual: d.version.0 },
                        None => DeriverseErrorKind::UnsupportedAccountTag { tag: TAG },
                    })
                } else {
                    r == Ok::<Self, DeriverseErrorKind>(Self::wire_at(b@, 0))
                }
            }),
    {
        if b.len() < CANDLES_ACCOUNT_HEADER_SIZE {
            return Err(match AccountType::from_tag(TAG) {
                Some(at) => DeriverseErrorKind::InvalidAccountSize { address: *address, account_type: at, expected: CANDLES_ACCOUNT_HEADER_SIZE, actual: b.len() },
                None => DeriverseErrorKind::UnsupportedAccountTag { tag: TAG },
            });
        }
        let d = Discriminator::read_at(b, 0);
        if d.tag.0 != TAG {
            return Err(match AccountType::from_tag(TAG) {
                Some(at) => DeriverseErrorKind::InvalidAccountTag { expected_account_type: at, actual_tag: d.tag.0, address: *address },
                None => DeriverseErrorKind::UnsupportedAccountTag { tag: TAG },
            });
        }
        if d.version.0 != expected_version {
            return Err(match AccountType::from_tag(TAG) {
                Some(at) => DeriverseErrorKind::InvalidVersion { address: *address, account_type: at, expected: expected_version, actual: d.version.0 },
                None => DeriverseErrorKind::UnsupportedAccountTag { tag: TAG },
            });
        }
        Ok(Self::read_at(b, 0))
    }
}

/// Layout parameters of one candle duration.
#[derive(Clone, Copy, Debug, PartialEq, Eq, Structural)]
pub struct CandleParams {
    pub tag: u32,
    pub capacity: u32,
    pub duration: u32,
}

/// The register of the supported candle durations.
pub struct CandleRegister {
    pub candles: Vec<CandleParams>,
}

impl CandleRegister {
    /// The three supported durations: one-minute, fifteen-minute and daily
    /// candles, each with the capacity of its ring buffer in slots and its
    /// duration in seconds.
    pub fn new() -> (r: CandleRegister)
        ensures
            r.candles@.len() == 3,
            r.candles@[0] == (CandleParams { tag: crate::types::SPOT_1M_CANDLES, capacity: 10080, duration: 60 }),
            r.candles@[1] == (CandleParams { tag: crate::types::SPOT_15M_CANDLES, capacity: 2688, duration: 900 }),
            r.candles@[2] == (CandleParams { tag: crate::types::SPOT_DAY_CANDLES, capacity: 5844, duration: 86400 }),
    {
        let mut candles: Vec<CandleParams> = Vec::new();
        candles.push(CandleParams { tag: crate::types::SPOT_1M_CANDLES, capacity: 10080, duration: 60 });
        candles.push(CandleParams { tag: crate::types::SPOT_15M_CANDLES, capacity: 2688, duration: 900 });
        candles.push(CandleParams { tag: crate::types::SPOT_DAY_CANDLES, capacity: 5844, duration: 86400 });
        CandleRegister { candles }
    }
}

} // verus!
