//! Persisted account state: one module per account kind, plus the
//! bounds-checked access to the per-client record arrays that live inside a
//! trading account's buffer.

pub mod candles;
pub mod client_community;
pub mod client_drv;
pub mod client_primary;
pub mod community;
pub mod holder;
pub mod instrument;
pub mod pdf;
pub mod private_mode;
pub mod perp;
pub mod root;
pub mod spot;
pub mod token;

use vstd::arithmetic::mul::{lemma_mul_inequality, lemma_mul_is_commutative};
use vstd::prelude::*;

use crate::ids::ClientId;
use crate::state::perp::{
    PerpClientInfo, PerpClientInfo2, PerpClientInfo3, PerpClientInfo4, PerpClientInfo5,
    PERP_CLIENT_INFO2_SIZE, PERP_CLIENT_INFO3_SIZE, PERP_CLIENT_INFO4_SIZE,
    PERP_CLIENT_INFO5_SIZE, PERP_CLIENT_INFO_SIZE, PERP_TRADE_ACCOUNT_HEADER_SIZE,
};
use crate::state::spot::{
    SpotClientInfo, SpotClientInfo2, SPOT_CLIENT_INFO2_SIZE, SPOT_CLIENT_INFO_SIZE,
    SPOT_TRADE_ACCOUNT_HEADER_SIZE,
};

verus! {

/// A fixed-width record stored once per temporary client slot inside a
/// trading account's buffer.
pub trait SlotRecord: Sized {
    /// The width of one record, in bytes.
    spec fn spec_size() -> usize;

    /// The record image that starts at byte offset `off` of a buffer.
    spec fn spec_wire_at(b: Seq<u8>, off: int) -> Self;

    fn record_size() -> (r: usize)
        ensures
            r == Self::spec_size(),
            0 < Self::spec_size(),
    ;

    fn record_read_at(b: &[u8], off: usize) -> (r: Self)
        requires
            off + Self::spec_size() <= b@.len(),
        ensures
            r == Self::spec_wire_at(b@, off as int),
    ;
}

/// The byte offset of the record of slot `id` in an array of `size`-wide
/// records that starts at `header`.
pub open spec fn slot_record_offset(header: usize, size: usize, id: u32) -> int {
    header + size * id
}

/// Reads the record of temporary client slot `id` from a record array that
/// starts at offset `header` of the buffer, or nothing when the buffer is
/// too short to hold that slot.
pub fn get_slot_record<T: SlotRecord>(data: &[u8], header: usize, id: ClientId) -> (r: Option<
    T,
>)
    ensures
        match r {
            Some(t) => {
                &&& slot_record_offset(header, T::spec_size(), id.0) + T::spec_size()
                    <= data@.len()
                &&& t == T::spec_wire_at(data@, slot_record_offset(header, T::spec_size(), id.0))
            },
            None => slot_record_offset(header, T::spec_size(), id.0) + T::spec_size()
                > data@.len(),
        },
{
    let n = data.len();
    let size = T::record_size();
    if n < header {
        proof {
            lemma_mul_nonneg_usize(size, id.0);
        }
        return None;
    }
    let avail = (n - header) / size;
    if id.0 as usize >= avail {
        proof {
            let s = T::spec_size() as int;
            let a = avail as int;
            let i = id.0 as int;
            assert(a * s <= (n - header) as int) by {
                vstd::arithmetic::div_mod::lemma_fundamental_div_mod((n - header) as int, s);
                assert((n - header) as int == s * a + (n - header) as int % s);
                vstd::arithmetic::div_mod::lemma_mod_bound((n - header) as int, s);
                lemma_mul_is_commutative(s, a);
            }
            // n - header < (a + 1) * s and a <= i, so the record of slot i
            // ends past the buffer.
            assert(((a + 1) * s) as int > (n - header) as int) by {
                vstd::arithmetic::div_mod::lemma_fundamental_div_mod((n - header) as int, s);
                vstd::arithmetic::div_mod::lemma_mod_bound((n - header) as int, s);
                vstd::arithmetic::mul::lemma_mul_is_distributive_add_other_way(s, a, 1);
                lemma_mul_is_commutative(s, a);
            }
            lemma_mul_inequality(a + 1, i + 1, s);
            assert((i + 1) * s == i * s + s) by {
                vstd::arithmetic::mul::lemma_mul_is_distributive_add_other_way(s, i, 1);
            }
        }
        return None;
    }
    proof {
        let s = T::spec_size() as int;
        let a = avail as int;
        let i = id.0 as int;
        assert(a * s <= (n - header) as int) by {
            vstd::arithmetic::div_mod::lemma_fundamental_div_mod((n - header) as int, s);
            vstd::arithmetic::div_mod::lemma_mod_bound((n - header) as int, s);
            lemma_mul_is_commutative(s, a);
        }
        lemma_mul_inequality(i + 1, a, s);
        assert((i + 1) * s == i * s + s) by {
            vstd::arithmetic::mul::lemma_mul_is_distributive_add_other_way(s, i, 1);
        }
    }
    let off = header + size * (id.0 as usize);
    Some(T::record_read_at(data, off))
}

proof fn lemma_mul_nonneg_usize(size: usize, id: u32)
    ensures
        size * id >= 0,
{
    vstd::arithmetic::mul::lemma_mul_nonnegative(size as int, id as int);
}

/// Reads the spot info record of slot `id` from a spot trading account's
/// buffer: the record array starts right after the spot trade-account
/// header.
pub fn get_spot_info<T: SlotRecord>(data: &[u8], id: ClientId) -> (r: Option<T>)
    ensures
        match r {
            Some(t) => {
                &&& slot_record_offset(SPOT_TRADE_ACCOUNT_HEADER_SIZE, T::spec_size(), id.0)
                    + T::spec_size() <= data@.len()
                &&& t == T::spec_wire_at(
                    data@,
                    slot_record_offset(SPOT_TRADE_ACCOUNT_HEADER_SIZE, T::spec_size(), id.0),
                )
            },
            None => slot_record_offset(SPOT_TRADE_ACCOUNT_HEADER_SIZE, T::spec_size(), id.0)
                + T::spec_size() > data@.len(),
        },
{
    get_slot_record::<T>(data, SPOT_TRADE_ACCOUNT_HEADER_SIZE, id)
}

/// Reads the perp info record of slot `id` from a perp trading account's
/// buffer: the record array starts right after the perp trade-account
/// header.
pub fn get_perp_info<T: SlotRecord>(data: &[u8], id: ClientId) -> (r: Option<T>)
    ensures
        match r {
            Some(t) => {
                &&& slot_record_offset(PERP_TRADE_ACCOUNT_HEADER_SIZE, T::spec_size(), id.0)
                    + T::spec_size() <= data@.len()
                &&& t == T::spec_wire_at(
                    data@,
                    slot_record_offset(PERP_TRADE_ACCOUNT_HEADER_SIZE, T::spec_size(), id.0),
                )
            },
            None => slot_record_offset(PERP_TRADE_ACCOUNT_HEADER_SIZE, T::spec_size(), id.0)
                + T::spec_size() > data@.len(),
        },
{
    get_slot_record::<T>(data, PERP_TRADE_ACCOUNT_HEADER_SIZE, id)
}

impl SlotRecord for SpotClientInfo {
    open spec fn spec_size() -> usize {
        SPOT_CLIENT_INFO_SIZE
    }

    open spec fn spec_wire_at(b: Seq<u8>, off: int) -> Self {
        Self::wire_at(b, off)
    }

    fn record_size() -> usize {
        SPOT_CLIENT_INFO_SIZE
    }

    fn record_read_at(b: &[u8], off: usize) -> Self {
        Self::read_at(b, off)
    }
}

impl SlotRecord for SpotClientInfo2 {
    open spec fn spec_size() -> usize {
        SPOT_CLIENT_INFO2_SIZE
    }

    open spec fn spec_wire_at(b: Seq<u8>, off: int) -> Self {
        Self::wire_at(b, off)
    }

    fn record_size() -> usize {
        SPOT_CLIENT_INFO2_SIZE
    }

    fn record_read_at(b: &[u8], off: usize) -> Self {
        Self::read_at(b, off)
    }
}

impl SlotRecord for PerpClientInfo {
    open spec fn spec_size() -> usize {
        PERP_CLIENT_INFO_SIZE
    }

    open spec fn spec_wire_at(b: Seq<u8>, off: int) -> Self {
        Self::wire_at(b, off)
    }

    fn record_size() -> usize {
        PERP_CLIENT_INFO_SIZE
    }

    fn record_read_at(b: &[u8], off: usize) -> Self {
        Self::read_at(b, off)
    }
}

impl SlotRecord for PerpClientInfo2 {
    open spec fn spec_size() -> usize {
        PERP_CLIENT_INFO2_SIZE
    }

    open spec fn spec_wire_at(b: Seq<u8>, off: int) -> Self {
        Self::wire_at(b, off)
    }

    fn record_size() -> usize {
        PERP_CLIENT_INFO2_SIZE
    }

    fn record_read_at(b: &[u8], off: usize) -> Self {
        Self::read_at(b, off)
    }
}

impl SlotRecord for PerpClientInfo3 {
    open spec fn spec_size() -> usize {
        PERP_CLIENT_INFO3_SIZE
    }

    open spec fn spec_wire_at(b: Seq<u8>, off: int) -> Self {
        Self::wire_at(b, off)
    }

    fn record_size() -> usize {
        PERP_CLIENT_INFO3_SIZE
    }

    fn record_read_at(b: &[u8], off: usize) -> Self {
        Self::read_at(b, off)
    }
}

impl SlotRecord for PerpClientInfo4 {
    open spec fn spec_size() -> usize {
        PERP_CLIENT_INFO4_SIZE
    }

    open spec fn spec_wire_at(b: Seq<u8>, off: int) -> Self {
        Self::wire_at(b, off)
    }

    fn record_size() -> usize {
        PERP_CLIENT_INFO4_SIZE
    }

    fn record_read_at(b: &[u8], off: usize) -> Self {
        Self::read_at(b, off)
    }
}

impl SlotRecord for PerpClientInfo5 {
    open spec fn spec_size() -> usize {
        PERP_CLIENT_INFO5_SIZE
    }

    open spec fn spec_wire_at(b: Seq<u8>, off: int) -> Self {
        Self::wire_at(b, off)
    }

    fn record_size() -> usize {
        PERP_CLIENT_INFO5_SIZE
    }

    fn record_read_at(b: &[u8], off: usize) -> Self {
        Self::read_at(b, off)
    }
}


/// Every account header is laid out with no implicit padding: its wire size
/// is the size of the leading discriminator plus the sum of the sizes of its
/// remaining fields.
pub proof fn lemma_header_layout()
    ensures
        crate::state::root::ROOT_ACCOUNT_SIZE == crate::types::DISCRIMINATOR_SIZE + 6 * 32 + 8
            * 4 + 3 * 8,
        crate::state::token::TOKEN_ACCOUNT_SIZE == crate::types::DISCRIMINATOR_SIZE + 2 * 32 + 4
            * 4,
        crate::state::instrument::INSTR_ACCOUNT_HEADER_SIZE == crate::types::DISCRIMINATOR_SIZE
            + 4 * 32 + 62 * 4 + 79 * 8,
        crate::state::community::COMMUNITY_ACCOUNT_HEADER_SIZE
            == crate::types::DISCRIMINATOR_SIZE + 10 * 8 + 18 * 4,
        crate::state::client_community::CLIENT_COMMUNITY_ACCOUNT_HEADER_SIZE
            == crate::types::DISCRIMINATOR_SIZE + 3 * 8 + 8 * 4,
        crate::state::client_primary::CLIENT_PRIMARY_ACCOUNT_HEADER_SIZE
            == crate::types::DISCRIMINATOR_SIZE + 4 * 32 + 26 * 4 + 17 * 8,
        crate::state::client_drv::CLIENT_DRV_ACCOUNT_HEADER_SIZE
            == crate::types::DISCRIMINATOR_SIZE + 4 * 4,
        crate::state::spot::SPOT_TRADE_ACCOUNT_HEADER_SIZE == crate::types::DISCRIMINATOR_SIZE
            + 4 * 4,
        crate::state::perp::PERP_TRADE_ACCOUNT_HEADER_SIZE == crate::types::DISCRIMINATOR_SIZE
            + 4 * 4,
        crate::state::candles::CANDLES_ACCOUNT_HEADER_SIZE == crate::types::DISCRIMINATOR_SIZE
            + 4 * 4,
        crate::state::private_mode::PRIVATE_CLIENT_HEADER_SIZE
            == crate::types::DISCRIMINATOR_SIZE,
{
}

} // verus!
