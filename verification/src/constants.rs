//! Shared numeric limits, sentinel values and layout constants.
//!
//! Values that the original deployment publishes as floating-point tuning
//! parameters (variance bounds, pool units, referral ratios) are host-side
//! concerns and are not part of the verified layer; only the integer limits
//! that the codec and validators rely on are stated here.

use vstd::prelude::*;

verus! {

// Time periods, in seconds.
pub const HOUR: u32 = 3600;

pub const DAY: u32 = 86400;

pub const WEEK: u32 = DAY * 7;

pub const MONTH: u32 = WEEK * 4;

pub const QUARTER: u32 = 365 * DAY + 6 * HOUR;

pub const YEAR: u32 = WEEK * 52;

pub const SETTLEMENT: u32 = 28800;

pub const FIXING_DURATION: u32 = 300;

pub const FEES_PREPAYMENT_LOCKUP_PERIOD: u32 = 91 * DAY;

// Sentinel values that stand for "no reference" inside fixed-width records.
pub const NULL_NODE: u32 = 0xFFFFFFFF;

pub const NULL_ORDER: u32 = 0xFFFF;

pub const NULL_THREAD: u32 = 0xFFFF;

pub const NULL_INDEX: usize = 0xFFFF;

pub const NULL_CLIENT: u32 = 0xFFFFFF;

pub const NULL_INSTR: u32 = 0xFFFFFFF;

pub const NULL_TOKEN: u32 = 0xFFFFFFF;

// Memory-map sizes, in 8-byte units.
pub const MEMORY_MAP_UNITS: usize = 1 + 64 + 64 * 64;

pub const EXTENDED_MEMORY_MAP_UNITS: usize = 1 + 16 + 16 * 64;

pub const TRADE_MEMORY_MAP_UNITS: usize = 1 + 4 + 4 * 64;

pub const SMALL_MEMORY_MAP_UNITS: usize = 1 + 64;

// Spot order-book capacity.
pub const SPOT_MAX_LINES: usize = 2048;

pub const SPOT_MAX_ORDERS: u32 = 4 * 64 * 64 - 2048 - 2;

pub const MAX_CLIENT_SIDE_ORDERS_COUNT: u32 = 32;

// Perp order-book capacity.
pub const PERP_MAX_LINES: usize = 2048 * 4;

pub const PERP_MAX_ORDERS: u32 = 16 * 64 * 64 - 2048 * 4 - 2;

pub const PERP_MAX_SUPPLY: i64 = 262_200;

pub const MAX_PERP_CLIENTS: u32 = 262_143;

pub const MAX_PERP_LEVERAGE: u8 = 15;

// Voting.
pub const MIN_VOTING_QUORUM: i64 = 5;

pub const MIN_FEE_RATE: u32 = 10;

pub const MAX_FEE_RATE: u32 = 30;

pub const START_SPOT_FEE_RATE: u32 = 20;

pub const START_PERP_FEE_RATE: u32 = 20;

pub const MIN_POOL_RATIO: u32 = 4;

pub const MAX_POOL_RATIO: u32 = 36;

pub const START_SPOT_POOL_RATIO: u32 = 10;

pub const MIN_MARGIN_CALL_PENALTY_RATE: u32 = 4;

pub const MAX_MARGIN_CALL_PENALTY_RATE: u32 = 20;

pub const START_MARGIN_CALL_PENALTY_RATE: u32 = 10;

pub const START_FEES_PREPAYMENT_FOR_MAX_DISCOUNT: u32 = 50;

pub const MIN_FEES_PREPAYMENT_FOR_MAX_DISCOUNT: u32 = 10;

pub const MIN_MAX_DISCOUNT_RATE: u32 = 10;

pub const MAX_MAX_DISCOUNT_RATE: u32 = 30;

pub const START_MAX_DISCOUNT: u32 = 30;

// Trading limitations: the ranges every decoded price, quantity and order id
// must satisfy before the matching engine may trust it.
pub const MIN_QTY: i64 = 10000;

pub const MAX_PRICE: i64 = i64::MAX >> 4;

pub const MIN_PRICE: i64 = 1000;

pub const SPOT_MAX_AMOUNT: i64 = i64::MAX >> 8;

pub const MARKET_DEPTH: usize = 20;

pub const MAX_ORDER_ID: i64 = i64::MAX >> 1;

// Miscellaneous limits.
pub const WALLET_RESERVE_LAMPORTS: u64 = 10_000_000;

pub const MIN_AMOUNT_FOR_DIVIDENDS_ALLOCATION: i64 = 10;

pub const MAX_INSTR_COUNT: u32 = 0x10000000;

pub const DEC_PRECISION: u32 = 63;

pub const MAX_REBALANCING_CALLS: i64 = 25;

pub const REBALANCING_DELAY: u32 = 300;

pub const MAX_MARGIN_CALL_TRADES: i64 = 10;

pub const MAX_PRIVATE_CLIENTS_IN_QUEUE: u32 = 512;

pub const INSTR_UPGRADE_MAX_DURATION: usize = 28;

pub const INSTR_UPGRADE_TRADES_THRESHOLD: i64 = 100000;

// Decimal-count bounds for token mints.
pub const MINT_DECIMALS_OFFSET: usize = 44;

pub const MIN_DECS_COUNT: u32 = 4;

pub const MAX_DECS_COUNT: u32 = 9;

} // verus!
