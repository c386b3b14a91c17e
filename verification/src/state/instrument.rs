//! The instrument account header: the full spot and perp order-book and
//! statistics state of one tradable pair.  Every field that the host
//! publishes as a binary64 statistic is carried as its raw bit pattern.

use vstd::bytes::*;
use vstd::prelude::*;

use crate::codec::{
    lemma_auto_spec_i64_to_from_le_bytes, lemma_subrange_of_concat_left,
    lemma_subrange_of_concat_right, put_i64, put_u16, put_u32, put_u64, put_u8, read_i64,
    read_u16, read_u32, read_u64, read_u8, spec_i64_from_le_bytes, spec_i64_to_le_bytes,
};
use crate::errors::DeriverseErrorKind;
use crate::ids::InstrId;
use crate::types::{
    AccountType, Address, Discriminator, INSTR_MASK_ORACLE, INSTR_MASK_PERP,
    INSTR_MASK_READY_TO_PERP_UPGRADE,
};


verus! {

broadcast use lemma_subrange_of_concat_left, lemma_subrange_of_concat_right;

/// Instr Account Header: the state of one instrument, beginning with
/// its discriminator and the ids of the asset and currency tokens of
/// the pair, followed by the order-book roots, trade statistics and
/// perp bookkeeping that the matching engine maintains in place.
#[derive(Clone, Copy, Debug)]
pub struct InstrAccountHeader {
    pub discriminator: Discriminator,
    pub instr_id: InstrId,
    pub asset_token_id: u32,
    pub crncy_token_id: u32,
    pub mask: u32,
    pub asset_tokens: i64,
    pub crncy_tokens: i64,
    pub ps: i64,
    pub pool_fees: i64,
    pub last_px: i64,
    pub last_close: i64,
    pub alltime_trades: i64,
    pub prev_day_trades: i64,
    pub day_volatility: u64,
    pub perp_last_px: i64,
    pub perp_last_close: i64,
    pub perp_alltime_trades: i64,
    pub perp_prev_day_trades: i64,
    pub perp_open_int: i64,
    pub maps_address: Address,
    pub perp_maps_address: Address,
    pub lut_address: Address,
    pub drv_count: u32,
    pub asset_token_decs_count: u32,
    pub crncy_token_decs_count: u32,
    pub slot: u32,
    pub creator: Address,
    pub last_time: u32,
    pub distrib_time: u32,
    pub base_crncy_index: u32,
    pub instance_counter: u32,
    pub variance_counter: u32,
    pub bids_tree_nodes_count: u32,
    pub bids_tree_lines_entry: u32,
    pub bids_tree_orders_entry: u32,
    pub asks_tree_nodes_count: u32,
    pub asks_tree_lines_entry: u32,
    pub asks_tree_orders_entry: u32,
    pub bid_lines_begin: u32,
    pub bid_lines_end: u32,
    pub bid_lines_count: u32,
    pub ask_lines_begin: u32,
    pub ask_lines_end: u32,
    pub ask_lines_count: u32,
    pub bid_orders_count: u32,
    pub ask_orders_count: u32,
    pub fixing_time: u32,
    pub fixing_crncy_tokens: i64,
    pub fixing_asset_tokens: i64,
    pub counter: i64,
    pub protocol_fees: i64,
    pub hits_counter: i64,
    pub last_asset_tokens: i64,
    pub last_crncy_tokens: i64,
    pub last_trade_asset_tokens: i64,
    pub last_trade_crncy_tokens: i64,
    pub perp_underlying_px: i64,
    pub best_bid: i64,
    pub best_ask: i64,
    pub fixing_px: i64,
    pub variance: u64,
    pub avg_spread: u64,
    pub last_spread: u64,
    pub last_spread_time: u32,
    pub total_spread_period: u32,
    pub day_asset_tokens: i64,
    pub day_crncy_tokens: i64,
    pub day_low: i64,
    pub day_high: i64,
    pub prev_day_asset_tokens: i64,
    pub prev_day_crncy_tokens: i64,
    pub alltime_asset_tokens: u64,
    pub alltime_crncy_tokens: u64,
    pub day_trades: u32,
    pub lp_day_trades: u32,
    pub lp_alltime_fees: u64,
    pub lp_day_fees: i64,
    pub lp_prev_day_fees: i64,
    pub lp_prev_day_trades: u32,
    pub lp_time: u32,
    pub fees_time: u32,
    pub creation_time: u32,
    pub day_fees: i64,
    pub alltime_fees: u64,
    pub prev_day_fees: i64,
    pub dec_factor: i64,
    pub perp_clients_count: u32,
    pub perp_slot: u32,
    pub perp_time: u32,
    pub perp_funding_rate_slot: u32,
    pub perp_funding_rate_time: u32,
    pub perp_long_px_tree_nodes_count: u32,
    pub perp_long_px_tree_entry: u32,
    pub perp_short_px_tree_nodes_count: u32,
    pub perp_short_px_tree_entry: u32,
    pub perp_rebalance_time_tree_nodes_count: u32,
    pub perp_rebalance_time_tree_entry: u32,
    pub perp_bids_tree_nodes_count: u32,
    pub perp_bids_tree_lines_entry: u32,
    pub perp_bids_tree_orders_entry: u32,
    pub perp_asks_tree_nodes_count: u32,
    pub perp_asks_tree_lines_entry: u32,
    pub perp_asks_tree_orders_entry: u32,
    pub perp_bid_lines_begin: u32,
    pub perp_bid_lines_end: u32,
    pub perp_bid_lines_count: u32,
    pub perp_ask_lines_begin: u32,
    pub perp_ask_lines_end: u32,
    pub perp_ask_lines_count: u32,
    pub perp_bid_orders_count: u32,
    pub perp_ask_orders_count: u32,
    pub perp_day_trades: u32,
    pub perp_long_spot_price_for_withdrowal: i64,
    pub perp_short_spot_price_for_withdrowal: i64,
    pub perp_soc_loss_long_rate: u64,
    pub perp_soc_loss_short_rate: u64,
    pub perp_price_delta: u64,
    pub perp_funding_rate: u64,
    pub perp_funding_funds: i64,
    pub perp_soc_loss_funds: i64,
    pub perp_insurance_fund: i64,
    pub pepr_last_trade_asset_tokens: i64,
    pub perp_last_trade_crncy_tokens: i64,
    pub perp_best_bid: i64,
    pub perp_best_ask: i64,
    pub perp_day_asset_tokens: i64,
    pub perp_day_crncy_tokens: i64,
    pub perp_day_low: i64,
    pub perp_day_high: i64,
    pub perp_prev_day_asset_tokens: i64,
    pub perp_prev_day_crncy_tokens: i64,
    pub perp_alltime_asset_tokens: u64,
    pub perp_alltime_crncy_tokens: u64,
    pub max_leverage: u64,
    pub liquidation_threshold: u64,
    pub seats_reserve: i64,
    pub reserved_value1: i64,
    pub reserved_value2: i64,
    pub reserved_value3: i64,
    pub reserved_value4: i64,
    pub reserved_value5: i64,
    pub reserved_value6: i64,
    pub reserved_value7: i64,
    pub reserved_value8: i64,
    pub reserved_value9: i64,
    pub reserved_value10: i64,
}

pub const INSTR_ACCOUNT_HEADER_SIZE: usize = 1016;

/// The size of a freshly created instrument account: the header followed by
/// the four readable quote ladders, `MARKET_DEPTH` levels each.
pub const INSTR_ACCOUNT_INITIAL_SIZE: usize = INSTR_ACCOUNT_HEADER_SIZE + 4
    * crate::types::LINE_QUOTES_SIZE * crate::constants::MARKET_DEPTH;

impl InstrAccountHeader {
    /// The clauses of `matches_wire` for bytes 0..320 of the image.
    pub open spec fn matches_span0(self, b: Seq<u8>, off: int) -> bool {
        &&& self.discriminator == Discriminator::wire_at(b, off)
        &&& self.instr_id == InstrId(spec_u32_from_le_bytes(b.subrange(off + 8, off + 12)))
        &&& self.asset_token_id == spec_u32_from_le_bytes(b.subrange(off + 12, off + 16))
        &&& self.crncy_token_id == spec_u32_from_le_bytes(b.subrange(off + 16, off + 20))
        &&& self.mask == spec_u32_from_le_bytes(b.subrange(off + 20, off + 24))
        &&& self.asset_tokens == spec_i64_from_le_bytes(b.subrange(off + 24, off + 32))
        &&& self.crncy_tokens == spec_i64_from_le_bytes(b.subrange(off + 32, off + 40))
        &&& self.ps == spec_i64_from_le_bytes(b.subrange(off + 40, off + 48))
        &&& self.pool_fees == spec_i64_from_le_bytes(b.subrange(off + 48, off + 56))
        &&& self.last_px == spec_i64_from_le_bytes(b.subrange(off + 56, off + 64))
        &&& self.last_close == spec_i64_from_le_bytes(b.subrange(off + 64, off + 72))
        &&& self.alltime_trades == spec_i64_from_le_bytes(b.subrange(off + 72, off + 80))
        &&& self.prev_day_trades == spec_i64_from_le_bytes(b.subrange(off + 80, off + 88))
        &&& self.day_volatility == spec_u64_from_le_bytes(b.subrange(off + 88, off + 96))
        &&& self.perp_last_px == spec_i64_from_le_bytes(b.subrange(off + 96, off + 104))
        &&& self.perp_last_close == spec_i64_from_le_bytes(b.subrange(off + 104, off + 112))
        &&& self.perp_alltime_trades == spec_i64_from_le_bytes(b.subrange(off + 112, off + 120))
        &&& self.perp_prev_day_trades == spec_i64_from_le_bytes(b.subrange(off + 120, off + 128))
        &&& self.perp_open_int == spec_i64_from_le_bytes(b.subrange(off + 128, off + 136))
        &&& self.maps_address.0@ == b.subrange(off + 136, off + 168)
        &&& self.perp_maps_address.0@ == b.subrange(off + 168, off + 200)
        &&& self.lut_address.0@ == b.subrange(off + 200, off + 232)
        &&& self.drv_count == spec_u32_from_le_bytes(b.subrange(off + 232, off + 236))
        &&& self.asset_token_decs_count == spec_u32_from_le_bytes(b.subrange(off + 236, off + 240))
        &&& self.crncy_token_decs_count == spec_u32_from_le_bytes(b.subrange(off + 240, off + 244))
        &&& self.slot == spec_u32_from_le_bytes(b.subrange(off + 244, off + 248))
        &&& self.creator.0@ == b.subrange(off + 248, off + 280)
        &&& self.last_time == spec_u32_from_le_bytes(b.subrange(off + 280, off + 284))
        &&& self.distrib_time == spec_u32_from_le_bytes(b.subrange(off + 284, off + 288))
        &&& self.base_crncy_index == spec_u32_from_le_bytes(b.subrange(off + 288, off + 292))
        &&& self.instance_counter == spec_u32_from_le_bytes(b.subrange(off + 292, off + 296))
        &&& self.variance_counter == spec_u32_from_le_bytes(b.subrange(off + 296, off + 300))
        &&& self.bids_tree_nodes_count == spec_u32_from_le_bytes(b.subrange(off + 300, off + 304))
        &&& self.bids_tree_lines_entry == spec_u32_from_le_bytes(b.subrange(off + 304, off + 308))
        &&& self.bids_tree_orders_entry == spec_u32_from_le_bytes(b.subrange(off + 308, off + 312))
        &&& self.asks_tree_nodes_count == spec_u32_from_le_bytes(b.subrange(off + 312, off + 316))
        &&& self.asks_tree_lines_entry == spec_u32_from_le_bytes(b.subrange(off + 316, off + 320))
    }

    /// The clauses of `matches_wire` for bytes 320..564 of the image.
    pub open spec fn matches_span1(self, b: Seq<u8>, off: int) -> bool {
        &&& self.asks_tree_orders_entry == spec_u32_from_le_bytes(b.subrange(off + 320, off + 324))
        &&& self.bid_lines_begin == spec_u32_from_le_bytes(b.subrange(off + 324, off + 328))
        &&& self.bid_lines_end == spec_u32_from_le_bytes(b.subrange(off + 328, off + 332))
        &&& self.bid_lines_count == spec_u32_from_le_bytes(b.subrange(off + 332, off + 336))
        &&& self.ask_lines_begin == spec_u32_from_le_bytes(b.subrange(off + 336, off + 340))
        &&& self.ask_lines_end == spec_u32_from_le_bytes(b.subrange(off + 340, off + 344))
        &&& self.ask_lines_count == spec_u32_from_le_bytes(b.subrange(off + 344, off + 348))
        &&& self.bid_orders_count == spec_u32_from_le_bytes(b.subrange(off + 348, off + 352))
        &&& self.ask_orders_count == spec_u32_from_le_bytes(b.subrange(off + 352, off + 356))
        &&& self.fixing_time == spec_u32_from_le_bytes(b.subrange(off + 356, off + 360))
        &&& self.fixing_crncy_tokens == spec_i64_from_le_bytes(b.subrange(off + 360, off + 368))
        &&& self.fixing_asset_tokens == spec_i64_from_le_bytes(b.subrange(off + 368, off + 376))
        &&& self.counter == spec_i64_from_le_bytes(b.subrange(off + 376, off + 384))
        &&& self.protocol_fees == spec_i64_from_le_bytes(b.subrange(off + 384, off + 392))
        &&& self.hits_counter == spec_i64_from_le_bytes(b.subrange(off + 392, off + 400))
        &&& self.last_asset_tokens == spec_i64_from_le_bytes(b.subrange(off + 400, off + 408))
        &&& self.last_crncy_tokens == spec_i64_from_le_bytes(b.subrange(off + 408, off + 416))
        &&& self.last_trade_asset_tokens == spec_i64_from_le_bytes(b.subrange(off + 416, off + 424))
        &&& self.last_trade_crncy_tokens == spec_i64_from_le_bytes(b.subrange(off + 424, off + 432))
        &&& self.perp_underlying_px == spec_i64_from_le_bytes(b.subrange(off + 432, off + 440))
        &&& self.best_bid == spec_i64_from_le_bytes(b.subrange(off + 440, off + 448))
        &&& self.best_ask == spec_i64_from_le_bytes(b.subrange(off + 448, off + 456))
        &&& self.fixing_px == spec_i64_from_le_bytes(b.subrange(off + 456, off + 464))
        &&& self.variance == spec_u64_from_le_bytes(b.subrange(off + 464, off + 472))
        &&& self.avg_spread == spec_u64_from_le_bytes(b.subrange(off + 472, off + 480))
        &&& self.last_spread == spec_u64_from_le_bytes(b.subrange(off + 480, off + 488))
        &&& self.last_spread_time == spec_u32_from_le_bytes(b.subrange(off + 488, off + 492))
        &&& self.total_spread_period == spec_u32_from_le_bytes(b.subrange(off + 492, off + 496))
        &&& self.day_asset_tokens == spec_i64_from_le_bytes(b.subrange(off + 496, off + 504))
        &&& self.day_crncy_tokens == spec_i64_from_le_bytes(b.subrange(off + 504, off + 512))
        &&& self.day_low == spec_i64_from_le_bytes(b.subrange(off + 512, off + 520))
        &&& self.day_high == spec_i64_from_le_bytes(b.subrange(off + 520, off + 528))
        &&& self.prev_day_asset_tokens == spec_i64_from_le_bytes(b.subrange(off + 528, off + 536))
        &&& self.prev_day_crncy_tokens == spec_i64_from_le_bytes(b.subrange(off + 536, off + 544))
        &&& self.alltime_asset_tokens == spec_u64_from_le_bytes(b.subrange(off + 544, off + 552))
        &&& self.alltime_crncy_tokens == spec_u64_from_le_bytes(b.subrange(off + 552, off + 560))
        &&& self.day_trades == spec_u32_from_le_bytes(b.subrange(off + 560, off + 564))
    }

    /// The clauses of `matches_wire` for bytes 564..740 of the image.
    pub open spec fn matches_span2(self, b: Seq<u8>, off: int) -> bool {
        &&& self.lp_day_trades == spec_u32_from_le_bytes(b.subrange(off + 564, off + 568))
        &&& self.lp_alltime_fees == spec_u64_from_le_bytes(b.subrange(off + 568, off + 576))
        &&& self.lp_day_fees == spec_i64_from_le_bytes(b.subrange(off + 576, off + 584))
        &&& self.lp_prev_day_fees == spec_i64_from_le_bytes(b.subrange(off + 584, off + 592))
        &&& self.lp_prev_day_trades == spec_u32_from_le_bytes(b.subrange(off + 592, off + 596))
        &&& self.lp_time == spec_u32_from_le_bytes(b.subrange(off + 596, off + 600))
        &&& self.fees_time == spec_u32_from_le_bytes(b.subrange(off + 600, off + 604))
        &&& self.creation_time == spec_u32_from_le_bytes(b.subrange(off + 604, off + 608))
        &&& self.day_fees == spec_i64_from_le_bytes(b.subrange(off + 608, off + 616))
        &&& self.alltime_fees == spec_u64_from_le_bytes(b.subrange(off + 616, off + 624))
        &&& self.prev_day_fees == spec_i64_from_le_bytes(b.subrange(off + 624, off + 632))
        &&& self.dec_factor == spec_i64_from_le_bytes(b.subrange(off + 632, off + 640))
        &&& self.perp_clients_count == spec_u32_from_le_bytes(b.subrange(off + 640, off + 644))
        &&& self.perp_slot == spec_u32_from_le_bytes(b.subrange(off + 644, off + 648))
        &&& self.perp_time == spec_u32_from_le_bytes(b.subrange(off + 648, off + 652))
        &&& self.perp_funding_rate_slot == spec_u32_from_le_bytes(b.subrange(off + 652, off + 656))
        &&& self.perp_funding_rate_time == spec_u32_from_le_bytes(b.subrange(off + 656, off + 660))
        &&& self.perp_long_px_tree_nodes_count == spec_u32_from_le_bytes(b.subrange(off + 660, off + 664))
        &&& self.perp_long_px_tree_entry == spec_u32_from_le_bytes(b.subrange(off + 664, off + 668))
        &&& self.perp_short_px_tree_nodes_count == spec_u32_from_le_bytes(b.subrange(off + 668, off + 672))
        &&& self.perp_short_px_tree_entry == spec_u32_from_le_bytes(b.subrange(off + 672, off + 676))
        &&& self.perp_rebalance_time_tree_nodes_count == spec_u32_from_le_bytes(b.subrange(off + 676, off + 680))
        &&& self.perp_rebalance_time_tree_entry == spec_u32_from_le_bytes(b.subrange(off + 680, off + 684))
        &&& self.perp_bids_tree_nodes_count == spec_u32_from_le_bytes(b.subrange(off + 684, off + 688))
        &&& self.perp_bids_tree_lines_entry == spec_u32_from_le_bytes(b.subrange(off + 688, off + 692))
        &&& self.perp_bids_tree_orders_entry == spec_u32_from_le_bytes(b.subrange(off + 692, off + 696))
        &&& self.perp_asks_tree_nodes_count == spec_u32_from_le_bytes(b.subrange(off + 696, off + 700))
        &&& self.perp_asks_tree_lines_entry == spec_u32_from_le_bytes(b.subrange(off + 700, off + 704))
        &&& self.perp_asks_tree_orders_entry == spec_u32_from_le_bytes(b.subrange(off + 704, off + 708))
        &&& self.perp_bid_lines_begin == spec_u32_from_le_bytes(b.subrange(off + 708, off + 712))
        &&& self.perp_bid_lines_end == spec_u32_from_le_bytes(b.subrange(off + 712, off + 716))
        &&& self.perp_bid_lines_count == spec_u32_from_le_bytes(b.subrange(off + 716, off + 720))
        &&& self.perp_ask_lines_begin == spec_u32_from_le_bytes(b.subrange(off + 720, off + 724))
        &&& self.perp_ask_lines_end == spec_u32_from_le_bytes(b.subrange(off + 724, off + 728))
        &&& self.perp_ask_lines_count == spec_u32_from_le_bytes(b.subrange(off + 728, off + 732))
        &&& self.perp_bid_orders_count == spec_u32_from_le_bytes(b.subrange(off + 732, off + 736))
        &&& self.perp_ask_orders_count == spec_u32_from_le_bytes(b.subrange(off + 736, off + 740))
    }

    /// The clauses of `matches_wire` for bytes 740..1016 of the image.
    pub open spec fn matches_span3(self, b: Seq<u8>, off: int) -> bool {
        &&& self.perp_day_trades == spec_u32_from_le_bytes(b.subrange(off + 740, off + 744))
        &&& self.perp_long_spot_price_for_withdrowal == spec_i64_from_le_bytes(b.subrange(off + 744, off + 752))
        &&& self.perp_short_spot_price_for_withdrowal == spec_i64_from_le_bytes(b.subrange(off + 752, off + 760))
        &&& self.perp_soc_loss_long_rate == spec_u64_from_le_bytes(b.subrange(off + 760, off + 768))
        &&& self.perp_soc_loss_short_rate == spec_u64_from_le_bytes(b.subrange(off + 768, off + 776))
        &&& self.perp_price_delta == spec_u64_from_le_bytes(b.subrange(off + 776, off + 784))
        &&& self.perp_funding_rate == spec_u64_from_le_bytes(b.subrange(off + 784, off + 792))
        &&& self.perp_funding_funds == spec_i64_from_le_bytes(b.subrange(off + 792, off + 800))
        &&& self.perp_soc_loss_funds == spec_i64_from_le_bytes(b.subrange(off + 800, off + 808))
        &&& self.perp_insurance_fund == spec_i64_from_le_bytes(b.subrange(off + 808, off + 816))
        &&& self.pepr_last_trade_asset_tokens == spec_i64_from_le_bytes(b.subrange(off + 816, off + 824))
        &&& self.perp_last_trade_crncy_tokens == spec_i64_from_le_bytes(b.subrange(off + 824, off + 832))
        &&& self.perp_best_bid == spec_i64_from_le_bytes(b.subrange(off + 832, off + 840))
        &&& self.perp_best_ask == spec_i64_from_le_bytes(b.subrange(off + 840, off + 848))
        &&& self.perp_day_asset_tokens == spec_i64_from_le_bytes(b.subrange(off + 848, off + 856))
        &&& self.perp_day_crncy_tokens == spec_i64_from_le_bytes(b.subrange(off + 856, off + 864))
        &&& self.perp_day_low == spec_i64_from_le_bytes(b.subrange(off + 864, off + 872))
        &&& self.perp_day_high == spec_i64_from_le_bytes(b.subrange(off + 872, off + 880))
        &&& self.perp_prev_day_asset_tokens == spec_i64_from_le_bytes(b.subrange(off + 880, off + 888))
        &&& self.perp_prev_day_crncy_tokens == spec_i64_from_le_bytes(b.subrange(off + 888, off + 896))
        &&& self.perp_alltime_asset_tokens == spec_u64_from_le_bytes(b.subrange(off + 896, off + 904))
        &&& self.perp_alltime_crncy_tokens == spec_u64_from_le_bytes(b.subrange(off + 904, off + 912))
        &&& self.max_leverage == spec_u64_from_le_bytes(b.subrange(off + 912, off + 920))
        &&& self.liquidation_threshold == spec_u64_from_le_bytes(b.subrange(off + 920, off + 928))
        &&& self.seats_reserve == spec_i64_from_le_bytes(b.subrange(off + 928, off + 936))
        &&& self.reserved_value1 == spec_i64_from_le_bytes(b.subrange(off + 936, off + 944))
        &&& self.reserved_value2 == spec_i64_from_le_bytes(b.subrange(off + 944, off + 952))
        &&& self.reserved_value3 == spec_i64_from_le_bytes(b.subrange(off + 952, off + 960))
        &&& self.reserved_value4 == spec_i64_from_le_bytes(b.subrange(off + 960, off + 968))
        &&& self.reserved_value5 == spec_i64_from_le_bytes(b.subrange(off + 968, off + 976))
        &&& self.reserved_value6 == spec_i64_from_le_bytes(b.subrange(off + 976, off + 984))
        &&& self.reserved_value7 == spec_i64_from_le_bytes(b.subrange(off + 984, off + 992))
        &&& self.reserved_value8 == spec_i64_from_le_bytes(b.subrange(off + 992, off + 1000))
        &&& self.reserved_value9 == spec_i64_from_le_bytes(b.subrange(off + 1000, off + 1008))
        &&& self.reserved_value10 == spec_i64_from_le_bytes(b.subrange(off + 1008, off + 1016))
    }

    /// Whether this value is exactly what the `InstrAccountHeader` image
    /// that starts at byte offset `off` of the buffer holds.
    pub open spec fn matches_wire(self, b: Seq<u8>, off: int) -> bool {
        &&& self.matches_span0(b, off)
        &&& self.matches_span1(b, off)
        &&& self.matches_span2(b, off)
        &&& self.matches_span3(b, off)
    }

    #[verifier::rlimit(100)]
    #[verifier::spinoff_prover]
    pub fn read_at(b: &[u8], off: usize) -> (r: InstrAccountHeader)
        requires
            off + INSTR_ACCOUNT_HEADER_SIZE <= b@.len(),
        ensures
            r.matches_wire(b@, off as int),
    {
        let n = b.len();
        assert(off + 1016 <= n);
        InstrAccountHeader {
            discriminator: Discriminator::read_at(b, off),
            instr_id: InstrId(read_u32(b, off + 8)),
            asset_token_id: read_u32(b, off + 12),
            crncy_token_id: read_u32(b, off + 16),
            mask: read_u32(b, off + 20),
            asset_tokens: read_i64(b, off + 24),
            crncy_tokens: read_i64(b, off + 32),
            ps: read_i64(b, off + 40),
            pool_fees: read_i64(b, off + 48),
            last_px: read_i64(b, off + 56),
            last_close: read_i64(b, off + 64),
            alltime_trades: read_i64(b, off + 72),
            prev_day_trades: read_i64(b, off + 80),
            day_volatility: read_u64(b, off + 88),
            perp_last_px: read_i64(b, off + 96),
            perp_last_close: read_i64(b, off + 104),
            perp_alltime_trades: read_i64(b, off + 112),
            perp_prev_day_trades: read_i64(b, off + 120),
            perp_open_int: read_i64(b, off + 128),
            maps_address: Address::read_at(b, off + 136),
            perp_maps_address: Address::read_at(b, off + 168),
            lut_address: Address::read_at(b, off + 200),
            drv_count: read_u32(b, off + 232),
            asset_token_decs_count: read_u32(b, off + 236),
            crncy_token_decs_count: read_u32(b, off + 240),
            slot: read_u32(b, off + 244),
            creator: Address::read_at(b, off + 248),
            last_time: read_u32(b, off + 280),
            distrib_time: read_u32(b, off + 284),
            base_crncy_index: read_u32(b, off + 288),
            instance_counter: read_u32(b, off + 292),
            variance_counter: read_u32(b, off + 296),
            bids_tree_nodes_count: read_u32(b, off + 300),
            bids_tree_lines_entry: read_u32(b, off + 304),
            bids_tree_orders_entry: read_u32(b, off + 308),
            asks_tree_nodes_count: read_u32(b, off + 312),
            asks_tree_lines_entry: read_u32(b, off + 316),
            asks_tree_orders_entry: read_u32(b, off + 320),
            bid_lines_begin: read_u32(b, off + 324),
            bid_lines_end: read_u32(b, off + 328),
            bid_lines_count: read_u32(b, off + 332),
            ask_lines_begin: read_u32(b, off + 336),
            ask_lines_end: read_u32(b, off + 340),
            ask_lines_count: read_u32(b, off + 344),
            bid_orders_count: read_u32(b, off + 348),
            ask_orders_count: read_u32(b, off + 352),
            fixing_time: read_u32(b, off + 356),
            fixing_crncy_tokens: read_i64(b, off + 360),
            fixing_asset_tokens: read_i64(b, off + 368),
            counter: read_i64(b, off + 376),
            protocol_fees: read_i64(b, off + 384),
            hits_counter: read_i64(b, off + 392),
            last_asset_tokens: read_i64(b, off + 400),
            last_crncy_tokens: read_i64(b, off + 408),
            last_trade_asset_tokens: read_i64(b, off + 416),
            last_trade_crncy_tokens: read_i64(b, off + 424),
            perp_underlying_px: read_i64(b, off + 432),
            best_bid: read_i64(b, off + 440),
            best_ask: read_i64(b, off + 448),
            fixing_px: read_i64(b, off + 456),
            variance: read_u64(b, off + 464),
            avg_spread: read_u64(b, off + 472),
            last_spread: read_u64(b, off + 480),
            last_spread_time: read_u32(b, off + 488),
            total_spread_period: read_u32(b, off + 492),
            day_asset_tokens: read_i64(b, off + 496),
            day_crncy_tokens: read_i64(b, off + 504),
            day_low: read_i64(b, off + 512),
            day_high: read_i64(b, off + 520),
            prev_day_asset_tokens: read_i64(b, off + 528),
            prev_day_crncy_tokens: read_i64(b, off + 536),
            alltime_asset_tokens: read_u64(b, off + 544),
            alltime_crncy_tokens: read_u64(b, off + 552),
            day_trades: read_u32(b, off + 560),
            lp_day_trades: read_u32(b, off + 564),
            lp_alltime_fees: read_u64(b, off + 568),
            lp_day_fees: read_i64(b, off + 576),
            lp_prev_day_fees: read_i64(b, off + 584),
            lp_prev_day_trades: read_u32(b, off + 592),
            lp_time: read_u32(b, off + 596),
            fees_time: read_u32(b, off + 600),
            creation_time: read_u32(b, off + 604),
            day_fees: read_i64(b, off + 608),
            alltime_fees: read_u64(b, off + 616),
            prev_day_fees: read_i64(b, off + 624),
            dec_factor: read_i64(b, off + 632),
            perp_clients_count: read_u32(b, off + 640),
            perp_slot: read_u32(b, off + 644),
            perp_time: read_u32(b, off + 648),
            perp_funding_rate_slot: read_u32(b, off + 652),
            perp_funding_rate_time: read_u32(b, off + 656),
            perp_long_px_tree_nodes_count: read_u32(b, off + 660),
            perp_long_px_tree_entry: read_u32(b, off + 664),
            perp_short_px_tree_nodes_count: read_u32(b, off + 668),
            perp_short_px_tree_entry: read_u32(b, off + 672),
            perp_rebalance_time_tree_nodes_count: read_u32(b, off + 676),
            perp_rebalance_time_tree_entry: read_u32(b, off + 680),
            perp_bids_tree_nodes_count: read_u32(b, off + 684),
            perp_bids_tree_lines_entry: read_u32(b, off + 688),
            perp_bids_tree_orders_entry: read_u32(b, off + 692),
            perp_asks_tree_nodes_count: read_u32(b, off + 696),
            perp_asks_tree_lines_entry: read_u32(b, off + 700),
            perp_asks_tree_orders_entry: read_u32(b, off + 704),
            perp_bid_lines_begin: read_u32(b, off + 708),
            perp_bid_lines_end: read_u32(b, off + 712),
            perp_bid_lines_count: read_u32(b, off + 716),
            perp_ask_lines_begin: read_u32(b, off + 720),
            perp_ask_lines_end: read_u32(b, off + 724),
            perp_ask_lines_count: read_u32(b, off + 728),
            perp_bid_orders_count: read_u32(b, off + 732),
            perp_ask_orders_count: read_u32(b, off + 736),
            perp_day_trades: read_u32(b, off + 740),
            perp_long_spot_price_for_withdrowal: read_i64(b, off + 744),
            perp_short_spot_price_for_withdrowal: read_i64(b, off + 752),
            perp_soc_loss_long_rate: read_u64(b, off + 760),
            perp_soc_loss_short_rate: read_u64(b, off + 768),
            perp_price_delta: read_u64(b, off + 776),
            perp_funding_rate: read_u64(b, off + 784),
            perp_funding_funds: read_i64(b, off + 792),
            perp_soc_loss_funds: read_i64(b, off + 800),
            perp_insurance_fund: read_i64(b, off + 808),
            pepr_last_trade_asset_tokens: read_i64(b, off + 816),
            perp_last_trade_crncy_tokens: read_i64(b, off + 824),
            perp_best_bid: read_i64(b, off + 832),
            perp_best_ask: read_i64(b, off + 840),
            perp_day_asset_tokens: read_i64(b, off + 848),
            perp_day_crncy_tokens: read_i64(b, off + 856),
            perp_day_low: read_i64(b, off + 864),
            perp_day_high: read_i64(b, off + 872),
            perp_prev_day_asset_tokens: read_i64(b, off + 880),
            perp_prev_day_crncy_tokens: read_i64(b, off + 888),
            perp_alltime_asset_tokens: read_u64(b, off + 896),
            perp_alltime_crncy_tokens: read_u64(b, off + 904),
            max_leverage: read_u64(b, off + 912),
            liquidation_threshold: read_u64(b, off + 920),
            seats_reserve: read_i64(b, off + 928),
            reserved_value1: read_i64(b, off + 936),
            reserved_value2: read_i64(b, off + 944),
            reserved_value3: read_i64(b, off + 952),
            reserved_value4: read_i64(b, off + 960),
            reserved_value5: read_i64(b, off + 968),
            reserved_value6: read_i64(b, off + 976),
            reserved_value7: read_i64(b, off + 984),
            reserved_value8: read_i64(b, off + 992),
            reserved_value9: read_i64(b, off + 1000),
            reserved_value10: read_i64(b, off + 1008),
        }
    }

    /// Whether the instrument carries a perp market (its `PERP` mask bit).
    pub fn is_perp(&self) -> (r: bool)
        ensures
            r == (self.mask & INSTR_MASK_PERP != 0),
    {
        self.mask & INSTR_MASK_PERP != 0
    }

    /// Whether the previous price comes from an oracle (its `ORACLE` mask
    /// bit).
    pub fn has_oracle(&self) -> (r: bool)
        ensures
            r == (self.mask & INSTR_MASK_ORACLE != 0),
    {
        self.mask & INSTR_MASK_ORACLE != 0
    }

    /// Whether the instrument is flagged ready for its perp upgrade.
    pub fn ready_for_perp_upgrade(&self) -> (r: bool)
        ensures
            r == (self.mask & INSTR_MASK_READY_TO_PERP_UPGRADE != 0),
    {
        self.mask & INSTR_MASK_READY_TO_PERP_UPGRADE != 0
    }

    fn write_span0(&self, out: &mut Vec<u8>)
        requires
            old(out)@.len() >= 0,
        ensures
            final(out)@.len() == old(out)@.len() + 320,
            final(out)@.subrange(0, old(out)@.len() as int) == old(out)@,
            self.matches_span0(final(out)@, old(out)@.len() - 0),
    {
        let ghost base = out@;
        put_u32(out, self.discriminator.tag.0);
        put_u32(out, self.discriminator.version.0);
        put_u32(out, self.instr_id.0);
        put_u32(out, self.asset_token_id);
        put_u32(out, self.crncy_token_id);
        put_u32(out, self.mask);
        put_i64(out, self.asset_tokens);
        put_i64(out, self.crncy_tokens);
        put_i64(out, self.ps);
        put_i64(out, self.pool_fees);
        put_i64(out, self.last_px);
        put_i64(out, self.last_close);
        put_i64(out, self.alltime_trades);
        put_i64(out, self.prev_day_trades);
        put_u64(out, self.day_volatility);
        put_i64(out, self.perp_last_px);
        put_i64(out, self.perp_last_close);
        put_i64(out, self.perp_alltime_trades);
        put_i64(out, self.perp_prev_day_trades);
        put_i64(out, self.perp_open_int);
        self.maps_address.write(out);
        self.perp_maps_address.write(out);
        self.lut_address.write(out);
        put_u32(out, self.drv_count);
        put_u32(out, self.asset_token_decs_count);
        put_u32(out, self.crncy_token_decs_count);
        put_u32(out, self.slot);
        self.creator.write(out);
        put_u32(out, self.last_time);
        put_u32(out, self.distrib_time);
        put_u32(out, self.base_crncy_index);
        put_u32(out, self.instance_counter);
        put_u32(out, self.variance_counter);
        put_u32(out, self.bids_tree_nodes_count);
        put_u32(out, self.bids_tree_lines_entry);
        put_u32(out, self.bids_tree_orders_entry);
        put_u32(out, self.asks_tree_nodes_count);
        put_u32(out, self.asks_tree_lines_entry);
        proof {
            lemma_auto_spec_u16_to_from_le_bytes();
            lemma_auto_spec_u32_to_from_le_bytes();
            lemma_auto_spec_u64_to_from_le_bytes();
            lemma_auto_spec_i64_to_from_le_bytes();
            assert(out@ == base + spec_u32_to_le_bytes(self.discriminator.tag.0) + spec_u32_to_le_bytes(self.discriminator.version.0) + spec_u32_to_le_bytes(self.instr_id.0) + spec_u32_to_le_bytes(self.asset_token_id) + spec_u32_to_le_bytes(self.crncy_token_id) + spec_u32_to_le_bytes(self.mask) + spec_i64_to_le_bytes(self.asset_tokens) + spec_i64_to_le_bytes(self.crncy_tokens) + spec_i64_to_le_bytes(self.ps) + spec_i64_to_le_bytes(self.pool_fees) + spec_i64_to_le_bytes(self.last_px) + spec_i64_to_le_bytes(self.last_close) + spec_i64_to_le_bytes(self.alltime_trades) + spec_i64_to_le_bytes(self.prev_day_trades) + spec_u64_to_le_bytes(self.day_volatility) + spec_i64_to_le_bytes(self.perp_last_px) + spec_i64_to_le_bytes(self.perp_last_close) + spec_i64_to_le_bytes(self.perp_alltime_trades) + spec_i64_to_le_bytes(self.perp_prev_day_trades) + spec_i64_to_le_bytes(self.perp_open_int) + self.maps_address.0@ + self.perp_maps_address.0@ + self.lut_address.0@ + spec_u32_to_le_bytes(self.drv_count) + spec_u32_to_le_bytes(self.asset_token_decs_count) + spec_u32_to_le_bytes(self.crncy_token_decs_count) + spec_u32_to_le_bytes(self.slot) + self.creator.0@ + spec_u32_to_le_bytes(self.last_time) + spec_u32_to_le_bytes(self.distrib_time) + spec_u32_to_le_bytes(self.base_crncy_index) + spec_u32_to_le_bytes(self.instance_counter) + spec_u32_to_le_bytes(self.variance_counter) + spec_u32_to_le_bytes(self.bids_tree_nodes_count) + spec_u32_to_le_bytes(self.bids_tree_lines_entry) + spec_u32_to_le_bytes(self.bids_tree_orders_entry) + spec_u32_to_le_bytes(self.asks_tree_nodes_count) + spec_u32_to_le_bytes(self.asks_tree_lines_entry));
            assert(out@.subrange(base.len() as int, base.len() as int + 4) =~= spec_u32_to_le_bytes(self.discriminator.tag.0));
            assert(out@.subrange(base.len() as int + 4, base.len() as int + 8) =~= spec_u32_to_le_bytes(self.discriminator.version.0));
            assert(out@.subrange(base.len() as int + 8, base.len() as int + 12) =~= spec_u32_to_le_bytes(self.instr_id.0));
            assert(out@.subrange(base.len() as int + 12, base.len() as int + 16) =~= spec_u32_to_le_bytes(self.asset_token_id));
            assert(out@.subrange(base.len() as int + 16, base.len() as int + 20) =~= spec_u32_to_le_bytes(self.crncy_token_id));
            assert(out@.subrange(base.len() as int + 20, base.len() as int + 24) =~= spec_u32_to_le_bytes(self.mask));
            assert(out@.subrange(base.len() as int + 24, base.len() as int + 32) =~= spec_i64_to_le_bytes(self.asset_tokens));
            assert(out@.subrange(base.len() as int + 32, base.len() as int + 40) =~= spec_i64_to_le_bytes(self.crncy_tokens));
            assert(out@.subrange(base.len() as int + 40, base.len() as int + 48) =~= spec_i64_to_le_bytes(self.ps));
            assert(out@.subrange(base.len() as int + 48, base.len() as int + 56) =~= spec_i64_to_le_bytes(self.pool_fees));
            assert(out@.subrange(base.len() as int + 56, base.len() as int + 64) =~= spec_i64_to_le_bytes(self.last_px));
            assert(out@.subrange(base.len() as int + 64, base.len() as int + 72) =~= spec_i64_to_le_bytes(self.last_close));
            assert(out@.subrange(base.len() as int + 72, base.len() as int + 80) =~= spec_i64_to_le_bytes(self.alltime_trades));
            assert(out@.subrange(base.len() as int + 80, base.len() as int + 88) =~= spec_i64_to_le_bytes(self.prev_day_trades));
            assert(out@.subrange(base.len() as int + 88, base.len() as int + 96) =~= spec_u64_to_le_bytes(self.day_volatility));
            assert(out@.subrange(base.len() as int + 96, base.len() as int + 104) =~= spec_i64_to_le_bytes(self.perp_last_px));
            assert(out@.subrange(base.len() as int + 104, base.len() as int + 112) =~= spec_i64_to_le_bytes(self.perp_last_close));
            assert(out@.subrange(base.len() as int + 112, base.len() as int + 120) =~= spec_i64_to_le_bytes(self.perp_alltime_trades));
            assert(out@.subrange(base.len() as int + 120, base.len() as int + 128) =~= spec_i64_to_le_bytes(self.perp_prev_day_trades));
            assert(out@.subrange(base.len() as int + 128, base.len() as int + 136) =~= spec_i64_to_le_bytes(self.perp_open_int));
            assert(out@.subrange(base.len() as int + 136, base.len() as int + 168) =~= self.maps_address.0@);
            assert(out@.subrange(base.len() as int + 168, base.len() as int + 200) =~= self.perp_maps_address.0@);
            assert(out@.subrange(base.len() as int + 200, base.len() as int + 232) =~= self.lut_address.0@);
            assert(out@.subrange(base.len() as int + 232, base.len() as int + 236) =~= spec_u32_to_le_bytes(self.drv_count));
            assert(out@.subrange(base.len() as int + 236, base.len() as int + 240) =~= spec_u32_to_le_bytes(self.asset_token_decs_count));
            assert(out@.subrange(base.len() as int + 240, base.len() as int + 244) =~= spec_u32_to_le_bytes(self.crncy_token_decs_count));
            assert(out@.subrange(base.len() as int + 244, base.len() as int + 248) =~= spec_u32_to_le_bytes(self.slot));
            assert(out@.subrange(base.len() as int + 248, base.len() as int + 280) =~= self.creator.0@);
            assert(out@.subrange(base.len() as int + 280, base.len() as int + 284) =~= spec_u32_to_le_bytes(self.last_time));
            assert(out@.subrange(base.len() as int + 284, base.len() as int + 288) =~= spec_u32_to_le_bytes(self.distrib_time));
            assert(out@.subrange(base.len() as int + 288, base.len() as int + 292) =~= spec_u32_to_le_bytes(self.base_crncy_index));
            assert(out@.subrange(base.len() as int + 292, base.len() as int + 296) =~= spec_u32_to_le_bytes(self.instance_counter));
            assert(out@.subrange(base.len() as int + 296, base.len() as int + 300) =~= spec_u32_to_le_bytes(self.variance_counter));
            assert(out@.subrange(base.len() as int + 300, base.len() as int + 304) =~= spec_u32_to_le_bytes(self.bids_tree_nodes_count));
            assert(out@.subrange(base.len() as int + 304, base.len() as int + 308) =~= spec_u32_to_le_bytes(self.bids_tree_lines_entry));
            assert(out@.subrange(base.len() as int + 308, base.len() as int + 312) =~= spec_u32_to_le_bytes(self.bids_tree_orders_entry));
            assert(out@.subrange(base.len() as int + 312, base.len() as int + 316) =~= spec_u32_to_le_bytes(self.asks_tree_nodes_count));
            assert(out@.subrange(base.len() as int + 316, base.len() as int + 320) =~= spec_u32_to_le_bytes(self.asks_tree_lines_entry));
            assert(out@.subrange(0, base.len() as int) =~= base);
            assert(self.matches_span0(out@, base.len() - 0));
        }
    }

    fn write_span1(&self, out: &mut Vec<u8>)
        requires
            old(out)@.len() >= 320,
        ensures
            final(out)@.len() == old(out)@.len() + 244,
            final(out)@.subrange(0, old(out)@.len() as int) == old(out)@,
            self.matches_span1(final(out)@, old(out)@.len() - 320),
    {
        let ghost base = out@;
        put_u32(out, self.asks_tree_orders_entry);
        put_u32(out, self.bid_lines_begin);
        put_u32(out, self.bid_lines_end);
        put_u32(out, self.bid_lines_count);
        put_u32(out, self.ask_lines_begin);
        put_u32(out, self.ask_lines_end);
        put_u32(out, self.ask_lines_count);
        put_u32(out, self.bid_orders_count);
        put_u32(out, self.ask_orders_count);
        put_u32(out, self.fixing_time);
        put_i64(out, self.fixing_crncy_tokens);
        put_i64(out, self.fixing_asset_tokens);
        put_i64(out, self.counter);
        put_i64(out, self.protocol_fees);
        put_i64(out, self.hits_counter);
        put_i64(out, self.last_asset_tokens);
        put_i64(out, self.last_crncy_tokens);
        put_i64(out, self.last_trade_asset_tokens);
        put_i64(out, self.last_trade_crncy_tokens);
        put_i64(out, self.perp_underlying_px);
        put_i64(out, self.best_bid);
        put_i64(out, self.best_ask);
        put_i64(out, self.fixing_px);
        put_u64(out, self.variance);
        put_u64(out, self.avg_spread);
        put_u64(out, self.last_spread);
        put_u32(out, self.last_spread_time);
        put_u32(out, self.total_spread_period);
        put_i64(out, self.day_asset_tokens);
        put_i64(out, self.day_crncy_tokens);
        put_i64(out, self.day_low);
        put_i64(out, self.day_high);
        put_i64(out, self.prev_day_asset_tokens);
        put_i64(out, self.prev_day_crncy_tokens);
        put_u64(out, self.alltime_asset_tokens);
        put_u64(out, self.alltime_crncy_tokens);
        put_u32(out, self.day_trades);
        proof {
            lemma_auto_spec_u16_to_from_le_bytes();
            lemma_auto_spec_u32_to_from_le_bytes();
            lemma_auto_spec_u64_to_from_le_bytes();
            lemma_auto_spec_i64_to_from_le_bytes();
            assert(out@ == base + spec_u32_to_le_bytes(self.asks_tree_orders_entry) + spec_u32_to_le_bytes(self.bid_lines_begin) + spec_u32_to_le_bytes(self.bid_lines_end) + spec_u32_to_le_bytes(self.bid_lines_count) + spec_u32_to_le_bytes(self.ask_lines_begin) + spec_u32_to_le_bytes(self.ask_lines_end) + spec_u32_to_le_bytes(self.ask_lines_count) + spec_u32_to_le_bytes(self.bid_orders_count) + spec_u32_to_le_bytes(self.ask_orders_count) + spec_u32_to_le_bytes(self.fixing_time) + spec_i64_to_le_bytes(self.fixing_crncy_tokens) + spec_i64_to_le_bytes(self.fixing_asset_tokens) + spec_i64_to_le_bytes(self.counter) + spec_i64_to_le_bytes(self.protocol_fees) + spec_i64_to_le_bytes(self.hits_counter) + spec_i64_to_le_bytes(self.last_asset_tokens) + spec_i64_to_le_bytes(self.last_crncy_tokens) + spec_i64_to_le_bytes(self.last_trade_asset_tokens) + spec_i64_to_le_bytes(self.last_trade_crncy_tokens) + spec_i64_to_le_bytes(self.perp_underlying_px) + spec_i64_to_le_bytes(self.best_bid) + spec_i64_to_le_bytes(self.best_ask) + spec_i64_to_le_bytes(self.fixing_px) + spec_u64_to_le_bytes(self.variance) + spec_u64_to_le_bytes(self.avg_spread) + spec_u64_to_le_bytes(self.last_spread) + spec_u32_to_le_bytes(self.last_spread_time) + spec_u32_to_le_bytes(self.total_spread_period) + spec_i64_to_le_bytes(self.day_asset_tokens) + spec_i64_to_le_bytes(self.day_crncy_tokens) + spec_i64_to_le_bytes(self.day_low) + spec_i64_to_le_bytes(self.day_high) + spec_i64_to_le_bytes(self.prev_day_asset_tokens) + spec_i64_to_le_bytes(self.prev_day_crncy_tokens) + spec_u64_to_le_bytes(self.alltime_asset_tokens) + spec_u64_to_le_bytes(self.alltime_crncy_tokens) + spec_u32_to_le_bytes(self.day_trades));
            assert(out@.subrange(base.len() as int, base.len() as int + 4) =~= spec_u32_to_le_bytes(self.asks_tree_orders_entry));
            assert(out@.subrange(base.len() as int + 4, base.len() as int + 8) =~= spec_u32_to_le_bytes(self.bid_lines_begin));
            assert(out@.subrange(base.len() as int + 8, base.len() as int + 12) =~= spec_u32_to_le_bytes(self.bid_lines_end));
            assert(out@.subrange(base.len() as int + 12, base.len() as int + 16) =~= spec_u32_to_le_bytes(self.bid_lines_count));
            assert(out@.subrange(base.len() as int + 16, base.len() as int + 20) =~= spec_u32_to_le_bytes(self.ask_lines_begin));
            assert(out@.subrange(base.len() as int + 20, base.len() as int + 24) =~= spec_u32_to_le_bytes(self.ask_lines_end));
            assert(out@.subrange(base.len() as int + 24, base.len() as int + 28) =~= spec_u32_to_le_bytes(self.ask_lines_count));
            assert(out@.subrange(base.len() as int + 28, base.len() as int + 32) =~= spec_u32_to_le_bytes(self.bid_orders_count));
            assert(out@.subrange(base.len() as int + 32, base.len() as int + 36) =~= spec_u32_to_le_bytes(self.ask_orders_count));
            assert(out@.subrange(base.len() as int + 36, base.len() as int + 40) =~= spec_u32_to_le_bytes(self.fixing_time));
            assert(out@.subrange(base.len() as int + 40, base.len() as int + 48) =~= spec_i64_to_le_bytes(self.fixing_crncy_tokens));
            assert(out@.subrange(base.len() as int + 48, base.len() as int + 56) =~= spec_i64_to_le_bytes(self.fixing_asset_tokens));
            assert(out@.subrange(base.len() as int + 56, base.len() as int + 64) =~= spec_i64_to_le_bytes(self.counter));
            assert(out@.subrange(base.len() as int + 64, base.len() as int + 72) =~= spec_i64_to_le_bytes(self.protocol_fees));
            assert(out@.subrange(base.len() as int + 72, base.len() as int + 80) =~= spec_i64_to_le_bytes(self.hits_counter));
            assert(out@.subrange(base.len() as int + 80, base.len() as int + 88) =~= spec_i64_to_le_bytes(self.last_asset_tokens));
            assert(out@.subrange(base.len() as int + 88, base.len() as int + 96) =~= spec_i64_to_le_bytes(self.last_crncy_tokens));
            assert(out@.subrange(base.len() as int + 96, base.len() as int + 104) =~= spec_i64_to_le_bytes(self.last_trade_asset_tokens));
            assert(out@.subrange(base.len() as int + 104, base.len() as int + 112) =~= spec_i64_to_le_bytes(self.last_trade_crncy_tokens));
            assert(out@.subrange(base.len() as int + 112, base.len() as int + 120) =~= spec_i64_to_le_bytes(self.perp_underlying_px));
            assert(out@.subrange(base.len() as int + 120, base.len() as int + 128) =~= spec_i64_to_le_bytes(self.best_bid));
            assert(out@.subrange(base.len() as int + 128, base.len() as int + 136) =~= spec_i64_to_le_bytes(self.best_ask));
            assert(out@.subrange(base.len() as int + 136, base.len() as int + 144) =~= spec_i64_to_le_bytes(self.fixing_px));
            assert(out@.subrange(base.len() as int + 144, base.len() as int + 152) =~= spec_u64_to_le_bytes(self.variance));
            assert(out@.subrange(base.len() as int + 152, base.len() as int + 160) =~= spec_u64_to_le_bytes(self.avg_spread));
            assert(out@.subrange(base.len() as int + 160, base.len() as int + 168) =~= spec_u64_to_le_bytes(self.last_spread));
            assert(out@.subrange(base.len() as int + 168, base.len() as int + 172) =~= spec_u32_to_le_bytes(self.last_spread_time));
            assert(out@.subrange(base.len() as int + 172, base.len() as int + 176) =~= spec_u32_to_le_bytes(self.total_spread_period));
            assert(out@.subrange(base.len() as int + 176, base.len() as int + 184) =~= spec_i64_to_le_bytes(self.day_asset_tokens));
            assert(out@.subrange(base.len() as int + 184, base.len() as int + 192) =~= spec_i64_to_le_bytes(self.day_crncy_tokens));
            assert(out@.subrange(base.len() as int + 192, base.len() as int + 200) =~= spec_i64_to_le_bytes(self.day_low));
            assert(out@.subrange(base.len() as int + 200, base.len() as int + 208) =~= spec_i64_to_le_bytes(self.day_high));
            assert(out@.subrange(base.len() as int + 208, base.len() as int + 216) =~= spec_i64_to_le_bytes(self.prev_day_asset_tokens));
            assert(out@.subrange(base.len() as int + 216, base.len() as int + 224) =~= spec_i64_to_le_bytes(self.prev_day_crncy_tokens));
            assert(out@.subrange(base.len() as int + 224, base.len() as int + 232) =~= spec_u64_to_le_bytes(self.alltime_asset_tokens));
            assert(out@.subrange(base.len() as int + 232, base.len() as int + 240) =~= spec_u64_to_le_bytes(self.alltime_crncy_tokens));
            assert(out@.subrange(base.len() as int + 240, base.len() as int + 244) =~= spec_u32_to_le_bytes(self.day_trades));
            assert(out@.subrange(0, base.len() as int) =~= base);
            assert(self.matches_span1(out@, base.len() - 320));
        }
    }

    fn write_span2(&self, out: &mut Vec<u8>)
        requires
            old(out)@.len() >= 564,
        ensures
            final(out)@.len() == old(out)@.len() + 176,
            final(out)@.subrange(0, old(out)@.len() as int) == old(out)@,
            self.matches_span2(final(out)@, old(out)@.len() - 564),
    {
        let ghost base = out@;
        put_u32(out, self.lp_day_trades);
        put_u64(out, self.lp_alltime_fees);
        put_i64(out, self.lp_day_fees);
        put_i64(out, self.lp_prev_day_fees);
        put_u32(out, self.lp_prev_day_trades);
        put_u32(out, self.lp_time);
        put_u32(out, self.fees_time);
        put_u32(out, self.creation_time);
        put_i64(out, self.day_fees);
        put_u64(out, self.alltime_fees);
        put_i64(out, self.prev_day_fees);
        put_i64(out, self.dec_factor);
        put_u32(out, self.perp_clients_count);
        put_u32(out, self.perp_slot);
        put_u32(out, self.perp_time);
        put_u32(out, self.perp_funding_rate_slot);
        put_u32(out, self.perp_funding_rate_time);
        put_u32(out, self.perp_long_px_tree_nodes_count);
        put_u32(out, self.perp_long_px_tree_entry);
        put_u32(out, self.perp_short_px_tree_nodes_count);
        put_u32(out, self.perp_short_px_tree_entry);
        put_u32(out, self.perp_rebalance_time_tree_nodes_count);
        put_u32(out, self.perp_rebalance_time_tree_entry);
        put_u32(out, self.perp_bids_tree_nodes_count);
        put_u32(out, self.perp_bids_tree_lines_entry);
        put_u32(out, self.perp_bids_tree_orders_entry);
        put_u32(out, self.perp_asks_tree_nodes_count);
        put_u32(out, self.perp_asks_tree_lines_entry);
        put_u32(out, self.perp_asks_tree_orders_entry);
        put_u32(out, self.perp_bid_lines_begin);
        put_u32(out, self.perp_bid_lines_end);
        put_u32(out, self.perp_bid_lines_count);
        put_u32(out, self.perp_ask_lines_begin);
        put_u32(out, self.perp_ask_lines_end);
        put_u32(out, self.perp_ask_lines_count);
        put_u32(out, self.perp_bid_orders_count);
        put_u32(out, self.perp_ask_orders_count);
        proof {
            lemma_auto_spec_u16_to_from_le_bytes();
            lemma_auto_spec_u32_to_from_le_bytes();
            lemma_auto_spec_u64_to_from_le_bytes();
            lemma_auto_spec_i64_to_from_le_bytes();
            assert(out@ == base + spec_u32_to_le_bytes(self.lp_day_trades) + spec_u64_to_le_bytes(self.lp_alltime_fees) + spec_i64_to_le_bytes(self.lp_day_fees) + spec_i64_to_le_bytes(self.lp_prev_day_fees) + spec_u32_to_le_bytes(self.lp_prev_day_trades) + spec_u32_to_le_bytes(self.lp_time) + spec_u32_to_le_bytes(self.fees_time) + spec_u32_to_le_bytes(self.creation_time) + spec_i64_to_le_bytes(self.day_fees) + spec_u64_to_le_bytes(self.alltime_fees) + spec_i64_to_le_bytes(self.prev_day_fees) + spec_i64_to_le_bytes(self.dec_factor) + spec_u32_to_le_bytes(self.perp_clients_count) + spec_u32_to_le_bytes(self.perp_slot) + spec_u32_to_le_bytes(self.perp_time) + spec_u32_to_le_bytes(self.perp_funding_rate_slot) + spec_u32_to_le_bytes(self.perp_funding_rate_time) + spec_u32_to_le_bytes(self.perp_long_px_tree_nodes_count) + spec_u32_to_le_bytes(self.perp_long_px_tree_entry) + spec_u32_to_le_bytes(self.perp_short_px_tree_nodes_count) + spec_u32_to_le_bytes(self.perp_short_px_tree_entry) + spec_u32_to_le_bytes(self.perp_rebalance_time_tree_nodes_count) + spec_u32_to_le_bytes(self.perp_rebalance_time_tree_entry) + spec_u32_to_le_bytes(self.perp_bids_tree_nodes_count) + spec_u32_to_le_bytes(self.perp_bids_tree_lines_entry) + spec_u32_to_le_bytes(self.perp_bids_tree_orders_entry) + spec_u32_to_le_bytes(self.perp_asks_tree_nodes_count) + spec_u32_to_le_bytes(self.perp_asks_tree_lines_entry) + spec_u32_to_le_bytes(self.perp_asks_tree_orders_entry) + spec_u32_to_le_bytes(self.perp_bid_lines_begin) + spec_u32_to_le_bytes(self.perp_bid_lines_end) + spec_u32_to_le_bytes(self.perp_bid_lines_count) + spec_u32_to_le_bytes(self.perp_ask_lines_begin) + spec_u32_to_le_bytes(self.perp_ask_lines_end) + spec_u32_to_le_bytes(self.perp_ask_lines_count) + spec_u32_to_le_bytes(self.perp_bid_orders_count) + spec_u32_to_le_bytes(self.perp_ask_orders_count));
            assert(out@.subrange(base.len() as int, base.len() as int + 4) =~= spec_u32_to_le_bytes(self.lp_day_trades));
            assert(out@.subrange(base.len() as int + 4, base.len() as int + 12) =~= spec_u64_to_le_bytes(self.lp_alltime_fees));
            assert(out@.subrange(base.len() as int + 12, base.len() as int + 20) =~= spec_i64_to_le_bytes(self.lp_day_fees));
            assert(out@.subrange(base.len() as int + 20, base.len() as int + 28) =~= spec_i64_to_le_bytes(self.lp_prev_day_fees));
            assert(out@.subrange(base.len() as int + 28, base.len() as int + 32) =~= spec_u32_to_le_bytes(self.lp_prev_day_trades));
            assert(out@.subrange(base.len() as int + 32, base.len() as int + 36) =~= spec_u32_to_le_bytes(self.lp_time));
            assert(out@.subrange(base.len() as int + 36, base.len() as int + 40) =~= spec_u32_to_le_bytes(self.fees_time));
            assert(out@.subrange(base.len() as int + 40, base.len() as int + 44) =~= spec_u32_to_le_bytes(self.creation_time));
            assert(out@.subrange(base.len() as int + 44, base.len() as int + 52) =~= spec_i64_to_le_bytes(self.day_fees));
            assert(out@.subrange(base.len() as int + 52, base.len() as int + 60) =~= spec_u64_to_le_bytes(self.alltime_fees));
            assert(out@.subrange(base.len() as int + 60, base.len() as int + 68) =~= spec_i64_to_le_bytes(self.prev_day_fees));
            assert(out@.subrange(base.len() as int + 68, base.len() as int + 76) =~= spec_i64_to_le_bytes(self.dec_factor));
            assert(out@.subrange(base.len() as int + 76, base.len() as int + 80) =~= spec_u32_to_le_bytes(self.perp_clients_count));
            assert(out@.subrange(base.len() as int + 80, base.len() as int + 84) =~= spec_u32_to_le_bytes(self.perp_slot));
            assert(out@.subrange(base.len() as int + 84, base.len() as int + 88) =~= spec_u32_to_le_bytes(self.perp_time));
            assert(out@.subrange(base.len() as int + 88, base.len() as int + 92) =~= spec_u32_to_le_bytes(self.perp_funding_rate_slot));
            assert(out@.subrange(base.len() as int + 92, base.len() as int + 96) =~= spec_u32_to_le_bytes(self.perp_funding_rate_time));
            assert(out@.subrange(base.len() as int + 96, base.len() as int + 100) =~= spec_u32_to_le_bytes(self.perp_long_px_tree_nodes_count));
            assert(out@.subrange(base.len() as int + 100, base.len() as int + 104) =~= spec_u32_to_le_bytes(self.perp_long_px_tree_entry));
            assert(out@.subrange(base.len() as int + 104, base.len() as int + 108) =~= spec_u32_to_le_bytes(self.perp_short_px_tree_nodes_count));
            assert(out@.subrange(base.len() as int + 108, base.len() as int + 112) =~= spec_u32_to_le_bytes(self.perp_short_px_tree_entry));
            assert(out@.subrange(base.len() as int + 112, base.len() as int + 116) =~= spec_u32_to_le_bytes(self.perp_rebalance_time_tree_nodes_count));
            assert(out@.subrange(base.len() as int + 116, base.len() as int + 120) =~= spec_u32_to_le_bytes(self.perp_rebalance_time_tree_entry));
            assert(out@.subrange(base.len() as int + 120, base.len() as int + 124) =~= spec_u32_to_le_bytes(self.perp_bids_tree_nodes_count));
            assert(out@.subrange(base.len() as int + 124, base.len() as int + 128) =~= spec_u32_to_le_bytes(self.perp_bids_tree_lines_entry));
            assert(out@.subrange(base.len() as int + 128, base.len() as int + 132) =~= spec_u32_to_le_bytes(self.perp_bids_tree_orders_entry));
            assert(out@.subrange(base.len() as int + 132, base.len() as int + 136) =~= spec_u32_to_le_bytes(self.perp_asks_tree_nodes_count));
            assert(out@.subrange(base.len() as int + 136, base.len() as int + 140) =~= spec_u32_to_le_bytes(self.perp_asks_tree_lines_entry));
            assert(out@.subrange(base.len() as int + 140, base.len() as int + 144) =~= spec_u32_to_le_bytes(self.perp_asks_tree_orders_entry));
            assert(out@.subrange(base.len() as int + 144, base.len() as int + 148) =~= spec_u32_to_le_bytes(self.perp_bid_lines_begin));
            assert(out@.subrange(base.len() as int + 148, base.len() as int + 152) =~= spec_u32_to_le_bytes(self.perp_bid_lines_end));
            assert(out@.subrange(base.len() as int + 152, base.len() as int + 156) =~= spec_u32_to_le_bytes(self.perp_bid_lines_count));
            assert(out@.subrange(base.len() as int + 156, base.len() as int + 160) =~= spec_u32_to_le_bytes(self.perp_ask_lines_begin));
            assert(out@.subrange(base.len() as int + 160, base.len() as int + 164) =~= spec_u32_to_le_bytes(self.perp_ask_lines_end));
            assert(out@.subrange(base.len() as int + 164, base.len() as int + 168) =~= spec_u32_to_le_bytes(self.perp_ask_lines_count));
            assert(out@.subrange(base.len() as int + 168, base.len() as int + 172) =~= spec_u32_to_le_bytes(self.perp_bid_orders_count));
            assert(out@.subrange(base.len() as int + 172, base.len() as int + 176) =~= spec_u32_to_le_bytes(self.perp_ask_orders_count));
            assert(out@.subrange(0, base.len() as int) =~= base);
            assert(self.matches_span2(out@, base.len() - 564));
        }
    }

    fn write_span3(&self, out: &mut Vec<u8>)
        requires
            old(out)@.len() >= 740,
        ensures
            final(out)@.len() == old(out)@.len() + 276,
            final(out)@.subrange(0, old(out)@.len() as int) == old(out)@,
            self.matches_span3(final(out)@, old(out)@.len() - 740),
    {
        let ghost base = out@;
        put_u32(out, self.perp_day_trades);
        put_i64(out, self.perp_long_spot_price_for_withdrowal);
        put_i64(out, self.perp_short_spot_price_for_withdrowal);
        put_u64(out, self.perp_soc_loss_long_rate);
        put_u64(out, self.perp_soc_loss_short_rate);
        put_u64(out, self.perp_price_delta);
        put_u64(out, self.perp_funding_rate);
        put_i64(out, self.perp_funding_funds);
        put_i64(out, self.perp_soc_loss_funds);
        put_i64(out, self.perp_insurance_fund);
        put_i64(out, self.pepr_last_trade_asset_tokens);
        put_i64(out, self.perp_last_trade_crncy_tokens);
        put_i64(out, self.perp_best_bid);
        put_i64(out, self.perp_best_ask);
        put_i64(out, self.perp_day_asset_tokens);
        put_i64(out, self.perp_day_crncy_tokens);
        put_i64(out, self.perp_day_low);
        put_i64(out, self.perp_day_high);
        put_i64(out, self.perp_prev_day_asset_tokens);
        put_i64(out, self.perp_prev_day_crncy_tokens);
        put_u64(out, self.perp_alltime_asset_tokens);
        put_u64(out, self.perp_alltime_crncy_tokens);
        put_u64(out, self.max_leverage);
        put_u64(out, self.liquidation_threshold);
        put_i64(out, self.seats_reserve);
        put_i64(out, self.reserved_value1);
        put_i64(out, self.reserved_value2);
        put_i64(out, self.reserved_value3);
        put_i64(out, self.reserved_value4);
        put_i64(out, self.reserved_value5);
        put_i64(out, self.reserved_value6);
        put_i64(out, self.reserved_value7);
        put_i64(out, self.reserved_value8);
        put_i64(out, self.reserved_value9);
        put_i64(out, self.reserved_value10);
        proof {
            lemma_auto_spec_u16_to_from_le_bytes();
            lemma_auto_spec_u32_to_from_le_bytes();
            lemma_auto_spec_u64_to_from_le_bytes();
            lemma_auto_spec_i64_to_from_le_bytes();
            assert(out@ == base + spec_u32_to_le_bytes(self.perp_day_trades) + spec_i64_to_le_bytes(self.perp_long_spot_price_for_withdrowal) + spec_i64_to_le_bytes(self.perp_short_spot_price_for_withdrowal) + spec_u64_to_le_bytes(self.perp_soc_loss_long_rate) + spec_u64_to_le_bytes(self.perp_soc_loss_short_rate) + spec_u64_to_le_bytes(self.perp_price_delta) + spec_u64_to_le_bytes(self.perp_funding_rate) + spec_i64_to_le_bytes(self.perp_funding_funds) + spec_i64_to_le_bytes(self.perp_soc_loss_funds) + spec_i64_to_le_bytes(self.perp_insurance_fund) + spec_i64_to_le_bytes(self.pepr_last_trade_asset_tokens) + spec_i64_to_le_bytes(self.perp_last_trade_crncy_tokens) + spec_i64_to_le_bytes(self.perp_best_bid) + spec_i64_to_le_bytes(self.perp_best_ask) + spec_i64_to_le_bytes(self.perp_day_asset_tokens) + spec_i64_to_le_bytes(self.perp_day_crncy_tokens) + spec_i64_to_le_bytes(self.perp_day_low) + spec_i64_to_le_bytes(self.perp_day_high) + spec_i64_to_le_bytes(self.perp_prev_day_asset_tokens) + spec_i64_to_le_bytes(self.perp_prev_day_crncy_tokens) + spec_u64_to_le_bytes(self.perp_alltime_asset_tokens) + spec_u64_to_le_bytes(self.perp_alltime_crncy_tokens) + spec_u64_to_le_bytes(self.max_leverage) + spec_u64_to_le_bytes(self.liquidation_threshold) + spec_i64_to_le_bytes(self.seats_reserve) + spec_i64_to_le_bytes(self.reserved_value1) + spec_i64_to_le_bytes(self.reserved_value2) + spec_i64_to_le_bytes(self.reserved_value3) + spec_i64_to_le_bytes(self.reserved_value4) + spec_i64_to_le_bytes(self.reserved_value5) + spec_i64_to_le_bytes(self.reserved_value6) + spec_i64_to_le_bytes(self.reserved_value7) + spec_i64_to_le_bytes(self.reserved_value8) + spec_i64_to_le_bytes(self.reserved_value9) + spec_i64_to_le_bytes(self.reserved_value10));
            assert(out@.subrange(base.len() as int, base.len() as int + 4) =~= spec_u32_to_le_bytes(self.perp_day_trades));
            assert(out@.subrange(base.len() as int + 4, base.len() as int + 12) =~= spec_i64_to_le_bytes(self.perp_long_spot_price_for_withdrowal));
            assert(out@.subrange(base.len() as int + 12, base.len() as int + 20) =~= spec_i64_to_le_bytes(self.perp_short_spot_price_for_withdrowal));
            assert(out@.subrange(base.len() as int + 20, base.len() as int + 28) =~= spec_u64_to_le_bytes(self.perp_soc_loss_long_rate));
            assert(out@.subrange(base.len() as int + 28, base.len() as int + 36) =~= spec_u64_to_le_bytes(self.perp_soc_loss_short_rate));
            assert(out@.subrange(base.len() as int + 36, base.len() as int + 44) =~= spec_u64_to_le_bytes(self.perp_price_delta));
            assert(out@.subrange(base.len() as int + 44, base.len() as int + 52) =~= spec_u64_to_le_bytes(self.perp_funding_rate));
            assert(out@.subrange(base.len() as int + 52, base.len() as int + 60) =~= spec_i64_to_le_bytes(self.perp_funding_funds));
            assert(out@.subrange(base.len() as int + 60, base.len() as int + 68) =~= spec_i64_to_le_bytes(self.perp_soc_loss_funds));
            assert(out@.subrange(base.len() as int + 68, base.len() as int + 76) =~= spec_i64_to_le_bytes(self.perp_insurance_fund));
            assert(out@.subrange(base.len() as int + 76, base.len() as int + 84) =~= spec_i64_to_le_bytes(self.pepr_last_trade_asset_tokens));
            assert(out@.subrange(base.len() as int + 84, base.len() as int + 92) =~= spec_i64_to_le_bytes(self.perp_last_trade_crncy_tokens));
            assert(out@.subrange(base.len() as int + 92, base.len() as int + 100) =~= spec_i64_to_le_bytes(self.perp_best_bid));
            assert(out@.subrange(base.len() as int + 100, base.len() as int + 108) =~= spec_i64_to_le_bytes(self.perp_best_ask));
            assert(out@.subrange(base.len() as int + 108, base.len() as int + 116) =~= spec_i64_to_le_bytes(self.perp_day_asset_tokens));
            assert(out@.subrange(base.len() as int + 116, base.len() as int + 124) =~= spec_i64_to_le_bytes(self.perp_day_crncy_tokens));
            assert(out@.subrange(base.len() as int + 124, base.len() as int + 132) =~= spec_i64_to_le_bytes(self.perp_day_low));
            assert(out@.subrange(base.len() as int + 132, base.len() as int + 140) =~= spec_i64_to_le_bytes(self.perp_day_high));
            assert(out@.subrange(base.len() as int + 140, base.len() as int + 148) =~= spec_i64_to_le_bytes(self.perp_prev_day_asset_tokens));
            assert(out@.subrange(base.len() as int + 148, base.len() as int + 156) =~= spec_i64_to_le_bytes(self.perp_prev_day_crncy_tokens));
            assert(out@.subrange(base.len() as int + 156, base.len() as int + 164) =~= spec_u64_to_le_bytes(self.perp_alltime_asset_tokens));
            assert(out@.subrange(base.len() as int + 164, base.len() as int + 172) =~= spec_u64_to_le_bytes(self.perp_alltime_crncy_tokens));
            assert(out@.subrange(base.len() as int + 172, base.len() as int + 180) =~= spec_u64_to_le_bytes(self.max_leverage));
            assert(out@.subrange(base.len() as int + 180, base.len() as int + 188) =~= spec_u64_to_le_bytes(self.liquidation_threshold));
            assert(out@.subrange(base.len() as int + 188, base.len() as int + 196) =~= spec_i64_to_le_bytes(self.seats_reserve));
            assert(out@.subrange(base.len() as int + 196, base.len() as int + 204) =~= spec_i64_to_le_bytes(self.reserved_value1));
            assert(out@.subrange(base.len() as int + 204, base.len() as int + 212) =~= spec_i64_to_le_bytes(self.reserved_value2));
            assert(out@.subrange(base.len() as int + 212, base.len() as int + 220) =~= spec_i64_to_le_bytes(self.reserved_value3));
            assert(out@.subrange(base.len() as int + 220, base.len() as int + 228) =~= spec_i64_to_le_bytes(self.reserved_value4));
            assert(out@.subrange(base.len() as int + 228, base.len() as int + 236) =~= spec_i64_to_le_bytes(self.reserved_value5));
            assert(out@.subrange(base.len() as int + 236, base.len() as int + 244) =~= spec_i64_to_le_bytes(self.reserved_value6));
            assert(out@.subrange(base.len() as int + 244, base.len() as int + 252) =~= spec_i64_to_le_bytes(self.reserved_value7));
            assert(out@.subrange(base.len() as int + 252, base.len() as int + 260) =~= spec_i64_to_le_bytes(self.reserved_value8));
            assert(out@.subrange(base.len() as int + 260, base.len() as int + 268) =~= spec_i64_to_le_bytes(self.reserved_value9));
            assert(out@.subrange(base.len() as int + 268, base.len() as int + 276) =~= spec_i64_to_le_bytes(self.reserved_value10));
            assert(out@.subrange(0, base.len() as int) =~= base);
            assert(self.matches_span3(out@, base.len() - 740));
        }
    }

    proof fn lemma_span0_stable(self, b1: Seq<u8>, b2: Seq<u8>, off: int)
        requires
            self.matches_span0(b1, off),
            b1.len() <= b2.len(),
            b2.subrange(0, b1.len() as int) == b1,
            0 <= off,
            off + 320 <= b1.len(),
        ensures
            self.matches_span0(b2, off),
    {
        assert forall|k: int| 0 <= k < b1.len() implies b2[k] == b1[k] by {
            assert(b2.subrange(0, b1.len() as int)[k] == b1[k]);
        }
        assert(b2.subrange(off, off + 4) =~= b1.subrange(off, off + 4));
        assert(b2.subrange(off + 4, off + 8) =~= b1.subrange(off + 4, off + 8));
        assert(b2.subrange(off + 8, off + 12) =~= b1.subrange(off + 8, off + 12));
        assert(b2.subrange(off + 12, off + 16) =~= b1.subrange(off + 12, off + 16));
        assert(b2.subrange(off + 16, off + 20) =~= b1.subrange(off + 16, off + 20));
        assert(b2.subrange(off + 20, off + 24) =~= b1.subrange(off + 20, off + 24));
        assert(b2.subrange(off + 24, off + 32) =~= b1.subrange(off + 24, off + 32));
        assert(b2.subrange(off + 32, off + 40) =~= b1.subrange(off + 32, off + 40));
        assert(b2.subrange(off + 40, off + 48) =~= b1.subrange(off + 40, off + 48));
        assert(b2.subrange(off + 48, off + 56) =~= b1.subrange(off + 48, off + 56));
        assert(b2.subrange(off + 56, off + 64) =~= b1.subrange(off + 56, off + 64));
        assert(b2.subrange(off + 64, off + 72) =~= b1.subrange(off + 64, off + 72));
        assert(b2.subrange(off + 72, off + 80) =~= b1.subrange(off + 72, off + 80));
        assert(b2.subrange(off + 80, off + 88) =~= b1.subrange(off + 80, off + 88));
        assert(b2.subrange(off + 88, off + 96) =~= b1.subrange(off + 88, off + 96));
        assert(b2.subrange(off + 96, off + 104) =~= b1.subrange(off + 96, off + 104));
        assert(b2.subrange(off + 104, off + 112) =~= b1.subrange(off + 104, off + 112));
        assert(b2.subrange(off + 112, off + 120) =~= b1.subrange(off + 112, off + 120));
        assert(b2.subrange(off + 120, off + 128) =~= b1.subrange(off + 120, off + 128));
        assert(b2.subrange(off + 128, off + 136) =~= b1.subrange(off + 128, off + 136));
        assert(b2.subrange(off + 136, off + 168) =~= b1.subrange(off + 136, off + 168));
        assert(b2.subrange(off + 168, off + 200) =~= b1.subrange(off + 168, off + 200));
        assert(b2.subrange(off + 200, off + 232) =~= b1.subrange(off + 200, off + 232));
        assert(b2.subrange(off + 232, off + 236) =~= b1.subrange(off + 232, off + 236));
        assert(b2.subrange(off + 236, off + 240) =~= b1.subrange(off + 236, off + 240));
        assert(b2.subrange(off + 240, off + 244) =~= b1.subrange(off + 240, off + 244));
        assert(b2.subrange(off + 244, off + 248) =~= b1.subrange(off + 244, off + 248));
        assert(b2.subrange(off + 248, off + 280) =~= b1.subrange(off + 248, off + 280));
        assert(b2.subrange(off + 280, off + 284) =~= b1.subrange(off + 280, off + 284));
        assert(b2.subrange(off + 284, off + 288) =~= b1.subrange(off + 284, off + 288));
        assert(b2.subrange(off + 288, off + 292) =~= b1.subrange(off + 288, off + 292));
        assert(b2.subrange(off + 292, off + 296) =~= b1.subrange(off + 292, off + 296));
        assert(b2.subrange(off + 296, off + 300) =~= b1.subrange(off + 296, off + 300));
        assert(b2.subrange(off + 300, off + 304) =~= b1.subrange(off + 300, off + 304));
        assert(b2.subrange(off + 304, off + 308) =~= b1.subrange(off + 304, off + 308));
        assert(b2.subrange(off + 308, off + 312) =~= b1.subrange(off + 308, off + 312));
        assert(b2.subrange(off + 312, off + 316) =~= b1.subrange(off + 312, off + 316));
        assert(b2.subrange(off + 316, off + 320) =~= b1.subrange(off + 316, off + 320));
    }

    proof fn lemma_span1_stable(self, b1: Seq<u8>, b2: Seq<u8>, off: int)
        requires
            self.matches_span1(b1, off),
            b1.len() <= b2.len(),
            b2.subrange(0, b1.len() as int) == b1,
            0 <= off,
            off + 564 <= b1.len(),
        ensures
            self.matches_span1(b2, off),
    {
        assert forall|k: int| 0 <= k < b1.len() implies b2[k] == b1[k] by {
            assert(b2.subrange(0, b1.len() as int)[k] == b1[k]);
        }
        assert(b2.subrange(off + 320, off + 324) =~= b1.subrange(off + 320, off + 324));
        assert(b2.subrange(off + 324, off + 328) =~= b1.subrange(off + 324, off + 328));
        assert(b2.subrange(off + 328, off + 332) =~= b1.subrange(off + 328, off + 332));
        assert(b2.subrange(off + 332, off + 336) =~= b1.subrange(off + 332, off + 336));
        assert(b2.subrange(off + 336, off + 340) =~= b1.subrange(off + 336, off + 340));
        assert(b2.subrange(off + 340, off + 344) =~= b1.subrange(off + 340, off + 344));
        assert(b2.subrange(off + 344, off + 348) =~= b1.subrange(off + 344, off + 348));
        assert(b2.subrange(off + 348, off + 352) =~= b1.subrange(off + 348, off + 352));
        assert(b2.subrange(off + 352, off + 356) =~= b1.subrange(off + 352, off + 356));
        assert(b2.subrange(off + 356, off + 360) =~= b1.subrange(off + 356, off + 360));
        assert(b2.subrange(off + 360, off + 368) =~= b1.subrange(off + 360, off + 368));
        assert(b2.subrange(off + 368, off + 376) =~= b1.subrange(off + 368, off + 376));
        assert(b2.subrange(off + 376, off + 384) =~= b1.subrange(off + 376, off + 384));
        assert(b2.subrange(off + 384, off + 392) =~= b1.subrange(off + 384, off + 392));
        assert(b2.subrange(off + 392, off + 400) =~= b1.subrange(off + 392, off + 400));
        assert(b2.subrange(off + 400, off + 408) =~= b1.subrange(off + 400, off + 408));
        assert(b2.subrange(off + 408, off + 416) =~= b1.subrange(off + 408, off + 416));
        assert(b2.subrange(off + 416, off + 424) =~= b1.subrange(off + 416, off + 424));
        assert(b2.subrange(off + 424, off + 432) =~= b1.subrange(off + 424, off + 432));
        assert(b2.subrange(off + 432, off + 440) =~= b1.subrange(off + 432, off + 440));
        assert(b2.subrange(off + 440, off + 448) =~= b1.subrange(off + 440, off + 448));
        assert(b2.subrange(off + 448, off + 456) =~= b1.subrange(off + 448, off + 456));
        assert(b2.subrange(off + 456, off + 464) =~= b1.subrange(off + 456, off + 464));
        assert(b2.subrange(off + 464, off + 472) =~= b1.subrange(off + 464, off + 472));
        assert(b2.subrange(off + 472, off + 480) =~= b1.subrange(off + 472, off + 480));
        assert(b2.subrange(off + 480, off + 488) =~= b1.subrange(off + 480, off + 488));
        assert(b2.subrange(off + 488, off + 492) =~= b1.subrange(off + 488, off + 492));
        assert(b2.subrange(off + 492, off + 496) =~= b1.subrange(off + 492, off + 496));
        assert(b2.subrange(off + 496, off + 504) =~= b1.subrange(off + 496, off + 504));
        assert(b2.subrange(off + 504, off + 512) =~= b1.subrange(off + 504, off + 512));
        assert(b2.subrange(off + 512, off + 520) =~= b1.subrange(off + 512, off + 520));
        assert(b2.subrange(off + 520, off + 528) =~= b1.subrange(off + 520, off + 528));
        assert(b2.subrange(off + 528, off + 536) =~= b1.subrange(off + 528, off + 536));
        assert(b2.subrange(off + 536, off + 544) =~= b1.subrange(off + 536, off + 544));
        assert(b2.subrange(off + 544, off + 552) =~= b1.subrange(off + 544, off + 552));
        assert(b2.subrange(off + 552, off + 560) =~= b1.subrange(off + 552, off + 560));
        assert(b2.subrange(off + 560, off + 564) =~= b1.subrange(off + 560, off + 564));
    }

    proof fn lemma_span2_stable(self, b1: Seq<u8>, b2: Seq<u8>, off: int)
        requires
            self.matches_span2(b1, off),
            b1.len() <= b2.len(),
            b2.subrange(0, b1.len() as int) == b1,
            0 <= off,
            off + 740 <= b1.len(),
        ensures
            self.matches_span2(b2, off),
    {
        assert forall|k: int| 0 <= k < b1.len() implies b2[k] == b1[k] by {
            assert(b2.subrange(0, b1.len() as int)[k] == b1[k]);
        }
        assert(b2.subrange(off + 564, off + 568) =~= b1.subrange(off + 564, off + 568));
        assert(b2.subrange(off + 568, off + 576) =~= b1.subrange(off + 568, off + 576));
        assert(b2.subrange(off + 576, off + 584) =~= b1.subrange(off + 576, off + 584));
        assert(b2.subrange(off + 584, off + 592) =~= b1.subrange(off + 584, off + 592));
        assert(b2.subrange(off + 592, off + 596) =~= b1.subrange(off + 592, off + 596));
        assert(b2.subrange(off + 596, off + 600) =~= b1.subrange(off + 596, off + 600));
        assert(b2.subrange(off + 600, off + 604) =~= b1.subrange(off + 600, off + 604));
        assert(b2.subrange(off + 604, off + 608) =~= b1.subrange(off + 604, off + 608));
        assert(b2.subrange(off + 608, off + 616) =~= b1.subrange(off + 608, off + 616));
        assert(b2.subrange(off + 616, off + 624) =~= b1.subrange(off + 616, off + 624));
        assert(b2.subrange(off + 624, off + 632) =~= b1.subrange(off + 624, off + 632));
        assert(b2.subrange(off + 632, off + 640) =~= b1.subrange(off + 632, off + 640));
        assert(b2.subrange(off + 640, off + 644) =~= b1.subrange(off + 640, off + 644));
        assert(b2.subrange(off + 644, off + 648) =~= b1.subrange(off + 644, off + 648));
        assert(b2.subrange(off + 648, off + 652) =~= b1.subrange(off + 648, off + 652));
        assert(b2.subrange(off + 652, off + 656) =~= b1.subrange(off + 652, off + 656));
        assert(b2.subrange(off + 656, off + 660) =~= b1.subrange(off + 656, off + 660));
        assert(b2.subrange(off + 660, off + 664) =~= b1.subrange(off + 660, off + 664));
        assert(b2.subrange(off + 664, off + 668) =~= b1.subrange(off + 664, off + 668));
        assert(b2.subrange(off + 668, off + 672) =~= b1.subrange(off + 668, off + 672));
        assert(b2.subrange(off + 672, off + 676) =~= b1.subrange(off + 672, off + 676));
        assert(b2.subrange(off + 676, off + 680) =~= b1.subrange(off + 676, off + 680));
        assert(b2.subrange(off + 680, off + 684) =~= b1.subrange(off + 680, off + 684));
        assert(b2.subrange(off + 684, off + 688) =~= b1.subrange(off + 684, off + 688));
        assert(b2.subrange(off + 688, off + 692) =~= b1.subrange(off + 688, off + 692));
        assert(b2.subrange(off + 692, off + 696) =~= b1.subrange(off + 692, off + 696));
        assert(b2.subrange(off + 696, off + 700) =~= b1.subrange(off + 696, off + 700));
        assert(b2.subrange(off + 700, off + 704) =~= b1.subrange(off + 700, off + 704));
        assert(b2.subrange(off + 704, off + 708) =~= b1.subrange(off + 704, off + 708));
        assert(b2.subrange(off + 708, off + 712) =~= b1.subrange(off + 708, off + 712));
        assert(b2.subrange(off + 712, off + 716) =~= b1.subrange(off + 712, off + 716));
        assert(b2.subrange(off + 716, off + 720) =~= b1.subrange(off + 716, off + 720));
        assert(b2.subrange(off + 720, off + 724) =~= b1.subrange(off + 720, off + 724));
        assert(b2.subrange(off + 724, off + 728) =~= b1.subrange(off + 724, off + 728));
        assert(b2.subrange(off + 728, off + 732) =~= b1.subrange(off + 728, off + 732));
        assert(b2.subrange(off + 732, off + 736) =~= b1.subrange(off + 732, off + 736));
        assert(b2.subrange(off + 736, off + 740) =~= b1.subrange(off + 736, off + 740));
    }

    proof fn lemma_span3_stable(self, b1: Seq<u8>, b2: Seq<u8>, off: int)
        requires
            self.matches_span3(b1, off),
            b1.len() <= b2.len(),
            b2.subrange(0, b1.len() as int) == b1,
            0 <= off,
            off + 1016 <= b1.len(),
        ensures
            self.matches_span3(b2, off),
    {
        assert forall|k: int| 0 <= k < b1.len() implies b2[k] == b1[k] by {
            assert(b2.subrange(0, b1.len() as int)[k] == b1[k]);
        }
        assert(b2.subrange(off + 740, off + 744) =~= b1.subrange(off + 740, off + 744));
        assert(b2.subrange(off + 744, off + 752) =~= b1.subrange(off + 744, off + 752));
        assert(b2.subrange(off + 752, off + 760) =~= b1.subrange(off + 752, off + 760));
        assert(b2.subrange(off + 760, off + 768) =~= b1.subrange(off + 760, off + 768));
        assert(b2.subrange(off + 768, off + 776) =~= b1.subrange(off + 768, off + 776));
        assert(b2.subrange(off + 776, off + 784) =~= b1.subrange(off + 776, off + 784));
        assert(b2.subrange(off + 784, off + 792) =~= b1.subrange(off + 784, off + 792));
        assert(b2.subrange(off + 792, off + 800) =~= b1.subrange(off + 792, off + 800));
        assert(b2.subrange(off + 800, off + 808) =~= b1.subrange(off + 800, off + 808));
        assert(b2.subrange(off + 808, off + 816) =~= b1.subrange(off + 808, off + 816));
        assert(b2.subrange(off + 816, off + 824) =~= b1.subrange(off + 816, off + 824));
        assert(b2.subrange(off + 824, off + 832) =~= b1.subrange(off + 824, off + 832));
        assert(b2.subrange(off + 832, off + 840) =~= b1.subrange(off + 832, off + 840));
        assert(b2.subrange(off + 840, off + 848) =~= b1.subrange(off + 840, off + 848));
        assert(b2.subrange(off + 848, off + 856) =~= b1.subrange(off + 848, off + 856));
        assert(b2.subrange(off + 856, off + 864) =~= b1.subrange(off + 856, off + 864));
        assert(b2.subrange(off + 864, off + 872) =~= b1.subrange(off + 864, off + 872));
        assert(b2.subrange(off + 872, off + 880) =~= b1.subrange(off + 872, off + 880));
        assert(b2.subrange(off + 880, off + 888) =~= b1.subrange(off + 880, off + 888));
        assert(b2.subrange(off + 888, off + 896) =~= b1.subrange(off + 888, off + 896));
        assert(b2.subrange(off + 896, off + 904) =~= b1.subrange(off + 896, off + 904));
        assert(b2.subrange(off + 904, off + 912) =~= b1.subrange(off + 904, off + 912));
        assert(b2.subrange(off + 912, off + 920) =~= b1.subrange(off + 912, off + 920));
        assert(b2.subrange(off + 920, off + 928) =~= b1.subrange(off + 920, off + 928));
        assert(b2.subrange(off + 928, off + 936) =~= b1.subrange(off + 928, off + 936));
        assert(b2.subrange(off + 936, off + 944) =~= b1.subrange(off + 936, off + 944));
        assert(b2.subrange(off + 944, off + 952) =~= b1.subrange(off + 944, off + 952));
        assert(b2.subrange(off + 952, off + 960) =~= b1.subrange(off + 952, off + 960));
        assert(b2.subrange(off + 960, off + 968) =~= b1.subrange(off + 960, off + 968));
        assert(b2.subrange(off + 968, off + 976) =~= b1.subrange(off + 968, off + 976));
        assert(b2.subrange(off + 976, off + 984) =~= b1.subrange(off + 976, off + 984));
        assert(b2.subrange(off + 984, off + 992) =~= b1.subrange(off + 984, off + 992));
        assert(b2.subrange(off + 992, off + 1000) =~= b1.subrange(off + 992, off + 1000));
        assert(b2.subrange(off + 1000, off + 1008) =~= b1.subrange(off + 1000, off + 1008));
        assert(b2.subrange(off + 1008, off + 1016) =~= b1.subrange(off + 1008, off + 1016));
    }

    #[verifier::rlimit(100)]
    pub fn write(&self, out: &mut Vec<u8>)
        ensures
            final(out)@.len() == old(out)@.len() + INSTR_ACCOUNT_HEADER_SIZE,
            final(out)@.subrange(0, old(out)@.len() as int) == old(out)@,
            self.matches_wire(final(out)@, old(out)@.len() as int),
    {
        let ghost base = out@;
        self.write_span0(out);
        let ghost b0 = out@;
        self.write_span1(out);
        let ghost b1 = out@;
        self.write_span2(out);
        let ghost b2 = out@;
        self.write_span3(out);
        proof {
            // Each span's clauses, established on the snapshot right after
            // it was written, persist through the later appends because the
            // earlier bytes never change.
            assert(out@.subrange(0, b2.len() as int) =~= b2);
            assert(out@.subrange(0, b1.len() as int) =~= b1);
            assert(out@.subrange(0, b0.len() as int) =~= b0);
            self.lemma_span0_stable(b0, out@, base.len() as int);
            self.lemma_span1_stable(b1, out@, base.len() as int);
            self.lemma_span2_stable(b2, out@, base.len() as int);
            assert(out@.subrange(0, base.len() as int) =~= base);
        }
    }

    pub fn encode(&self) -> (r: Vec<u8>)
        ensures
            r@.len() == INSTR_ACCOUNT_HEADER_SIZE,
            self.matches_wire(r@, 0),
    {
        let mut out: Vec<u8> = Vec::new();
        self.write(&mut out);
        out
    }

    /// Re-validates the stored discriminator before any other field of
    /// the buffer may be trusted: the buffer must be long enough, carry
    /// the expected account tag, and carry the expected schema version.
    pub fn load(b: &[u8], address: &Address, expected_version: u32) -> (r: Result<Self, DeriverseErrorKind>)
        ensures
            ({
                let d = Discriminator::wire_at(b@, 0);
                if b@.len() < INSTR_ACCOUNT_HEADER_SIZE {
                    r == Err::<Self, DeriverseErrorKind>(DeriverseErrorKind::InvalidAccountSize { address: *address, account_type: AccountType::Instr, expected: INSTR_ACCOUNT_HEADER_SIZE, actual: b@.len() as usize })
                } else if d.tag.0 != AccountType::Instr.spec_as_tag() {
                    r == Err::<Self, DeriverseErrorKind>(DeriverseErrorKind::InvalidAccountTag { expected_account_type: AccountType::Instr, actual_tag: d.tag.0, address: *address })
                } else if d.version.0 != expected_version {
                    r == Err::<Self, DeriverseErrorKind>(DeriverseErrorKind::InvalidVersion { address: *address, account_type: AccountType::Instr, expected: expected_version, actual: d.version.0 })
                } else {
                    match r {
                        Ok(h) => h.matches_wire(b@, 0),
                        Err(_) => false,
                    }
                }
            }),
    {
        if b.len() < INSTR_ACCOUNT_HEADER_SIZE {
            return Err(DeriverseErrorKind::InvalidAccountSize { address: *address, account_type: AccountType::Instr, expected: INSTR_ACCOUNT_HEADER_SIZE, actual: b.len() });
        }
        let d = Discriminator::read_at(b, 0);
        let tag = AccountType::Instr.as_tag();
        if d.tag.0 != tag {
            return Err(DeriverseErrorKind::InvalidAccountTag { expected_account_type: AccountType::Instr, actual_tag: d.tag.0, address: *address });
        }
        if d.version.0 != expected_version {
            return Err(DeriverseErrorKind::InvalidVersion { address: *address, account_type: AccountType::Instr, expected: expected_version, actual: d.version.0 });
        }
        Ok(Self::read_at(b, 0))
    }
}

} // verus!
