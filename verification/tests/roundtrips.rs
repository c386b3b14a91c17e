//! One encode/decode round trip per instruction payload struct, with
//! distinct values in every field.

use deriverse::ids::{InstrId, Version};
use deriverse::instr_data::{
    ActivateClientRefProgramData, AirdropData, BuyMarketSeatData, ChangeDenominatorData,
    ChangeRefProgramData, ChangeVotingData, DepositData, FeesDepositData,
    FeesWithdrawData, GarbageCollectorData, MoveSpotAvailFundsData, NewBaseCrncyData,
    NewInstrumentData, NewOperatorData, NewPerpOrderData, NewPrivateClient,
    NewRootAccountData, NewSpotOrderData, PerpChangeLeverageData, PerpClientsProcessingData,
    PerpDepositData, PerpMassCancelData, PerpOrderCancelData, PerpQuotesReplaceData,
    PerpStatisticsResetData, PerpWithdrawData, PointsProgramExpiration, SellMarketSeatData,
    SetInstrReadyForPerpUpgradeData, SetSeatPurchasingFeeData, SetVarianceData, SpotLpData,
    SpotMassCancelData, SpotOrderCancelData, SpotQuotesReplaceData, SwapData,
    UpgradeToPerpData, VotingData, WithdrawData,
};

#[test]
fn roundtrip_new_operator_data() {
    let d = NewOperatorData {
        tag: 0,
        padding_u8: 3,
        padding_u16: 4098,
        version: Version(43),
    };
    let bytes = d.encode();
    assert_eq!(NewOperatorData::read_at(&bytes, 0), d);
}

#[test]
fn roundtrip_new_root_account_data() {
    let d = NewRootAccountData {
        tag: 7,
        private_mode: 10,
        padding_u16: 4111,
        version: Version(44),
        lut_slot: 65637,
    };
    let bytes = d.encode();
    assert_eq!(NewRootAccountData::read_at(&bytes, 0), d);
}

#[test]
fn roundtrip_new_spot_order_data() {
    let d = NewSpotOrderData {
        tag: 14,
        ioc: 17,
        order_type: 20,
        side: 23,
        instr_id: 65734,
        price: -101827,
        amount: 7000001828,
        edge_price: -101829,
    };
    let bytes = d.encode();
    assert_eq!(NewSpotOrderData::read_at(&bytes, 0), d);
}

#[test]
fn roundtrip_new_perp_order_data() {
    let d = NewPerpOrderData {
        tag: 21,
        ioc: 24,
        leverage: 27,
        order_type: 30,
        side: 33,
        padding_u8: 36,
        padding_u16: 4141,
        padding_u32: 65834,
        instr_id: 65835,
        price: 7000002742,
        amount: -102743,
        edge_price: 7000002744,
    };
    let bytes = d.encode();
    assert_eq!(NewPerpOrderData::read_at(&bytes, 0), d);
}

#[test]
fn roundtrip_perp_change_leverage_data() {
    let d = PerpChangeLeverageData {
        tag: 28,
        leverage: 31,
        padding_u16: 4150,
        instr_id: 65927,
    };
    let bytes = d.encode();
    assert_eq!(PerpChangeLeverageData::read_at(&bytes, 0), d);
}

#[test]
fn roundtrip_perp_statistics_reset_data() {
    let d = PerpStatisticsResetData {
        tag: 35,
        padding_u8: 38,
        padding_u16: 4163,
        instr_id: 66024,
    };
    let bytes = d.encode();
    assert_eq!(PerpStatisticsResetData::read_at(&bytes, 0), d);
}

#[test]
fn roundtrip_spot_order_cancel_data() {
    let d = SpotOrderCancelData {
        tag: 42,
        side: 45,
        padding_u16: 4176,
        instr_id: 66121,
        order_id: 7000005470,
    };
    let bytes = d.encode();
    assert_eq!(SpotOrderCancelData::read_at(&bytes, 0), d);
}

#[test]
fn roundtrip_spot_mass_cancel_data() {
    let d = SpotMassCancelData {
        tag: 49,
        padding_u8: 52,
        padding_u16: 4189,
        instr_id: 66218,
    };
    let bytes = d.encode();
    assert_eq!(SpotMassCancelData::read_at(&bytes, 0), d);
}

#[test]
fn roundtrip_spot_lp_data() {
    let d = SpotLpData {
        tag: 56,
        side: 59,
        padding_u16: 4202,
        instr_id: 66315,
        amount: 7000007292,
        edge_price: -107293,
    };
    let bytes = d.encode();
    assert_eq!(SpotLpData::read_at(&bytes, 0), d);
}

#[test]
fn roundtrip_new_instrument_data() {
    let d = NewInstrumentData {
        tag: 63,
        padding_u8: 66,
        padding_u16: 4215,
        padding_u32: 66412,
        crncy_token_id: 66413,
        lut_slot: 66414,
        price: -108205,
    };
    let bytes = d.encode();
    assert_eq!(NewInstrumentData::read_at(&bytes, 0), d);
}

#[test]
fn roundtrip_deposit_data() {
    let d = DepositData {
        tag: 70,
        competition_id: 73,
        deposit_all: 76,
        padding_u8: 79,
        token_id: 66510,
        amount: -109115,
        lut_slot: 66512,
        ref_id: 66513,
    };
    let bytes = d.encode();
    assert_eq!(DepositData::read_at(&bytes, 0), d);
}

#[test]
fn roundtrip_fees_deposit_data() {
    let d = FeesDepositData {
        tag: 77,
        padding_u8: 80,
        padding_u16: 4241,
        token_id: 66606,
        amount: -110025,
    };
    let bytes = d.encode();
    assert_eq!(FeesDepositData::read_at(&bytes, 0), d);
}

#[test]
fn roundtrip_fees_withdraw_data() {
    let d = FeesWithdrawData {
        tag: 84,
        padding_u8: 87,
        padding_u16: 4254,
        token_id: 66703,
        amount: 7000010936,
    };
    let bytes = d.encode();
    assert_eq!(FeesWithdrawData::read_at(&bytes, 0), d);
}

#[test]
fn roundtrip_perp_deposit_data() {
    let d = PerpDepositData {
        tag: 91,
        padding_u8: 94,
        padding_u16: 4267,
        instr_id: 66800,
        amount: -111847,
    };
    let bytes = d.encode();
    assert_eq!(PerpDepositData::read_at(&bytes, 0), d);
}

#[test]
fn roundtrip_move_spot_avail_funds_data() {
    let d = MoveSpotAvailFundsData {
        tag: 98,
        padding_u8: 101,
        padding_u16: 4280,
        instr_id: 66897,
    };
    let bytes = d.encode();
    assert_eq!(MoveSpotAvailFundsData::read_at(&bytes, 0), d);
}

#[test]
fn roundtrip_perp_withdraw_data() {
    let d = PerpWithdrawData {
        tag: 105,
        padding_u8: 108,
        padding_u16: 4293,
        instr_id: 66994,
        amount: -113669,
    };
    let bytes = d.encode();
    assert_eq!(PerpWithdrawData::read_at(&bytes, 0), d);
}

#[test]
fn roundtrip_withdraw_data() {
    let d = WithdrawData {
        tag: 112,
        padding_u8: 115,
        padding_u16: 4306,
        token_id: 67091,
        amount: 7000014580,
    };
    let bytes = d.encode();
    assert_eq!(WithdrawData::read_at(&bytes, 0), d);
}

#[test]
fn roundtrip_swap_data() {
    let d = SwapData {
        tag: 119,
        input_crncy: 122,
        padding_u16: 4319,
        instr_id: 67188,
        price: -115491,
        amount: 7000015492,
    };
    let bytes = d.encode();
    assert_eq!(SwapData::read_at(&bytes, 0), d);
}

#[test]
fn roundtrip_spot_quotes_replace_data() {
    let d = SpotQuotesReplaceData {
        tag: 126,
        padding_u8: 129,
        padding_u16: 4332,
        instr_id: 67285,
        new_bid_price: 7000016402,
        new_bid_qty: -116403,
        old_bid_order_id: 7000016404,
        new_ask_price: -116405,
        new_ask_qty: 7000016406,
        old_ask_order_id: -116407,
    };
    let bytes = d.encode();
    assert_eq!(SpotQuotesReplaceData::read_at(&bytes, 0), d);
}

#[test]
fn roundtrip_perp_quotes_replace_data() {
    let d = PerpQuotesReplaceData {
        tag: 133,
        padding_u8: 136,
        padding_u16: 4345,
        instr_id: 67382,
        new_bid_price: -117313,
        new_bid_qty: 7000017314,
        old_bid_order_id: -117315,
        new_ask_price: 7000017316,
        new_ask_qty: -117317,
        old_ask_order_id: 7000017318,
    };
    let bytes = d.encode();
    assert_eq!(PerpQuotesReplaceData::read_at(&bytes, 0), d);
}

#[test]
fn roundtrip_voting_data() {
    let d = VotingData {
        tag: 140,
        choice: 143,
        padding_u16: 4358,
        voting_counter: 67479,
    };
    let bytes = d.encode();
    assert_eq!(VotingData::read_at(&bytes, 0), d);
}

#[test]
fn roundtrip_airdrop_data() {
    let d = AirdropData {
        tag: 147,
        padding_u8: 150,
        padding_u16: 4371,
        padding_u32: 67576,
        ratio: 72623859790383503,
    };
    let bytes = d.encode();
    assert_eq!(AirdropData::read_at(&bytes, 0), d);
}

#[test]
fn roundtrip_upgrade_to_perp_data() {
    let d = UpgradeToPerpData {
        tag: 154,
        padding_u8: 157,
        padding_u16: 4384,
        instr_id: 67673,
    };
    let bytes = d.encode();
    assert_eq!(UpgradeToPerpData::read_at(&bytes, 0), d);
}

#[test]
fn roundtrip_set_instr_ready_for_perp_upgrade_data() {
    let d = SetInstrReadyForPerpUpgradeData {
        tag: 161,
        padding_u8: 164,
        padding_u16: 4397,
        instr_id: 67770,
        variance: 72623859790383565,
    };
    let bytes = d.encode();
    assert_eq!(SetInstrReadyForPerpUpgradeData::read_at(&bytes, 0), d);
}

#[test]
fn roundtrip_perp_order_cancel_data() {
    let d = PerpOrderCancelData {
        tag: 168,
        side: 171,
        padding_u16: 4410,
        instr_id: 67867,
        order_id: 7000021868,
    };
    let bytes = d.encode();
    assert_eq!(PerpOrderCancelData::read_at(&bytes, 0), d);
}

#[test]
fn roundtrip_perp_mass_cancel_data() {
    let d = PerpMassCancelData {
        tag: 175,
        padding_u8: 178,
        padding_u16: 4423,
        instr_id: 67964,
    };
    let bytes = d.encode();
    assert_eq!(PerpMassCancelData::read_at(&bytes, 0), d);
}

#[test]
fn roundtrip_change_ref_program_data() {
    let d = ChangeRefProgramData {
        tag: 182,
        padding_u8: 185,
        padding_u16: 4436,
        padding_u32: 68061,
        ref_program_duration: 68062,
        ref_link_duration: 68063,
        ref_discount: 72623859790383660,
        ref_ratio: 72623859790383661,
    };
    let bytes = d.encode();
    assert_eq!(ChangeRefProgramData::read_at(&bytes, 0), d);
}

#[test]
fn roundtrip_buy_market_seat_data() {
    let d = BuyMarketSeatData {
        tag: 189,
        padding_u8: 192,
        padding_u16: 4449,
        instr_id: 68158,
        edge_price: -124601,
        amount: 7000024602,
    };
    let bytes = d.encode();
    assert_eq!(BuyMarketSeatData::read_at(&bytes, 0), d);
}

#[test]
fn roundtrip_sell_market_seat_data() {
    let d = SellMarketSeatData {
        tag: 196,
        padding_u8: 199,
        padding_u16: 4462,
        instr_id: 68255,
        edge_price: 7000025512,
    };
    let bytes = d.encode();
    assert_eq!(SellMarketSeatData::read_at(&bytes, 0), d);
}

#[test]
fn roundtrip_new_private_client() {
    let d = NewPrivateClient {
        tag: 203,
        padding_u8: 206,
        padding_u16: 4475,
        expiration_time: 68352,
    };
    let bytes = d.encode();
    assert_eq!(NewPrivateClient::read_at(&bytes, 0), d);
}

#[test]
fn roundtrip_points_program_expiration() {
    let d = PointsProgramExpiration {
        tag: 210,
        padding_u8: 213,
        padding_u16: 4488,
        new_expiration_time: 68449,
    };
    let bytes = d.encode();
    assert_eq!(PointsProgramExpiration::read_at(&bytes, 0), d);
}

#[test]
fn roundtrip_set_variance_data() {
    let d = SetVarianceData {
        tag: 217,
        padding_u8: 220,
        padding_u16: 4501,
        instr_id: InstrId(84),
        variance: 72623859790383813,
    };
    let bytes = d.encode();
    assert_eq!(SetVarianceData::read_at(&bytes, 0), d);
}

#[test]
fn roundtrip_change_denominator_data() {
    let d = ChangeDenominatorData {
        tag: 224,
        padding_u8: 227,
        padding_u16: 4514,
        base_crncy_id: 68643,
        denominator: 72623859790383844,
    };
    let bytes = d.encode();
    assert_eq!(ChangeDenominatorData::read_at(&bytes, 0), d);
}

#[test]
fn roundtrip_new_base_crncy_data() {
    let d = NewBaseCrncyData {
        tag: 231,
        padding_u8: 234,
        padding_u16: 4527,
        padding_u32: 68740,
        denominator: 72623859790383875,
    };
    let bytes = d.encode();
    assert_eq!(NewBaseCrncyData::read_at(&bytes, 0), d);
}

#[test]
fn roundtrip_perp_clients_processing_data() {
    let d = PerpClientsProcessingData {
        tag: 238,
        padding_u8: 241,
        padding_u16: 4540,
        instr_id: 68837,
    };
    let bytes = d.encode();
    assert_eq!(PerpClientsProcessingData::read_at(&bytes, 0), d);
}

#[test]
fn roundtrip_set_seat_purchasing_fee_data() {
    let d = SetSeatPurchasingFeeData {
        tag: 245,
        padding_u8: 248,
        padding_u16: 4553,
        padding_u32: 68934,
        fee: 72623859790383937,
    };
    let bytes = d.encode();
    assert_eq!(SetSeatPurchasingFeeData::read_at(&bytes, 0), d);
}

#[test]
fn roundtrip_change_voting_data() {
    let d = ChangeVotingData {
        tag: 1,
        new_choice: 4,
        padding_u16: 4566,
        voting_counter: 69031,
    };
    let bytes = d.encode();
    assert_eq!(ChangeVotingData::read_at(&bytes, 0), d);
}

#[test]
fn roundtrip_garbage_collector_data() {
    let d = GarbageCollectorData {
        tag: 8,
        padding_u8: 11,
        padding_u16: 4579,
        instr_id: 69128,
    };
    let bytes = d.encode();
    assert_eq!(GarbageCollectorData::read_at(&bytes, 0), d);
}

#[test]
fn roundtrip_activate_client_ref_program_data() {
    let d = ActivateClientRefProgramData {
        tag: 15,
        padding_u8: 18,
        padding_u16: 4592,
        ref_id: 69225,
    };
    let bytes = d.encode();
    assert_eq!(ActivateClientRefProgramData::read_at(&bytes, 0), d);
}

