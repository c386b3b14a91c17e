use deriverse::constants::{MAX_ORDER_ID, MAX_PERP_LEVERAGE, MAX_PRICE, SPOT_MAX_AMOUNT};
use deriverse::errors::DeriverseErrorKind;
use deriverse::instr_data::{
    DepositData, FeesWithdrawData, NewInstrumentData, NewPerpOrderData, NewSpotOrderData,
    PerpChangeLeverageData, PerpQuotesReplaceData, SpotOrderCancelData, SpotQuotesReplaceData,
    WithdrawData, DEPOSIT_DATA_SIZE, NEW_SPOT_ORDER_DATA_SIZE, SPOT_QUOTES_REPLACE_DATA_SIZE,
};

fn spot_order(price: i64, amount: i64, order_type: u8) -> NewSpotOrderData {
    NewSpotOrderData {
        tag: 12,
        ioc: 0,
        order_type,
        side: 0,
        instr_id: 1,
        price,
        amount,
        edge_price: 0,
    }
}

fn deposit(token_id: u32, amount: i64, deposit_all: u8) -> DepositData {
    DepositData {
        tag: 7,
        competition_id: 0,
        deposit_all,
        padding_u8: 0,
        token_id,
        amount,
        lut_slot: 0,
        ref_id: 0,
    }
}

fn quotes(bid: i64, ask: i64) -> SpotQuotesReplaceData {
    SpotQuotesReplaceData {
        tag: 34,
        padding_u8: 0,
        padding_u16: 0,
        instr_id: 0,
        new_bid_price: bid,
        new_bid_qty: 10,
        old_bid_order_id: 5,
        new_ask_price: ask,
        new_ask_qty: 10,
        old_ask_order_id: 6,
    }
}

#[test]
fn roundtrip_new_spot_order() {
    let d = spot_order(123456, 777, 0);
    let bytes = d.encode();
    assert_eq!(bytes.len(), NEW_SPOT_ORDER_DATA_SIZE);
    let back = NewSpotOrderData::read_at(&bytes, 0);
    assert_eq!(d, back);
    let parsed = NewSpotOrderData::new(&bytes, 10).expect("a valid payload must parse");
    assert_eq!(d, parsed);
}

#[test]
fn roundtrip_deposit() {
    let d = deposit(3, 100, 0);
    let bytes = d.encode();
    assert_eq!(bytes.len(), DEPOSIT_DATA_SIZE);
    assert_eq!(DepositData::read_at(&bytes, 0), d);
}

#[test]
fn roundtrip_quotes_replace() {
    let d = quotes(-1, 2);
    let bytes = d.encode();
    assert_eq!(bytes.len(), SPOT_QUOTES_REPLACE_DATA_SIZE);
    assert_eq!(SpotQuotesReplaceData::read_at(&bytes, 0), d);
}

#[test]
fn roundtrip_negative_values() {
    let d = WithdrawData {
        tag: 8,
        padding_u8: 0,
        padding_u16: 0,
        token_id: 2,
        amount: 41,
    };
    let bytes = d.encode();
    assert_eq!(WithdrawData::read_at(&bytes, 0), d);

    let c = SpotOrderCancelData {
        tag: 13,
        side: 1,
        padding_u16: 0,
        instr_id: 4,
        order_id: i64::MAX >> 3,
    };
    let bytes = c.encode();
    assert_eq!(SpotOrderCancelData::read_at(&bytes, 0), c);
}

#[test]
fn wrong_length_is_rejected() {
    let d = spot_order(1, 1, 0);
    let mut bytes = d.encode();
    bytes.pop();
    let got = NewSpotOrderData::new(&bytes, 10);
    assert_eq!(
        got,
        Err(DeriverseErrorKind::InvalidDataLength {
            expected: NEW_SPOT_ORDER_DATA_SIZE,
            actual: NEW_SPOT_ORDER_DATA_SIZE - 1,
        })
    );
}

#[test]
fn limit_price_boundaries() {
    // A limit order rejects price 0 and MAX_PRICE, accepts 1 and
    // MAX_PRICE - 1.
    let reject0 = NewSpotOrderData::new(&spot_order(0, 5, 0).encode(), 10);
    assert!(matches!(
        reject0,
        Err(DeriverseErrorKind::InvalidPrice { price: 0, .. })
    ));
    let reject_max = NewSpotOrderData::new(&spot_order(MAX_PRICE, 5, 0).encode(), 10);
    assert!(matches!(
        reject_max,
        Err(DeriverseErrorKind::InvalidPrice { .. })
    ));
    assert!(NewSpotOrderData::new(&spot_order(1, 5, 0).encode(), 10).is_ok());
    assert!(NewSpotOrderData::new(&spot_order(MAX_PRICE - 1, 5, 0).encode(), 10).is_ok());

    // A market order may quote price 0.
    assert!(NewSpotOrderData::new(&spot_order(0, 5, 1).encode(), 10).is_ok());
}

#[test]
fn quantity_boundaries() {
    let reject0 = NewSpotOrderData::new(&spot_order(5, 0, 0).encode(), 10);
    assert!(matches!(
        reject0,
        Err(DeriverseErrorKind::InvalidQuantity { value: 0, .. })
    ));
    let reject_max = NewSpotOrderData::new(&spot_order(5, SPOT_MAX_AMOUNT, 0).encode(), 10);
    assert!(matches!(
        reject_max,
        Err(DeriverseErrorKind::InvalidQuantity { .. })
    ));
    assert!(NewSpotOrderData::new(&spot_order(5, 1, 0).encode(), 10).is_ok());
    assert!(NewSpotOrderData::new(&spot_order(5, SPOT_MAX_AMOUNT - 1, 0).encode(), 10).is_ok());
}

#[test]
fn order_id_boundaries() {
    let cancel = |order_id: i64| SpotOrderCancelData {
        tag: 13,
        side: 0,
        padding_u16: 0,
        instr_id: 0,
        order_id,
    };
    assert!(SpotOrderCancelData::new(&cancel(0).encode(), 1).is_ok());
    assert!(SpotOrderCancelData::new(&cancel(MAX_ORDER_ID - 1).encode(), 1).is_ok());
    assert!(matches!(
        SpotOrderCancelData::new(&cancel(MAX_ORDER_ID).encode(), 1),
        Err(DeriverseErrorKind::InvalidOrderId { .. })
    ));
    assert!(matches!(
        SpotOrderCancelData::new(&cancel(-1).encode(), 1),
        Err(DeriverseErrorKind::InvalidOrderId { value: -1, .. })
    ));
}

#[test]
fn instrument_reference_is_checked() {
    let mut d = spot_order(5, 5, 0);
    d.instr_id = 7;
    assert!(matches!(
        NewSpotOrderData::new(&d.encode(), 7),
        Err(DeriverseErrorKind::InvalidInstrId { id: 7 })
    ));
    assert!(NewSpotOrderData::new(&d.encode(), 8).is_ok());
}

#[test]
fn deposit_validation_scenario() {
    // With five registered tokens, a deposit into token 3 parses.
    let d = deposit(3, 100, 0);
    assert_eq!(DepositData::new(&d.encode(), 5), Ok(d));

    // With only two registered tokens, the same payload names an unknown
    // token.
    assert_eq!(
        DepositData::new(&d.encode(), 2),
        Err(DeriverseErrorKind::InvalidTokenId { id: 3 })
    );
}

#[test]
fn deposit_all_skips_amount_check() {
    let d = deposit(0, 0, 1);
    assert!(DepositData::new(&d.encode(), 1).is_ok());
    let d0 = deposit(0, 0, 0);
    assert!(matches!(
        DepositData::new(&d0.encode(), 1),
        Err(DeriverseErrorKind::InvalidQuantity { .. })
    ));
}

#[test]
fn withdrawals_allow_zero_amount() {
    let w = WithdrawData {
        tag: 8,
        padding_u8: 0,
        padding_u16: 0,
        token_id: 0,
        amount: 0,
    };
    assert!(WithdrawData::new(&w.encode(), 1).is_ok());

    let f = FeesWithdrawData {
        tag: 39,
        padding_u8: 0,
        padding_u16: 0,
        token_id: 0,
        amount: 0,
    };
    assert!(FeesWithdrawData::new(&f.encode(), 1).is_ok());
}

#[test]
fn leverage_change_scenario() {
    let lev = |leverage: u8| PerpChangeLeverageData {
        tag: 37,
        leverage,
        padding_u16: 0,
        instr_id: 0,
    };
    assert!(matches!(
        PerpChangeLeverageData::new(&lev(0).encode(), 1),
        Err(DeriverseErrorKind::InvalidLeverage { value: 0, .. })
    ));
    assert!(PerpChangeLeverageData::new(&lev(MAX_PERP_LEVERAGE).encode(), 1).is_ok());
    assert!(matches!(
        PerpChangeLeverageData::new(&lev(MAX_PERP_LEVERAGE + 1).encode(), 1),
        Err(DeriverseErrorKind::InvalidLeverage { .. })
    ));
    assert!(PerpChangeLeverageData::new(&lev(1).encode(), 1).is_ok());
}

#[test]
fn perp_order_leverage_boundaries() {
    // A new perp order must quote a leverage in 1..=MAX_PERP_LEVERAGE.
    let order = |leverage: u8| NewPerpOrderData {
        tag: 19,
        ioc: 0,
        leverage,
        order_type: 0,
        side: 0,
        padding_u8: 0,
        padding_u16: 0,
        padding_u32: 0,
        instr_id: 0,
        price: 100,
        amount: 10,
        edge_price: 0,
    };
    assert!(matches!(
        NewPerpOrderData::new(&order(0).encode(), 1),
        Err(DeriverseErrorKind::InvalidLeverage { value: 0, .. })
    ));
    assert!(NewPerpOrderData::new(&order(1).encode(), 1).is_ok());
    assert!(NewPerpOrderData::new(&order(MAX_PERP_LEVERAGE).encode(), 1).is_ok());
    assert!(matches!(
        NewPerpOrderData::new(&order(MAX_PERP_LEVERAGE + 1).encode(), 1),
        Err(DeriverseErrorKind::InvalidLeverage { .. })
    ));
}

#[test]
fn quote_replace_ordering() {
    // The new bid must be strictly below the new ask.
    assert!(matches!(
        SpotQuotesReplaceData::new(&quotes(10, 10).encode(), 1),
        Err(DeriverseErrorKind::InvalidPrice { price: 10, .. })
    ));
    assert!(matches!(
        SpotQuotesReplaceData::new(&quotes(11, 10).encode(), 1),
        Err(DeriverseErrorKind::InvalidPrice { .. })
    ));
    // The boundary bid == ask - 1 is accepted.
    assert!(SpotQuotesReplaceData::new(&quotes(9, 10).encode(), 1).is_ok());

    let perp = PerpQuotesReplaceData {
        tag: 42,
        padding_u8: 0,
        padding_u16: 0,
        instr_id: 0,
        new_bid_price: 10,
        new_bid_qty: 1,
        old_bid_order_id: 0,
        new_ask_price: 10,
        new_ask_qty: 1,
        old_ask_order_id: 0,
    };
    assert!(matches!(
        PerpQuotesReplaceData::new(&perp.encode(), 1),
        Err(DeriverseErrorKind::InvalidPrice { .. })
    ));
    let mut ok = perp;
    ok.new_bid_price = 9;
    assert!(PerpQuotesReplaceData::new(&ok.encode(), 1).is_ok());
}

#[test]
fn quote_replace_checks_order_ids() {
    let mut d = quotes(9, 10);
    d.old_ask_order_id = MAX_ORDER_ID;
    assert!(matches!(
        SpotQuotesReplaceData::new(&d.encode(), 1),
        Err(DeriverseErrorKind::InvalidOrderId { .. })
    ));
}

#[test]
fn new_instrument_checks_base_price() {
    let d = NewInstrumentData {
        tag: 9,
        padding_u8: 0,
        padding_u16: 0,
        padding_u32: 0,
        crncy_token_id: 1,
        lut_slot: 0,
        price: 0,
    };
    assert!(matches!(
        NewInstrumentData::new(&d.encode(), 5),
        Err(DeriverseErrorKind::InvalidPrice { .. })
    ));
    let mut ok = d;
    ok.price = 1000;
    assert!(NewInstrumentData::new(&ok.encode(), 5).is_ok());
}

#[test]
fn little_endian_layout_is_exact() {
    let d = deposit(0x01020304, 0x1122334455667788, 0);
    let bytes = d.encode();
    // token_id at offset 4, little endian.
    assert_eq!(&bytes[4..8], &[0x04, 0x03, 0x02, 0x01]);
    // amount at offset 8, little endian.
    assert_eq!(
        &bytes[8..16],
        &[0x88, 0x77, 0x66, 0x55, 0x44, 0x33, 0x22, 0x11]
    );
    assert_eq!(bytes[0], 7);
}
