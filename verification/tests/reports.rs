use deriverse::ids::{ClientId, InstrId};
use deriverse::reports::{
    DepositReport, PerpChangeLeverageReport, SpotPlaceOrderReport, DEPOSIT,
    DEPOSIT_REPORT_SIZE, PERP_CHANGE_LEVERAGE, SPOT_PLACE_ORDER,
};

#[test]
fn deposit_report_exact_bytes() {
    let r = DepositReport {
        tag: DEPOSIT,
        padding_u8: 0,
        padding_u16: 0,
        client_id: ClientId::new(0x0A0B0C0D),
        token_id: 2,
        time: 0x01020304,
        amount: 256,
    };
    let bytes = r.encode();
    assert_eq!(bytes.len(), DEPOSIT_REPORT_SIZE);
    assert_eq!(bytes[0], 1);
    // client id at offset 4, little endian.
    assert_eq!(&bytes[4..8], &[0x0D, 0x0C, 0x0B, 0x0A]);
    // time at offset 12, little endian.
    assert_eq!(&bytes[12..16], &[0x04, 0x03, 0x02, 0x01]);
    // amount at offset 16, little endian.
    assert_eq!(&bytes[16..24], &[0, 1, 0, 0, 0, 0, 0, 0]);
    assert_eq!(DepositReport::read_at(&bytes, 0), r);
}

#[test]
fn leverage_report_roundtrip() {
    let r = PerpChangeLeverageReport {
        tag: PERP_CHANGE_LEVERAGE,
        leverage: 7,
        padding_u16: 0,
        client_id: ClientId::new(5),
        instr_id: InstrId::new(1),
        time: 1234,
    };
    let bytes = r.encode();
    assert_eq!(bytes[0], 28);
    assert_eq!(PerpChangeLeverageReport::read_at(&bytes, 0), r);
}

#[test]
fn place_order_report_roundtrip() {
    let r = SpotPlaceOrderReport {
        tag: SPOT_PLACE_ORDER,
        ioc: 1,
        side: 0,
        order_type: 0,
        client_id: ClientId::new(9),
        order_id: -3,
        qty: 1000,
        price: 42,
        instr_id: InstrId::new(2),
        time: 7,
    };
    let bytes = r.encode();
    assert_eq!(bytes[0], 10);
    assert_eq!(SpotPlaceOrderReport::read_at(&bytes, 0), r);
}
