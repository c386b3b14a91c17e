use deriverse::dispatch::Instruction;
use deriverse::errors::DeriverseErrorKind;
use deriverse::instr_data::{DepositData, NewSpotOrderData};

fn order_bytes() -> Vec<u8> {
    NewSpotOrderData {
        tag: 12,
        ioc: 0,
        order_type: 0,
        side: 0,
        instr_id: 0,
        price: 1000,
        amount: 50,
        edge_price: 0,
    }
    .encode()
}

#[test]
fn account_count_guard_scenario() {
    // Opcode 12 requires 18 accounts: 17 must be rejected before the payload
    // is even parsed, so malformed payload bytes do not matter here.
    let bad_payload = vec![12u8];
    let got = Instruction::dispatch(&bad_payload, 17, 5, 5);
    assert_eq!(
        got,
        Err(DeriverseErrorKind::InvalidAccountsAmount {
            expected: 18,
            actual: 17,
        })
    );
}

#[test]
fn dispatch_parses_after_guard() {
    let bytes = order_bytes();
    let got = Instruction::dispatch(&bytes, 18, 5, 5).expect("a valid order must dispatch");
    match got {
        Instruction::NewSpotOrder(d) => {
            assert_eq!(d.price, 1000);
            assert_eq!(d.amount, 50);
        }
        other => panic!("expected a spot order, got {:?}", other),
    }
}

#[test]
fn dispatch_propagates_payload_errors() {
    let mut bytes = order_bytes();
    bytes.pop();
    let got = Instruction::dispatch(&bytes, 18, 5, 5);
    assert!(matches!(
        got,
        Err(DeriverseErrorKind::InvalidDataLength { .. })
    ));
}

#[test]
fn dispatch_checks_root_counters() {
    let d = DepositData {
        tag: 7,
        competition_id: 0,
        deposit_all: 0,
        padding_u8: 0,
        token_id: 3,
        amount: 100,
        lut_slot: 0,
        ref_id: 0,
    };
    let bytes = d.encode();
    assert!(Instruction::dispatch(&bytes, 9, 5, 0).is_ok());
    assert_eq!(
        Instruction::dispatch(&bytes, 9, 2, 0),
        Err(DeriverseErrorKind::InvalidTokenId { id: 3 })
    );
}

#[test]
fn dispatch_rejects_empty_data() {
    let empty: Vec<u8> = Vec::new();
    assert_eq!(
        Instruction::dispatch(&empty, 30, 5, 5),
        Err(DeriverseErrorKind::InvalidDataLength {
            expected: 1,
            actual: 0,
        })
    );
}

#[test]
fn dispatch_ignores_unknown_opcodes() {
    let data = vec![200u8, 1, 2, 3];
    assert_eq!(
        Instruction::dispatch(&data, 0, 0, 0),
        Ok(Instruction::Unknown { opcode: 200 })
    );
}

#[test]
fn dispatch_no_payload_opcodes() {
    // new_holder_account (opcode 0) carries no payload and needs 3 accounts.
    let data = vec![0u8];
    assert_eq!(Instruction::dispatch(&data, 3, 0, 0), Ok(Instruction::NewHolder));
    assert_eq!(
        Instruction::dispatch(&data, 2, 0, 0),
        Err(DeriverseErrorKind::InvalidAccountsAmount {
            expected: 3,
            actual: 2,
        })
    );
}

#[test]
fn dispatch_new_base_crncy() {
    // Opcode 4 carries a NewBaseCrncyData payload and needs 9 accounts.
    let payload = deriverse::instr_data::NewBaseCrncyData {
        tag: 4,
        padding_u8: 0,
        padding_u16: 0,
        padding_u32: 0,
        denominator: 0x3FF0000000000000,
    };
    let bytes = payload.encode();
    assert_eq!(
        Instruction::dispatch(&bytes, 8, 0, 0),
        Err(DeriverseErrorKind::InvalidAccountsAmount {
            expected: 9,
            actual: 8,
        })
    );
    assert_eq!(
        Instruction::dispatch(&bytes, 9, 0, 0),
        Ok(Instruction::NewBaseCrncy(payload))
    );
}
