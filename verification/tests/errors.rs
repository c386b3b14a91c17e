use deriverse::errors::{
    DeriverseError, DeriverseErrorKind, DiagnosticValue, ResultExt,
};
use deriverse::types::Address;

fn addr(seed: u8) -> Address {
    let mut bytes = [0u8; 32];
    let mut i = 0;
    while i < 32 {
        bytes[i] = seed.wrapping_add(i as u8);
        i += 1;
    }
    Address::new(bytes)
}

#[test]
fn error_location_test() {
    let error: DeriverseError = DeriverseError::new(
        DeriverseErrorKind::InvalidDataLength {
            expected: 100,
            actual: 12,
        },
        String::from("src/errors.rs"),
        42,
    );

    assert_eq!("src/errors.rs", error.location().file);
    assert_eq!(42, error.location().line);
}

#[test]
fn errors_some_test() {
    let error = DeriverseErrorKind::InvalidMintAccount {
        token_id: 10,
        expected_address: addr(1),
        actual_address: addr(2),
    };

    println!("{:?}", error.to_json());
}

#[test]
fn test_error_codes_and_display() {
    // A variant without payload fields.
    let simple_err = DeriverseErrorKind::OperationRejected;
    assert_eq!(simple_err.code(), 243);
    assert_eq!(simple_err.msg(), "Operation Rejected");

    // A variant whose message interpolates its fields.
    let complex_err = DeriverseErrorKind::InvalidAccountsNumber {
        expected: 5,
        actual: 3,
    };
    assert_eq!(complex_err.code(), 101);
    assert_eq!(
        complex_err.msg(),
        "Invalid provided accounts number: expected 5, got 3"
    );

    let debug_str = format!("{:?}", complex_err);
    assert!(debug_str.contains("InvalidAccountsNumber"));
}

#[test]
fn test_solana_integration_off_chain() {
    let err = DeriverseError::new(
        DeriverseErrorKind::InvalidDataLength {
            expected: 100,
            actual: 50,
        },
        String::from("src/errors.rs"),
        1,
    );
    let code: u32 = err.into();
    assert_eq!(code, 102);
}

#[test]
fn test_json_serialization() {
    let err = DeriverseErrorKind::InvalidDataLength {
        expected: 256,
        actual: 128,
    };
    let json = err.to_json();
    assert_eq!(json.code, 102);
    assert_eq!(
        json.msg,
        "Invalid instructions data length, expected 256 < actual 128"
    );
    let expected_field = json
        .fields
        .iter()
        .find(|f| f.name == "expected")
        .expect("the diagnostic must carry the expected length");
    assert!(matches!(expected_field.value, DiagnosticValue::Unsigned(256)));

    // An address-typed field is carried as the address itself, for the host
    // to render.
    let address = addr(7);
    let pubkey_err = DeriverseErrorKind::InvalidOperatorAccount { address };
    let pubkey_json = pubkey_err.to_json();
    let address_field = pubkey_json
        .fields
        .iter()
        .find(|f| f.name == "address")
        .expect("the diagnostic must carry the address");
    match &address_field.value {
        DiagnosticValue::Addr(a) => assert_eq!(*a, address),
        other => panic!("expected an address field, got {:?}", other),
    }
}

#[test]
fn test_context_pattern_and_equality() {
    let failing: Result<(), std::io::Error> =
        Err(std::io::Error::new(std::io::ErrorKind::Other, "test"));

    let result = failing.context(DeriverseErrorKind::OperationRejected);
    assert!(matches!(result, Err(DeriverseErrorKind::OperationRejected)));

    let address = addr(9);
    let err1 = DeriverseErrorKind::InvalidOperatorAccount { address };
    let err2 = DeriverseErrorKind::InvalidOperatorAccount { address };
    assert_eq!(err1, err2);
}

#[test]
fn code_ignores_payload_values() {
    let a = DeriverseErrorKind::InvalidPrice {
        price: 0,
        min_price: 1,
        max_price: 10,
    };
    let b = DeriverseErrorKind::InvalidPrice {
        price: -55,
        min_price: 0,
        max_price: 99,
    };
    assert_eq!(a.code(), b.code());
    assert_eq!(a.code(), 131);
}

#[test]
fn message_interpolation_exact() {
    let err = DeriverseErrorKind::InvalidQuantity {
        value: -7,
        min_value: 1,
        max_value: 100,
    };
    assert_eq!(
        err.msg(),
        "Invalid quantity value -7, acceptable range: 1..100"
    );

    let err = DeriverseErrorKind::InvalidLeverage { value: 16, max: 15 };
    assert_eq!(
        err.msg(),
        "Invalid leverage, leverage 16 > max leverage 15 or equal to 0"
    );

    let err = DeriverseErrorKind::TooManyLines {
        side: deriverse::types::OrderSide::Ask,
        amount: 9,
    };
    assert_eq!(err.msg(), "Too many lines on Ask side provided value is 9");

    let err = DeriverseErrorKind::InvalidVersion {
        address: addr(3),
        account_type: deriverse::types::AccountType::Root,
        expected: 2,
        actual: 1,
    };
    assert_eq!(err.msg(), "Invalid version in Root, expected 2 != actual 1");
}

#[test]
fn deriverse_error_carries_code_and_location() {
    let e = DeriverseError::new(
        DeriverseErrorKind::AlreadyVoted,
        String::from("voting.rs"),
        7,
    );
    assert_eq!(e.code(), 206);
    let d = e.to_json();
    assert_eq!(d.code, 206);
    assert!(d.fields.iter().any(|f| f.name == "file"));
    assert!(d.fields.iter().any(|f| f.name == "line"));
}

#[test]
fn diagnostic_fields_are_exact() {
    // The diagnostic carries every payload field, in declaration order,
    // under its own name — nothing more.
    let err = DeriverseErrorKind::InvalidAccountsNumber {
        expected: 5,
        actual: 3,
    };
    let d = err.to_json();
    assert_eq!(d.fields.len(), 2);
    assert_eq!(d.fields[0].name, "expected");
    assert!(matches!(d.fields[0].value, DiagnosticValue::Unsigned(5)));
    assert_eq!(d.fields[1].name, "actual");
    assert!(matches!(d.fields[1].value, DiagnosticValue::Unsigned(3)));

    // A variant without payload fields yields an empty field list.
    assert_eq!(DeriverseErrorKind::OperationRejected.to_json().fields.len(), 0);

    // The wrapper appends the raise site as the last two fields.
    let e = DeriverseError::new(err, String::from("entry.rs"), 9);
    let d = e.to_json();
    assert_eq!(d.fields.len(), 4);
    assert_eq!(d.fields[2].name, "file");
    match &d.fields[2].value {
        DiagnosticValue::Text(s) => assert_eq!(s, "entry.rs"),
        other => panic!("expected the file name, got {:?}", other),
    }
    assert_eq!(d.fields[3].name, "line");
    assert!(matches!(d.fields[3].value, DiagnosticValue::Unsigned(9)));
}
