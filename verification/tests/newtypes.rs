use deriverse::ids::{ClientId, InstrId, Tag, Version};
use deriverse::types::AccountType;

const VAL: u32 = 10;

#[test]
fn test_new_macro() {
    let wrapper = ClientId::new(VAL);

    assert_eq!(wrapper.value(), VAL);
    assert!(wrapper.value() > VAL - 1);
    let val: u32 = wrapper.value();

    assert_eq!(val, VAL as u32);
}

#[test]
fn types_some_test() {
    let account_type = AccountType::Community;
    assert_eq!(account_type.text(), "Community(34)".to_string());
}

#[test]
fn newtype_equality_and_value() {
    assert_eq!(Tag::new(7), Tag::new(7));
    assert_ne!(Tag::new(7), Tag::new(8));
    assert_eq!(Version::new(3).value(), 3);
    assert_eq!(InstrId::new(12).value(), 12);
}

#[test]
fn account_type_tag_mapping() {
    assert_eq!(AccountType::Root.as_tag(), 2);
    assert_eq!(AccountType::from_tag(2), Some(AccountType::Root));
    assert_eq!(AccountType::from_tag(51), Some(AccountType::PrivateClients));
    assert_eq!(AccountType::from_tag(3), None);
    assert_eq!(AccountType::from_tag(52), None);
    for tag in 0u32..60 {
        if let Some(at) = AccountType::from_tag(tag) {
            assert_eq!(at.as_tag(), tag);
        }
    }
}

#[test]
fn client_id_text() {
    assert_eq!(ClientId::new(17).text(), "Client 17".to_string());
}
