use deriverse::errors::DeriverseErrorKind;
use deriverse::ids::{ClientId, InstrId, Tag, Version};
use deriverse::constants::{NULL_CLIENT, NULL_NODE, NULL_ORDER};
use deriverse::state::candles::{CandleRegister, CandlesAccountHeader};
use deriverse::state::community::CommunityAccountHeader;
use deriverse::state::instrument::{InstrAccountHeader, INSTR_ACCOUNT_HEADER_SIZE};
use deriverse::state::perp::{PerpClientInfo2, PERP_TRADE_ACCOUNT_HEADER_SIZE};
use deriverse::state::private_mode::PrivateClient;
use deriverse::state::root::RootState;
use deriverse::state::token::TokenState;
use deriverse::state::spot::{
    SpotClientInfo, SpotTradeAccountHeader, SPOT_CLIENT_INFO_SIZE, SPOT_TRADE_ACCOUNT_HEADER_SIZE,
};
use deriverse::state::{get_perp_info, get_spot_info};
use deriverse::types::{
    AccountType, Address, Discriminator, Order, OrderSide, ROOT, SPOT_1M_CANDLES, SPOT_BIDS_TREE,
};

fn addr(seed: u8) -> Address {
    let mut bytes = [0u8; 32];
    let mut i = 0;
    while i < 32 {
        bytes[i] = seed.wrapping_add(i as u8);
        i += 1;
    }
    Address::new(bytes)
}

fn root_bytes(tag: u32, version: u32) -> Vec<u8> {
    let root = RootState {
        discriminator: Discriminator::new(Tag::new(tag), Version::new(version)),
        operator_address: addr(1),
        holder_address: addr(2),
        drvs_mint_address: addr(3),
        lut_address: addr(4),
        airdrop_authority_address: addr(5),
        private_mode_authority_address: addr(6),
        ref_program_duration: 100,
        ref_link_duration: 50,
        ref_discount: 0,
        ref_ratio: 0,
        clients_count: 10,
        tokens_count: 4,
        instr_count: 2,
        ref_counter: 0,
        mask: 1,
        points_program_expiration: 0,
        purchasing_perp_seat_fee: 0,
    };
    root.encode()
}

#[test]
fn root_load_checks_tag_version_and_size() {
    let bytes = root_bytes(ROOT, 1);
    let address = addr(9);
    let loaded = RootState::load(&bytes, &address, 1).expect("a valid root must load");
    assert_eq!(loaded.tokens_count, 4);
    assert_eq!(loaded.instr_count, 2);
    assert_eq!(loaded.operator_address, addr(1));

    // A tag that does not match the expected constant must fail, never
    // silently succeed.
    let wrong_tag = root_bytes(7, 1);
    assert_eq!(
        RootState::load(&wrong_tag, &address, 1).unwrap_err(),
        DeriverseErrorKind::InvalidAccountTag {
            expected_account_type: AccountType::Root,
            actual_tag: 7,
            address,
        }
    );

    let wrong_version = root_bytes(ROOT, 3);
    assert!(matches!(
        RootState::load(&wrong_version, &address, 1).unwrap_err(),
        DeriverseErrorKind::InvalidVersion {
            expected: 1,
            actual: 3,
            ..
        }
    ));

    let short = vec![0u8; 10];
    assert!(matches!(
        RootState::load(&short, &address, 1).unwrap_err(),
        DeriverseErrorKind::InvalidAccountSize { .. }
    ));
}

#[test]
fn trade_header_roundtrip_and_tag_check() {
    let header: SpotTradeAccountHeader<SPOT_BIDS_TREE> = SpotTradeAccountHeader {
        discriminator: Discriminator::new(Tag::new(SPOT_BIDS_TREE), Version::new(1)),
        instr_id: InstrId::new(3),
        slot: 77,
        asset_token_id: 1,
        crncy_token_id: 0,
    };
    let bytes = header.encode();
    assert_eq!(bytes.len(), SPOT_TRADE_ACCOUNT_HEADER_SIZE);
    let address = addr(8);
    let loaded: SpotTradeAccountHeader<SPOT_BIDS_TREE> =
        SpotTradeAccountHeader::load(&bytes, &address, 1).expect("valid header");
    assert_eq!(loaded, header);

    // The same bytes read as a different account kind are rejected.
    let wrong: Result<SpotTradeAccountHeader<ROOT>, _> =
        SpotTradeAccountHeader::load(&bytes, &address, 1);
    assert!(matches!(
        wrong.unwrap_err(),
        DeriverseErrorKind::InvalidAccountTag {
            actual_tag: SPOT_BIDS_TREE,
            ..
        }
    ));
}

#[test]
fn spot_info_slot_access() {
    // A buffer holding the trade header and three spot info records.
    let mut data = vec![0u8; SPOT_TRADE_ACCOUNT_HEADER_SIZE];
    for slot in 0u32..3 {
        let info = SpotClientInfo {
            client: ClientId::new(100 + slot),
            filled_orders: slot,
            bids_entry: 0,
            asks_entry: 0,
            avail_asset_tokens: (slot as i64) * 11,
            avail_crncy_tokens: -5,
        };
        let mut bytes = info.encode();
        data.append(&mut bytes);
    }

    let got: SpotClientInfo = get_spot_info(&data, ClientId::new(1)).expect("slot 1 exists");
    assert_eq!(got.client, ClientId::new(101));
    assert_eq!(got.avail_asset_tokens, 11);
    assert_eq!(got.avail_crncy_tokens, -5);

    let missing: Option<SpotClientInfo> = get_spot_info(&data, ClientId::new(3));
    assert!(missing.is_none());
    assert_eq!(data.len(), SPOT_TRADE_ACCOUNT_HEADER_SIZE + 3 * SPOT_CLIENT_INFO_SIZE);
}

#[test]
fn perp_info_slot_access() {
    let mut data = vec![0u8; PERP_TRADE_ACCOUNT_HEADER_SIZE];
    let info = PerpClientInfo2 {
        cost: -100,
        result: 40,
        bid_slot: 1,
        ask_slot: 2,
        px_node: 3,
        mask: 0x8000_0005,
    };
    let mut bytes = info.encode();
    data.append(&mut bytes);

    let got: PerpClientInfo2 = get_perp_info(&data, ClientId::new(0)).expect("slot 0 exists");
    assert_eq!(got, info);
    assert_eq!(got.leverage(), 5);

    let missing: Option<PerpClientInfo2> = get_perp_info(&data, ClientId::new(1));
    assert!(missing.is_none());
}

#[test]
fn perp_info2_set_slot() {
    let mut info = PerpClientInfo2 {
        cost: 0,
        result: 0,
        bid_slot: 10,
        ask_slot: 20,
        px_node: 0,
        mask: 3,
    };
    info.set_slot(99, OrderSide::Bid);
    assert_eq!(info.bid_slot, 99);
    assert_eq!(info.ask_slot, 20);
    info.set_slot(44, OrderSide::Ask);
    assert_eq!(info.ask_slot, 44);
    assert_eq!(info.leverage(), 3);
}

#[test]
fn private_client_vacancy() {
    let never_written = PrivateClient {
        creation_time: 0,
        expiration_time: 0,
        wallet: addr(0),
    };
    assert!(never_written.is_vacant(5));

    let live = PrivateClient {
        creation_time: 10,
        expiration_time: 100,
        wallet: addr(1),
    };
    assert!(!live.is_vacant(100));
    assert!(live.is_vacant(101));
}

#[test]
fn community_header_roundtrip() {
    let mut h = CommunityAccountHeader {
        discriminator: Discriminator::new(Tag::new(34), Version::new(1)),
        drvs_tokens: 1000,
        min_amount: 5,
        voting_supply: 0,
        prev_voting_supply: 0,
        voting_decr: 1,
        prev_voting_decr: 0,
        voting_unchange: 2,
        prev_voting_unchange: 0,
        voting_incr: 3,
        prev_voting_incr: 0,
        voting_counter: 7,
        voting_start_slot: 0,
        voting_end_time: 0,
        spot_fee_rate: 20,
        perp_fee_rate: 20,
        spot_pool_ratio: 10,
        margin_call_penalty_rate: 10,
        fees_prepayment_for_max_discount: 50,
        max_discount: 30,
        reserved_value1: 0,
        reserved_value2: 0,
        reserved_value3: 0,
        reserved_value4: 0,
        reserved_value5: 0,
        reserved_value6: 0,
        reserved_value7: 0,
        reserved_value8: 0,
        count: 1,
    };
    let bytes = h.encode();
    assert_eq!(CommunityAccountHeader::read_at(&bytes, 0), h);
    h.voting_counter = 8;
    assert_ne!(CommunityAccountHeader::read_at(&bytes, 0), h);
}

#[test]
fn candle_register_durations() {
    let reg = CandleRegister::new();
    assert_eq!(reg.candles.len(), 3);
    assert_eq!(reg.candles[0].duration, 60);
    assert_eq!(reg.candles[1].duration, 900);
    assert_eq!(reg.candles[2].duration, 86400);
    assert_eq!(reg.candles[0].capacity, 10080);
}

#[test]
fn instrument_header_roundtrip_and_masks() {
    let mut bytes = vec![0u8; INSTR_ACCOUNT_HEADER_SIZE];
    // tag = 7 (Instr), version = 1.
    bytes[0] = 7;
    bytes[4] = 1;
    // instr_id = 3 at offset 8.
    bytes[8] = 3;
    // mask at offset 20: PERP | READY_TO_PERP_UPGRADE.
    let mask: u32 = 0x40000000 | 0x1000000;
    bytes[20..24].copy_from_slice(&mask.to_le_bytes());
    // last_px at offset 56.
    bytes[56..64].copy_from_slice(&1234i64.to_le_bytes());

    let address = addr(11);
    let h = InstrAccountHeader::load(&bytes, &address, 1).expect("valid instrument header");
    assert_eq!(h.instr_id.value(), 3);
    assert_eq!(h.last_px, 1234);
    assert!(h.is_perp());
    assert!(h.ready_for_perp_upgrade());
    assert!(!h.has_oracle());

    // Writing the decoded header back reproduces the exact byte image.
    let encoded = h.encode();
    assert_eq!(encoded, bytes);

    // A non-matching tag is rejected.
    bytes[0] = 2;
    assert!(matches!(
        InstrAccountHeader::load(&bytes, &address, 1).unwrap_err(),
        DeriverseErrorKind::InvalidAccountTag { actual_tag: 2, .. }
    ));
}

#[test]
fn token_mask_accessors() {
    let t = TokenState {
        discriminator: Discriminator::new(Tag::new(4), Version::new(1)),
        address: addr(1),
        program_address: addr(2),
        id: 3,
        mask: 0x40000009,
        reserved: 0,
        base_crncy_index: 0,
    };
    assert_eq!(t.decimals(), 9);
    assert!(t.is_base_crncy());
}

#[test]
fn order_sentinel_accessors() {
    let o = Order {
        qty: 1,
        sum: 2,
        order_id: 3,
        orig_client_id: ClientId::new(4),
        client_id: ClientId::new(NULL_CLIENT),
        line: 0,
        prev: NULL_ORDER,
        next: 9,
        sref: 0,
        link: NULL_NODE,
        cl_prev: 1,
        cl_next: NULL_ORDER,
        time: 0,
    };
    assert_eq!(o.prev_in_line(), None);
    assert_eq!(o.next_in_line(), Some(9));
    assert_eq!(o.prev_of_client(), Some(1));
    assert_eq!(o.next_of_client(), None);
    assert_eq!(o.tree_node(), None);
    assert_eq!(o.holder_client(), None);
}

#[test]
fn candle_counters_check() {
    let reg = CandleRegister::new();
    let h: CandlesAccountHeader<SPOT_1M_CANDLES> = CandlesAccountHeader {
        discriminator: Discriminator::new(Tag::new(SPOT_1M_CANDLES), Version::new(1)),
        id: InstrId::new(0),
        slot: 0,
        count: 10080,
        last: 10079,
    };
    assert!(h.check_counts(&reg.candles[0]));
    let mut bad = h;
    bad.last = 10080;
    assert!(!bad.check_counts(&reg.candles[0]));
}

#[test]
fn unknown_tag_instantiation_is_rejected() {
    // A trade header instantiated at a tag no account kind owns cannot load
    // anything: the error names the stray tag.
    let bytes = vec![0u8; SPOT_TRADE_ACCOUNT_HEADER_SIZE];
    let address = addr(12);
    let got: Result<SpotTradeAccountHeader<99>, _> =
        SpotTradeAccountHeader::load(&bytes, &address, 1);
    assert_eq!(
        got.unwrap_err(),
        DeriverseErrorKind::UnsupportedAccountTag { tag: 99 }
    );
}
