use request_processor::error::RpcCustomError;
use request_processor::filter::{
    decode_filters, filters_decode, get_spl_token_mint_filter, get_spl_token_owner_filter, optimize_filters,
    try_filter_accounts, try_optimize_filters, SPL_TOKEN_ACCOUNT_MINT_OFFSET,
    SPL_TOKEN_ACCOUNT_OWNER_OFFSET,
};
use request_processor::types::{
    DbAccountInfo, Memcmp, MemcmpEncodedBytes, MemcmpEncoding, Pubkey, RpcAccountInfoConfig,
    RpcFilterType, RpcKeyedAccount, UiAccountData, UiAccountEncoding, UiDataSliceConfig,
};

fn key(byte: u8) -> Pubkey {
    Pubkey { bytes: [byte; 32] }
}

fn token_program() -> Pubkey {
    Pubkey { bytes: spl_token::id().to_bytes() }
}

fn account(pubkey: Pubkey, owner: Pubkey, data: Vec<u8>) -> DbAccountInfo {
    DbAccountInfo { pubkey, lamports: 7, owner, executable: false, rent_epoch: 3, data }
}

fn compare(offset: usize, bytes: MemcmpEncodedBytes) -> RpcFilterType {
    RpcFilterType::Memcmp(Memcmp { offset, bytes, encoding: None })
}

fn bytes_at(offset: usize, bytes: &[u8]) -> RpcFilterType {
    compare(offset, MemcmpEncodedBytes::Bytes(bytes.to_vec()))
}

fn config(
    encoding: Option<UiAccountEncoding>,
    data_slice: Option<UiDataSliceConfig>,
) -> Option<RpcAccountInfoConfig> {
    Some(RpcAccountInfoConfig { encoding, data_slice })
}

fn found_keys(result: &Option<Result<Vec<RpcKeyedAccount>, RpcCustomError>>) -> Vec<String> {
    match result {
        Some(Ok(found)) => found.iter().map(|keyed| keyed.pubkey.clone()).collect(),
        _ => panic!("the scan does not answer accounts"),
    }
}

fn failure(result: Option<Result<Vec<RpcKeyedAccount>, RpcCustomError>>) -> String {
    match result {
        Some(Err(RpcCustomError::ScanError { message })) => message,
        _ => panic!("the scan does not fail"),
    }
}

#[test]
fn filters_are_decoded() {
    let mut filters = vec![
        compare(1, MemcmpEncodedBytes::Binary("Ldp".to_string())),
        compare(2, MemcmpEncodedBytes::Base58("Ldp".to_string())),
        compare(3, MemcmpEncodedBytes::Base64("AQID".to_string())),
        bytes_at(4, &[9]),
        RpcFilterType::DataSize(5),
    ];
    assert!(filters_decode(&filters));
    optimize_filters(&mut filters);
    assert_eq!(
        filters,
        vec![
            bytes_at(1, &[1, 2, 3]),
            bytes_at(2, &[1, 2, 3]),
            bytes_at(3, &[1, 2, 3]),
            bytes_at(4, &[9]),
            RpcFilterType::DataSize(5),
        ]
    );
}

#[test]
fn decoding_keeps_the_named_encoding() {
    let mut filters = vec![RpcFilterType::Memcmp(Memcmp {
        offset: 8,
        bytes: MemcmpEncodedBytes::Base58("2".to_string()),
        encoding: Some(MemcmpEncoding::Binary),
    })];
    optimize_filters(&mut filters);
    assert_eq!(
        filters,
        vec![RpcFilterType::Memcmp(Memcmp {
            offset: 8,
            bytes: MemcmpEncodedBytes::Bytes(vec![1]),
            encoding: Some(MemcmpEncoding::Binary),
        })]
    );
}

#[test]
fn decoding_twice_is_decoding_once() {
    let mut once = vec![
        compare(1, MemcmpEncodedBytes::Base58("Ldp".to_string())),
        compare(3, MemcmpEncodedBytes::Base64("AQID".to_string())),
        RpcFilterType::DataSize(5),
    ];
    optimize_filters(&mut once);
    let mut twice = once.clone();
    optimize_filters(&mut twice);
    assert_eq!(once, twice);
}

#[test]
fn filters_that_do_not_decode_are_left() {
    let bad_base58 = vec![
        compare(0, MemcmpEncodedBytes::Base58("Ldp".to_string())),
        compare(0, MemcmpEncodedBytes::Base58("0".to_string())),
    ];
    let mut filters = bad_base58.clone();
    assert!(!filters_decode(&filters));
    assert!(!try_optimize_filters(&mut filters));
    assert_eq!(filters, bad_base58);

    let bad_base64 = vec![compare(0, MemcmpEncodedBytes::Base64("AQ!D".to_string()))];
    let mut filters = bad_base64.clone();
    assert!(!try_optimize_filters(&mut filters));
    assert_eq!(filters, bad_base64);

    let mut good = vec![compare(0, MemcmpEncodedBytes::Binary("2".to_string()))];
    assert!(try_optimize_filters(&mut good));
    assert_eq!(good, vec![bytes_at(0, &[1])]);
}

#[test]
fn token_filters_name_an_owner() {
    let filters = vec![RpcFilterType::DataSize(165), bytes_at(32, &[5; 32])];
    assert_eq!(get_spl_token_owner_filter(&token_program(), &filters), Some(key(5)));
    assert_eq!(get_spl_token_mint_filter(&token_program(), &filters), None);
}

#[test]
fn token_filters_name_a_mint() {
    let filters = vec![bytes_at(0, &[6; 32]), RpcFilterType::DataSize(165)];
    assert_eq!(get_spl_token_mint_filter(&token_program(), &filters), Some(key(6)));
    assert_eq!(get_spl_token_owner_filter(&token_program(), &filters), None);
}

#[test]
fn only_the_token_program_has_token_filters() {
    let filters = vec![
        RpcFilterType::DataSize(165),
        bytes_at(32, &[5; 32]),
        bytes_at(0, &[6; 32]),
    ];
    assert_eq!(get_spl_token_owner_filter(&key(1), &filters), None);
    assert_eq!(get_spl_token_mint_filter(&key(1), &filters), None);
}

#[test]
fn the_last_data_size_counts() {
    let first = vec![
        RpcFilterType::DataSize(165),
        bytes_at(32, &[5; 32]),
        RpcFilterType::DataSize(82),
    ];
    assert_eq!(get_spl_token_owner_filter(&token_program(), &first), None);
    let last = vec![
        RpcFilterType::DataSize(82),
        bytes_at(32, &[5; 32]),
        RpcFilterType::DataSize(165),
    ];
    assert_eq!(get_spl_token_owner_filter(&token_program(), &last), Some(key(5)));
    let none = vec![bytes_at(32, &[5; 32])];
    assert_eq!(get_spl_token_owner_filter(&token_program(), &none), None);
}

#[test]
fn the_last_address_counts() {
    let filters = vec![
        bytes_at(32, &[5; 32]),
        bytes_at(32, &[8; 32]),
        bytes_at(32, &[9; 31]),
        RpcFilterType::DataSize(165),
    ];
    assert_eq!(get_spl_token_owner_filter(&token_program(), &filters), Some(key(8)));
    let short = vec![bytes_at(0, &[9; 31]), RpcFilterType::DataSize(165)];
    assert_eq!(get_spl_token_mint_filter(&token_program(), &short), None);
}

#[test]
fn only_decoded_bytes_name_an_address() {
    let text = solana_sdk::pubkey::Pubkey::new_from_array([5; 32]).to_string();
    let mut filters = vec![
        RpcFilterType::DataSize(165),
        compare(32, MemcmpEncodedBytes::Base58(text)),
    ];
    assert_eq!(get_spl_token_owner_filter(&token_program(), &filters), None);
    optimize_filters(&mut filters);
    assert_eq!(get_spl_token_owner_filter(&token_program(), &filters), Some(key(5)));
}

#[test]
fn a_scan_selects_by_owner_size_and_bytes() {
    let accounts = vec![
        account(key(10), key(1), vec![1, 2, 3]),
        account(key(11), key(2), vec![1, 2, 3]),
        account(key(12), key(1), vec![1, 2]),
        account(key(13), key(1), vec![3, 2, 1]),
        account(key(14), key(1), vec![0, 2, 3]),
    ];
    let filters = vec![RpcFilterType::DataSize(3), bytes_at(1, &[2, 3])];
    let result = try_filter_accounts(None, filters, accounts, &key(1));
    let expected = vec![
        solana_sdk::pubkey::Pubkey::new_from_array([10; 32]).to_string(),
        solana_sdk::pubkey::Pubkey::new_from_array([14; 32]).to_string(),
    ];
    assert_eq!(found_keys(&result), expected);
    match result {
        Some(Ok(found)) => {
            let first = &found[0].account;
            assert_eq!(first.lamports, 7);
            assert_eq!(first.rent_epoch, 3);
            assert!(!first.executable);
            assert_eq!(
                first.owner,
                solana_sdk::pubkey::Pubkey::new_from_array([1; 32]).to_string()
            );
            assert_eq!(first.data, UiAccountData::LegacyBinary("Ldp".to_string()));
        },
        _ => panic!("no accounts"),
    }
}

#[test]
fn bytes_past_the_end_are_not_found() {
    let accounts = vec![account(key(10), key(1), vec![1, 2, 3])];
    let scan = |filter: RpcFilterType| {
        found_keys(&try_filter_accounts(None, vec![filter], accounts.clone(), &key(1))).len()
    };
    assert_eq!(scan(bytes_at(2, &[3])), 1);
    assert_eq!(scan(bytes_at(2, &[3, 4])), 0);
    assert_eq!(scan(bytes_at(3, &[])), 1);
    assert_eq!(scan(bytes_at(4, &[])), 0);
    assert_eq!(scan(bytes_at(usize::MAX, &[1])), 0);
}

#[test]
fn text_and_bytes_select_the_same() {
    let accounts = vec![
        account(key(10), key(1), vec![1, 2, 3]),
        account(key(11), key(1), vec![1, 2, 4]),
    ];
    let written = vec![
        compare(0, MemcmpEncodedBytes::Binary("Ldp".to_string())),
        compare(0, MemcmpEncodedBytes::Base58("Ldp".to_string())),
        compare(0, MemcmpEncodedBytes::Base64("AQID".to_string())),
        bytes_at(0, &[1, 2, 3]),
    ];
    let expected =
        vec![solana_sdk::pubkey::Pubkey::new_from_array([10; 32]).to_string()];
    for filter in written {
        let result = try_filter_accounts(None, vec![filter], accounts.clone(), &key(1));
        assert_eq!(found_keys(&result), expected);
    }
}

#[test]
fn a_scan_of_a_sliced_parsed_account_fails() {
    let slice = Some(UiDataSliceConfig { offset: 0, length: 1 });
    let result = try_filter_accounts(
        config(Some(UiAccountEncoding::JsonParsed), slice),
        vec![],
        vec![],
        &key(1),
    );
    assert_eq!(
        failure(result),
        "Failed to convert the JSON rpc object. Error: (Invalid request: Sliced account data can only be encoded using binary (base 58) or base64 encoding.)"
    );
}

#[test]
fn a_refused_slice_comes_before_filters_that_do_not_decode() {
    let slice = Some(UiDataSliceConfig { offset: 0, length: 1 });
    let filters = vec![compare(0, MemcmpEncodedBytes::Base58("0".to_string()))];
    let result = try_filter_accounts(
        config(Some(UiAccountEncoding::JsonParsed), slice),
        filters,
        vec![],
        &key(1),
    );
    assert!(matches!(result, Some(Err(_))));
}

#[test]
fn a_scan_with_filters_that_do_not_decode_does_not_run() {
    let filters = vec![compare(0, MemcmpEncodedBytes::Base58("0".to_string()))];
    assert!(try_filter_accounts(None, filters, vec![], &key(1)).is_none());
}

#[test]
fn base58_refuses_large_accounts() {
    let accounts = vec![
        account(key(10), key(1), vec![0; 128]),
        account(key(11), key(1), vec![0; 129]),
    ];
    let message = "Failed to convert the JSON rpc object. Error: (Invalid request: Encoded binary (base 58) data should be less than 128 bytes, please use Base64 encoding.)";
    for encoding in [None, Some(UiAccountEncoding::Binary), Some(UiAccountEncoding::Base58)] {
        let result =
            try_filter_accounts(config(encoding, None), vec![], accounts.clone(), &key(1));
        assert_eq!(failure(result), message);
    }
    let small = vec![RpcFilterType::DataSize(128)];
    let result = try_filter_accounts(None, small, accounts.clone(), &key(1));
    assert_eq!(found_keys(&result).len(), 1);
    for encoding in [
        UiAccountEncoding::Base64,
        UiAccountEncoding::Base64Zstd,
        UiAccountEncoding::JsonParsed,
    ] {
        let result =
            try_filter_accounts(config(Some(encoding), None), vec![], accounts.clone(), &key(1));
        assert_eq!(found_keys(&result).len(), 2);
    }
}

#[test]
fn a_slice_does_not_make_a_large_account_small() {
    let accounts = vec![account(key(10), key(1), vec![0; 129])];
    let slice = Some(UiDataSliceConfig { offset: 0, length: 1 });
    let result = try_filter_accounts(
        config(Some(UiAccountEncoding::Base58), slice),
        vec![],
        accounts,
        &key(1),
    );
    assert!(matches!(result, Some(Err(_))));
}

#[test]
fn answered_addresses_decode_to_the_accounts() {
    let accounts = vec![
        account(key(10), key(1), vec![1]),
        account(key(0), key(1), vec![2]),
    ];
    match try_filter_accounts(None, vec![], accounts, &key(1)) {
        Some(Ok(found)) => {
            assert_eq!(bs58::decode(&found[0].pubkey).into_vec().unwrap(), vec![10; 32]);
            assert_eq!(bs58::decode(&found[1].pubkey).into_vec().unwrap(), vec![0; 32]);
            assert_eq!(found[1].pubkey, "11111111111111111111111111111111");
            assert_eq!(bs58::decode(&found[0].account.owner).into_vec().unwrap(), vec![1; 32]);
        },
        _ => panic!("no accounts"),
    }
}

#[test]
fn offsets_are_those_of_token_accounts() {
    assert_eq!(
        SPL_TOKEN_ACCOUNT_MINT_OFFSET,
        solana_runtime::inline_spl_token::SPL_TOKEN_ACCOUNT_MINT_OFFSET
    );
    assert_eq!(
        SPL_TOKEN_ACCOUNT_OWNER_OFFSET,
        solana_runtime::inline_spl_token::SPL_TOKEN_ACCOUNT_OWNER_OFFSET
    );
}

#[test]
fn only_filters_that_decode_are_decoded() {
    let mut filters = vec![
        compare(0, MemcmpEncodedBytes::Base58("Ldp".to_string())),
        compare(0, MemcmpEncodedBytes::Base58("0".to_string())),
        compare(0, MemcmpEncodedBytes::Base64("AQID".to_string())),
    ];
    decode_filters(&mut filters);
    assert_eq!(
        filters,
        vec![
            bytes_at(0, &[1, 2, 3]),
            compare(0, MemcmpEncodedBytes::Base58("0".to_string())),
            bytes_at(0, &[1, 2, 3]),
        ]
    );
}
