use request_processor::account::{encode_account, encode_ui_account, is_unencodable};
use request_processor::outside::{MAX_BASE58_BYTES, SLOT_HISTORY_SLOTS, TOKEN_ACCOUNT_LEN};
use request_processor::types::{
    encoding_and_slice, DbAccountInfo, Pubkey, RpcAccountInfoConfig, UiAccountData,
    UiAccountEncoding, UiDataSliceConfig, PUBKEY_BYTES,
};
use solana_sdk::program_pack::Pack;

fn account(data: Vec<u8>) -> DbAccountInfo {
    DbAccountInfo {
        pubkey: Pubkey { bytes: [1; 32] },
        lamports: 42,
        owner: Pubkey { bytes: [0; 32] },
        executable: true,
        rent_epoch: 6,
        data,
    }
}

fn data_of(
    data: Vec<u8>,
    encoding: UiAccountEncoding,
    slice: Option<UiDataSliceConfig>,
) -> UiAccountData {
    let account = account(data);
    encode_ui_account(&account.pubkey, &account, encoding, None, slice).data
}

fn slice(offset: usize, length: usize) -> Option<UiDataSliceConfig> {
    Some(UiDataSliceConfig { offset, length })
}

fn slot_history_account(data: Vec<u8>) -> DbAccountInfo {
    DbAccountInfo {
        pubkey: Pubkey { bytes: solana_sdk::sysvar::slot_history::id().to_bytes() },
        lamports: 1,
        owner: Pubkey { bytes: solana_sdk::sysvar::id().to_bytes() },
        executable: false,
        rent_epoch: 0,
        data,
    }
}

fn slot_history(blocks: u64, bits: u64) -> Vec<u8> {
    let mut data = vec![1];
    data.extend_from_slice(&blocks.to_le_bytes());
    for _ in 0..blocks {
        data.extend_from_slice(&[0; 8]);
    }
    data.extend_from_slice(&bits.to_le_bytes());
    data.extend_from_slice(&[0; 8]);
    data
}

#[test]
fn an_answered_account_keeps_its_fields() {
    let account = account(vec![1, 2, 3]);
    let ui = encode_ui_account(&account.pubkey, &account, UiAccountEncoding::Binary, None, None);
    assert_eq!(ui.lamports, 42);
    assert_eq!(ui.rent_epoch, 6);
    assert!(ui.executable);
    assert_eq!(ui.owner, "11111111111111111111111111111111");
    assert_eq!(ui.data, UiAccountData::LegacyBinary("Ldp".to_string()));
}

#[test]
fn base58_data_is_labelled() {
    assert_eq!(
        data_of(vec![1, 2, 3], UiAccountEncoding::Base58, None),
        UiAccountData::Binary("Ldp".to_string(), UiAccountEncoding::Base58)
    );
}

#[test]
fn base64_data_is_labelled() {
    assert_eq!(
        data_of(vec![1, 2, 3], UiAccountEncoding::Base64, None),
        UiAccountData::Binary("AQID".to_string(), UiAccountEncoding::Base64)
    );
}

#[test]
fn slices_take_what_there_is() {
    let text = |slice| match data_of(vec![9, 1, 2, 3], UiAccountEncoding::Base64, slice) {
        UiAccountData::Binary(text, UiAccountEncoding::Base64) => text,
        _ => panic!("not base 64"),
    };
    assert_eq!(text(slice(1, 3)), "AQID");
    assert_eq!(text(slice(1, 1)), "AQ==");
    assert_eq!(text(slice(1, 100)), "AQID");
    assert_eq!(text(slice(4, 1)), "");
    assert_eq!(text(slice(100, 1)), "");
    assert_eq!(text(slice(0, 0)), "");
}

#[test]
fn base58_data_is_sliced() {
    assert_eq!(
        data_of(vec![9, 1, 2, 3], UiAccountEncoding::Binary, slice(1, 3)),
        UiAccountData::LegacyBinary("Ldp".to_string())
    );
}

#[test]
fn compressed_data_is_a_frame_in_base64() {
    match data_of(vec![7; 1000], UiAccountEncoding::Base64Zstd, None) {
        UiAccountData::Binary(text, UiAccountEncoding::Base64Zstd) => {
            let frame = base64::decode(text).unwrap();
            assert_eq!(&frame[..4], &[0x28, 0xb5, 0x2f, 0xfd]);
            assert!(frame.len() < 1000);
        },
        _ => panic!("not compressed"),
    }
}

#[test]
fn data_that_is_too_large_for_base58_says_so() {
    assert_eq!(
        data_of(vec![0; 129], UiAccountEncoding::Binary, None),
        UiAccountData::LegacyBinary("error: data too large for bs58 encoding".to_string())
    );
    assert_eq!(
        data_of(vec![0; 128], UiAccountEncoding::Binary, None),
        UiAccountData::LegacyBinary("1".repeat(128))
    );
}

#[test]
fn data_that_does_not_parse_is_written_in_base64() {
    assert_eq!(
        data_of(vec![1, 2, 3], UiAccountEncoding::JsonParsed, None),
        UiAccountData::Binary("AQID".to_string(), UiAccountEncoding::Base64)
    );
}

#[test]
fn accounts_within_the_limit_are_written() {
    let account = account(vec![1, 2, 3]);
    let written = encode_account(&account, &account.pubkey, UiAccountEncoding::Base58, None);
    let ui = encode_ui_account(&account.pubkey, &account, UiAccountEncoding::Base58, None, None);
    assert_eq!(written, Ok(ui));
}

#[test]
fn short_slot_histories_have_no_parsed_form() {
    let none = slot_history_account(vec![0; 17]);
    assert!(is_unencodable(&none.pubkey, &none, UiAccountEncoding::JsonParsed));
    assert!(!is_unencodable(&none.pubkey, &none, UiAccountEncoding::Base64));
    let short = slot_history_account(slot_history(2, 128));
    assert!(is_unencodable(&short.pubkey, &short, UiAccountEncoding::JsonParsed));
    let elsewhere = Pubkey { bytes: [1; 32] };
    assert!(!is_unencodable(&elsewhere, &short, UiAccountEncoding::JsonParsed));
    let foreign = DbAccountInfo { owner: elsewhere, ..short };
    assert!(!is_unencodable(&foreign.pubkey, &foreign, UiAccountEncoding::JsonParsed));
}

#[test]
fn data_that_is_no_slot_history_is_written_in_base64() {
    let samples = [
        vec![],
        vec![0; 16],
        vec![2; 40],
        slot_history(0, 0),
        slot_history(2, 129),
        slot_history(2, 128)[..40].to_vec(),
    ];
    for data in samples {
        let text = base64::encode(&data);
        let account = slot_history_account(data);
        assert!(!is_unencodable(&account.pubkey, &account, UiAccountEncoding::JsonParsed));
        let ui = encode_ui_account(
            &account.pubkey,
            &account,
            UiAccountEncoding::JsonParsed,
            None,
            None,
        );
        assert_eq!(ui.data, UiAccountData::Binary(text, UiAccountEncoding::Base64));
    }
}

#[test]
fn full_slot_histories_are_parsed() {
    let account = slot_history_account(slot_history(SLOT_HISTORY_SLOTS / 64, SLOT_HISTORY_SLOTS));
    assert!(!is_unencodable(&account.pubkey, &account, UiAccountEncoding::JsonParsed));
    let ui =
        encode_ui_account(&account.pubkey, &account, UiAccountEncoding::JsonParsed, None, None);
    match ui.data {
        UiAccountData::Json(parsed) => {
            assert_eq!(parsed.program, "sysvar");
            assert_eq!(parsed.space, 131_097);
            assert!(parsed.parsed.contains("\"type\":\"slotHistory\""));
        },
        _ => panic!("not parsed"),
    }
}

#[test]
fn requests_default_to_legacy_base58() {
    assert_eq!(encoding_and_slice(None), (UiAccountEncoding::Binary, None));
    let unnamed = RpcAccountInfoConfig { encoding: None, data_slice: slice(1, 2) };
    assert_eq!(encoding_and_slice(Some(unnamed)), (UiAccountEncoding::Binary, slice(1, 2)));
    let named =
        RpcAccountInfoConfig { encoding: Some(UiAccountEncoding::Base64), data_slice: None };
    assert_eq!(encoding_and_slice(Some(named)), (UiAccountEncoding::Base64, None));
}

#[test]
fn addresses_are_made_of_bytes() {
    let bytes: Vec<u8> = (0..32).collect();
    let key = Pubkey::new(&bytes);
    assert_eq!(key.to_vec(), bytes);
    assert!(key.same(&Pubkey::new(&bytes)));
    assert!(!key.same(&Pubkey { bytes: [0; 32] }));
}

#[test]
fn limits_are_those_of_the_decoder() {
    assert_eq!(PUBKEY_BYTES, solana_sdk::pubkey::PUBKEY_BYTES);
    assert_eq!(MAX_BASE58_BYTES, solana_account_decoder::MAX_BASE58_BYTES);
    assert_eq!(SLOT_HISTORY_SLOTS, solana_sdk::slot_history::MAX_ENTRIES);
    assert_eq!(TOKEN_ACCOUNT_LEN, spl_token::state::Account::get_packed_len());
}
