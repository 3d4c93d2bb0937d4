use request_processor::error::{Error, PostgresRpcServerError};
use request_processor::lookup::{
    get_encoded_account, get_mint_decimals, get_mint_owner_and_decimals, get_parsed_token_account,
    AccountLookup, AccountReply, MintLookup, Step, NATIVE_MINT_DECIMALS,
};
use request_processor::types::{
    DbAccountInfo, Pubkey, UiAccount, UiAccountData, UiAccountEncoding, UiDataSliceConfig,
};

fn key(byte: u8) -> Pubkey {
    Pubkey { bytes: [byte; 32] }
}

fn token_program() -> Pubkey {
    Pubkey { bytes: spl_token::id().to_bytes() }
}

fn native_mint() -> Pubkey {
    Pubkey { bytes: spl_token::native_mint::id().to_bytes() }
}

fn mint_data(decimals: u8) -> Vec<u8> {
    let mut data = vec![0; 82];
    data[44] = decimals;
    data[45] = 1;
    data
}

fn token_data(mint: Pubkey, owner: Pubkey, amount: u64) -> Vec<u8> {
    let mut data = vec![0; 165];
    data[..32].copy_from_slice(&mint.bytes);
    data[32..64].copy_from_slice(&owner.bytes);
    data[64..72].copy_from_slice(&amount.to_le_bytes());
    data[108] = 1;
    data
}

fn account(pubkey: Pubkey, owner: Pubkey, data: Vec<u8>) -> DbAccountInfo {
    DbAccountInfo { pubkey, lamports: 7, owner, executable: false, rent_epoch: 3, data }
}

fn missing() -> AccountReply {
    Err(PostgresRpcServerError { object_not_found: true, text: "missing".to_string() })
}

fn broken() -> AccountReply {
    Err(PostgresRpcServerError { object_not_found: false, text: "broken".to_string() })
}

fn internal() -> Error {
    Error { code: -32603, message: "Internal error".to_string() }
}

fn parsed(ui: UiAccount) -> (String, String, u64) {
    match ui.data {
        UiAccountData::Json(parsed) => (parsed.program, parsed.parsed, parsed.space),
        _ => panic!("not parsed"),
    }
}

fn parsed_lookup(pubkey: Pubkey) -> AccountLookup {
    get_encoded_account(&pubkey, UiAccountEncoding::JsonParsed, None)
}

#[test]
fn mints_tell_their_decimals() {
    assert_eq!(get_mint_decimals(&mint_data(6)), Ok(6));
    let mut with_authorities = mint_data(3);
    with_authorities[0] = 1;
    with_authorities[46] = 1;
    assert_eq!(get_mint_decimals(&with_authorities), Ok(3));
}

#[test]
fn data_that_is_no_mint_is_refused() {
    let refused = Err(Error {
        code: -32602,
        message: "Invalid param: Token mint could not be unpacked".to_string(),
    });
    assert_eq!(get_mint_decimals(&[]), refused);
    assert_eq!(get_mint_decimals(&[0; 82]), refused);
    assert_eq!(get_mint_decimals(&[0; 165]), refused);
    let positions = [0, 1, 3, 46, 49];
    for at in positions {
        let mut data = mint_data(6);
        data[at] = 2;
        assert_eq!(get_mint_decimals(&data), refused);
    }
    let mut flag = mint_data(6);
    flag[45] = 2;
    assert_eq!(get_mint_decimals(&flag), refused);
}

#[test]
fn the_native_mint_is_known() {
    assert_eq!(
        get_mint_owner_and_decimals(&native_mint()),
        Step::Done(Ok((token_program(), 9)))
    );
    assert_eq!(NATIVE_MINT_DECIMALS, spl_token::native_mint::DECIMALS);
}

#[test]
fn other_mints_are_fetched() {
    let step = get_mint_owner_and_decimals(&key(5));
    assert_eq!(step, Step::Query(MintLookup { mint: key(5) }));
    let lookup = MintLookup { mint: key(5) };
    assert_eq!(lookup.query(), key(5));
    let reply = Ok(account(key(5), key(8), mint_data(4)));
    assert_eq!(lookup.resume(reply), Ok((key(8), 4)));
    assert_eq!(
        lookup.resume(missing()),
        Err(Error { code: -32602, message: "Object is not found".to_string() })
    );
    assert_eq!(lookup.resume(broken()), Err(internal()));
    assert_eq!(
        lookup.resume(Ok(account(key(5), key(8), vec![]))),
        Err(Error {
            code: -32602,
            message: "Invalid param: Token mint could not be unpacked".to_string(),
        })
    );
}

#[test]
fn a_token_account_takes_its_decimals_from_its_mint() {
    let token = account(key(1), token_program(), token_data(key(5), key(6), 1234));
    match get_parsed_token_account(&key(1), token) {
        Step::Query(lookup) => {
            assert_eq!(lookup.query(), key(5));
            let reply = Ok(account(key(5), token_program(), mint_data(2)));
            let (program, text, space) = parsed(lookup.resume(reply).unwrap());
            assert_eq!(program, "spl-token");
            assert_eq!(space, 165);
            assert!(text.contains("\"uiAmountString\":\"12.34\""));
            assert!(text.contains("\"decimals\":2"));
        },
        Step::Done(_) => panic!("no mint was fetched"),
    }
}

#[test]
fn a_native_token_account_fetches_no_mint() {
    let token = account(key(1), token_program(), token_data(native_mint(), key(6), 1));
    match get_parsed_token_account(&key(1), token) {
        Step::Done(Ok(ui)) => {
            let (program, text, _) = parsed(ui);
            assert_eq!(program, "spl-token");
            assert!(text.contains("\"uiAmountString\":\"0.000000001\""));
        },
        _ => panic!("not answered"),
    }
}

#[test]
fn an_account_of_another_size_names_no_mint() {
    let mint = account(key(1), token_program(), mint_data(2));
    assert_eq!(
        get_parsed_token_account(&key(1), mint),
        Step::Done(Err(Error { code: -32602, message: "Could not find the mint".to_string() }))
    );
}

#[test]
fn a_lookup_asks_for_its_account() {
    assert_eq!(parsed_lookup(key(3)).query(), key(3));
}

#[test]
fn an_account_without_lamports_is_not_there() {
    let empty =
        DbAccountInfo { lamports: 0, ..account(key(3), token_program(), vec![0; 165]) };
    assert_eq!(parsed_lookup(key(3)).try_resume(Ok(empty)), Some(Step::Done(Ok(None))));
}

#[test]
fn a_lookup_hides_why_the_database_failed() {
    assert_eq!(parsed_lookup(key(3)).try_resume(missing()), Some(Step::Done(Err(internal()))));
    assert_eq!(parsed_lookup(key(3)).try_resume(broken()), Some(Step::Done(Err(internal()))));
}

#[test]
fn a_lookup_answers_an_account_at_once() {
    let slice = Some(UiDataSliceConfig { offset: 1, length: 2 });
    let lookup = get_encoded_account(&key(3), UiAccountEncoding::Base64, slice);
    match lookup.try_resume(Ok(account(key(3), key(4), vec![0, 1, 2, 3]))) {
        Some(Step::Done(Ok(Some(ui)))) => {
            assert_eq!(
                ui.data,
                UiAccountData::Binary("AQI=".to_string(), UiAccountEncoding::Base64)
            );
            assert_eq!(ui.lamports, 7);
        },
        _ => panic!("not answered"),
    }
}

#[test]
fn a_token_account_is_only_parsed_when_asked() {
    let token = account(key(1), token_program(), token_data(key(5), key(6), 1234));
    let lookup = get_encoded_account(&key(1), UiAccountEncoding::Base64, None);
    match lookup.try_resume(Ok(token.clone())) {
        Some(Step::Done(Ok(Some(ui)))) => {
            let text = base64::encode(&token.data);
            assert_eq!(ui.data, UiAccountData::Binary(text, UiAccountEncoding::Base64));
        },
        _ => panic!("not answered"),
    }
}

#[test]
fn a_large_account_is_answered_with_a_notice_in_base58() {
    let lookup = get_encoded_account(&key(1), UiAccountEncoding::Base58, None);
    match lookup.try_resume(Ok(account(key(1), key(2), vec![0; 129]))) {
        Some(Step::Done(Ok(Some(ui)))) => assert_eq!(
            ui.data,
            UiAccountData::Binary(
                "error: data too large for bs58 encoding".to_string(),
                UiAccountEncoding::Base58
            )
        ),
        _ => panic!("not answered"),
    }
}

#[test]
fn a_parsed_token_account_takes_two_queries() {
    let token = account(key(1), token_program(), token_data(key(5), key(6), 1234));
    match parsed_lookup(key(1)).try_resume(Ok(token)) {
        Some(Step::Query(next)) => {
            assert_eq!(next.query(), key(5));
            match next.clone().try_resume(Ok(account(key(5), token_program(), mint_data(0)))) {
                Some(Step::Done(Ok(Some(ui)))) => {
                    assert!(parsed(ui).1.contains("\"uiAmountString\":\"1234\""));
                },
                _ => panic!("not answered"),
            }
            assert_eq!(
                next.clone().try_resume(missing()),
                Some(Step::Done(Err(Error {
                    code: -32602,
                    message: "Object is not found".to_string(),
                })))
            );
            assert_eq!(next.clone().try_resume(broken()), Some(Step::Done(Err(internal()))));
            assert_eq!(
                next.try_resume(Ok(account(key(5), token_program(), vec![1]))),
                Some(Step::Done(Err(Error {
                    code: -32602,
                    message: "Invalid param: Token mint could not be unpacked".to_string(),
                })))
            );
        },
        _ => panic!("no mint was fetched"),
    }
}

#[test]
fn a_short_slot_history_cannot_be_answered_parsed() {
    let history = Pubkey { bytes: solana_sdk::sysvar::slot_history::id().to_bytes() };
    let sysvar = Pubkey { bytes: solana_sdk::sysvar::id().to_bytes() };
    let short = account(history, sysvar, vec![0; 17]);
    assert_eq!(parsed_lookup(history).try_resume(Ok(short.clone())), None);
    let empty = DbAccountInfo { lamports: 0, ..short.clone() };
    assert_eq!(parsed_lookup(history).try_resume(Ok(empty)), Some(Step::Done(Ok(None))));
    let binary = get_encoded_account(&history, UiAccountEncoding::Binary, None);
    assert!(binary.try_resume(Ok(short)).is_some());
}

#[test]
fn a_token_account_at_the_slot_history_cannot_always_be_answered() {
    let history = Pubkey { bytes: solana_sdk::sysvar::slot_history::id().to_bytes() };
    let sysvar = Pubkey { bytes: solana_sdk::sysvar::id().to_bytes() };
    let mut data = vec![0; 165];
    data[0] = 1;
    data[1] = 2;
    let lookup = match get_parsed_token_account(&history, account(history, sysvar, data)) {
        Step::Query(lookup) => lookup,
        _ => panic!("no mint was fetched"),
    };
    assert_eq!(lookup.clone().try_resume(broken()), Some(Err(internal())));
    let found = Ok(account(key(5), token_program(), mint_data(2)));
    assert_eq!(lookup.try_resume(found), None);
}

#[test]
fn parsed_amounts_are_read_back_exactly() {
    let amounts = [1, 1234, 9_007_199_254_740_993, 1_234_567_890_123_456_789, u64::MAX];
    for amount in amounts {
        let token = account(key(1), token_program(), token_data(native_mint(), key(6), amount));
        let text = match get_parsed_token_account(&key(1), token) {
            Step::Done(Ok(ui)) => parsed(ui).1,
            _ => panic!("not answered"),
        };
        let value: serde_json::Value = serde_json::from_str(&text).unwrap();
        let ui_amount = value["info"]["tokenAmount"]["uiAmount"].as_f64().unwrap();
        assert_eq!(ui_amount, amount as f64 / 1_000_000_000.0);
        assert_eq!(value.to_string(), text);
    }
}
