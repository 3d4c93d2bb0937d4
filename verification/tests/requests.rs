use request_processor::error::{Error, PostgresRpcServerError};
use request_processor::lookup::{AccountReply, Step};
use request_processor::processor::{
    AccountIndex, AccountsReply, JsonRpcRequestProcessor, MultipleAccountsRequest,
    ProgramAccountsRequest,
};
use request_processor::types::{
    DbAccountInfo, Memcmp, MemcmpEncodedBytes, OptionalContext, Pubkey, RpcAccountInfoConfig,
    RpcFilterType, RpcKeyedAccount, RpcResponse, UiAccount, UiAccountData, UiAccountEncoding,
    UiDataSliceConfig,
};

fn processor() -> JsonRpcRequestProcessor<u32> {
    JsonRpcRequestProcessor::new(8)
}

fn key(byte: u8) -> Pubkey {
    Pubkey { bytes: [byte; 32] }
}

fn token_program() -> Pubkey {
    Pubkey { bytes: spl_token::id().to_bytes() }
}

fn account(pubkey: Pubkey, owner: Pubkey, data: Vec<u8>) -> DbAccountInfo {
    DbAccountInfo { pubkey, lamports: 7, owner, executable: false, rent_epoch: 3, data }
}

fn mint_data(decimals: u8) -> Vec<u8> {
    let mut data = vec![0; 82];
    data[44] = decimals;
    data[45] = 1;
    data
}

fn token_account(pubkey: Pubkey, mint: Pubkey, owner: Pubkey) -> DbAccountInfo {
    let mut data = vec![0; 165];
    data[..32].copy_from_slice(&mint.bytes);
    data[32..64].copy_from_slice(&owner.bytes);
    data[64] = 100;
    data[108] = 1;
    account(pubkey, token_program(), data)
}

fn parsed_config() -> Option<RpcAccountInfoConfig> {
    Some(RpcAccountInfoConfig { encoding: Some(UiAccountEncoding::JsonParsed), data_slice: None })
}

fn base64_config() -> Option<RpcAccountInfoConfig> {
    Some(RpcAccountInfoConfig { encoding: Some(UiAccountEncoding::Base64), data_slice: None })
}

fn sliced_parsed_config() -> Option<RpcAccountInfoConfig> {
    Some(RpcAccountInfoConfig {
        encoding: Some(UiAccountEncoding::JsonParsed),
        data_slice: Some(UiDataSliceConfig { offset: 0, length: 1 }),
    })
}

fn slice_error() -> Error {
    Error {
        code: -32600,
        message: "Sliced account data can only be encoded using binary (base 58) or base64 encoding.".to_string(),
    }
}

fn bytes_at(offset: usize, bytes: &[u8]) -> RpcFilterType {
    RpcFilterType::Memcmp(Memcmp {
        offset,
        bytes: MemcmpEncodedBytes::Bytes(bytes.to_vec()),
        encoding: None,
    })
}

fn database() -> Vec<DbAccountInfo> {
    vec![
        account(key(1), key(90), vec![1]),
        token_account(key(2), key(50), key(60)),
        account(key(50), token_program(), mint_data(1)),
        token_account(key(3), key(51), key(60)),
        token_account(key(4), key(50), key(61)),
        DbAccountInfo { lamports: 0, ..account(key(5), key(90), vec![]) },
    ]
}

fn fetch(pubkey: Pubkey) -> AccountReply {
    match database().into_iter().find(|account| account.pubkey == pubkey) {
        Some(account) => Ok(account),
        None => {
            Err(PostgresRpcServerError { object_not_found: true, text: "missing".to_string() })
        },
    }
}

fn run_one(
    pubkey: Pubkey,
    config: Option<RpcAccountInfoConfig>,
) -> Result<RpcResponse<Option<UiAccount>>, Error> {
    let mut step = processor().get_account_info(&pubkey, config);
    loop {
        match step {
            Step::Done(result) => return result,
            Step::Query(request) => {
                let reply = fetch(request.query());
                step = request.try_resume(reply).unwrap();
            },
        }
    }
}

fn run_several(
    pubkeys: Vec<Pubkey>,
    config: Option<RpcAccountInfoConfig>,
) -> (Result<RpcResponse<Vec<Option<UiAccount>>>, Error>, Vec<Pubkey>) {
    let mut queries = vec![];
    let mut step: Step<MultipleAccountsRequest, RpcResponse<Vec<Option<UiAccount>>>> =
        processor().get_multiple_accounts(pubkeys, config);
    loop {
        match step {
            Step::Done(result) => return (result, queries),
            Step::Query(request) => {
                let query = request.query();
                queries.push(query);
                step = request.try_resume(fetch(query)).unwrap();
            },
        }
    }
}

fn indexed(request: &ProgramAccountsRequest) -> AccountsReply {
    let names = |account: &DbAccountInfo, at: usize| {
        account.data.len() == 165 && account.data[at..at + 32] == request.key.bytes
    };
    Ok(database()
        .into_iter()
        .filter(|account| match request.index {
            AccountIndex::Owner => account.owner == request.key,
            AccountIndex::SplTokenOwner => names(account, 32),
            AccountIndex::SplTokenMint => names(account, 0),
        })
        .collect())
}

fn found(
    result: Option<Result<OptionalContext<Vec<RpcKeyedAccount>>, Error>>,
) -> Vec<RpcKeyedAccount> {
    match result {
        Some(Ok(OptionalContext::NoContext(found))) => found,
        _ => panic!("no accounts"),
    }
}

#[test]
fn a_processor_keeps_its_configuration() {
    assert_eq!(processor().config, 8);
}

#[test]
fn one_account_is_answered_at_slot_zero() {
    let answer = run_one(key(1), None).unwrap();
    assert_eq!(answer.context.slot, 0);
    assert_eq!(answer.value.unwrap().data, UiAccountData::LegacyBinary("2".to_string()));
}

#[test]
fn one_account_without_lamports_is_no_account() {
    assert_eq!(run_one(key(5), base64_config()).unwrap().value, None);
}

#[test]
fn one_missing_account_is_an_internal_error() {
    assert_eq!(
        run_one(key(99), None),
        Err(Error { code: -32603, message: "Internal error".to_string() })
    );
}

#[test]
fn one_parsed_token_account_is_answered_with_its_mint() {
    match run_one(key(2), parsed_config()).unwrap().value.unwrap().data {
        UiAccountData::Json(parsed) => {
            assert!(parsed.parsed.contains("\"uiAmountString\":\"10\""));
        },
        _ => panic!("not parsed"),
    }
}

#[test]
fn one_parsed_token_account_with_a_missing_mint_is_refused() {
    assert_eq!(
        run_one(key(3), parsed_config()),
        Err(Error { code: -32602, message: "Object is not found".to_string() })
    );
}

#[test]
fn sliced_parsed_accounts_are_refused_before_any_query() {
    assert_eq!(
        processor().get_account_info(&key(1), sliced_parsed_config()),
        Step::Done(Err(slice_error()))
    );
    let (answer, queries) = run_several(vec![key(1), key(2)], sliced_parsed_config());
    assert_eq!(answer, Err(slice_error()));
    assert_eq!(queries, vec![]);
}

#[test]
fn sliced_parsed_program_accounts_are_a_failed_scan() {
    let request =
        processor().get_program_accounts(&key(90), sliced_parsed_config(), vec![], false);
    assert_eq!(
        request.try_resume(Ok(vec![])),
        Some(Err(Error {
            code: -32012,
            message: "Failed to convert the JSON rpc object. Error: (Invalid request: Sliced account data can only be encoded using binary (base 58) or base64 encoding.)".to_string(),
        }))
    );
}

#[test]
fn no_accounts_are_answered_without_a_query() {
    let (answer, queries) = run_several(vec![], None);
    let answer = answer.unwrap();
    assert_eq!(answer.context.slot, 0);
    assert_eq!(answer.value, vec![]);
    assert_eq!(queries, vec![]);
}

#[test]
fn several_accounts_are_answered_in_order() {
    let pubkeys = vec![key(2), key(5), key(1), key(2)];
    let (answer, queries) = run_several(pubkeys.clone(), parsed_config());
    assert_eq!(queries, vec![key(2), key(50), key(5), key(1), key(2), key(50)]);
    let one_by_one: Vec<Option<UiAccount>> =
        pubkeys.into_iter().map(|key| run_one(key, parsed_config()).unwrap().value).collect();
    assert_eq!(answer.unwrap().value, one_by_one);
}

#[test]
fn the_first_failure_ends_a_request_for_several_accounts() {
    let (answer, queries) = run_several(vec![key(1), key(3), key(99), key(2)], parsed_config());
    assert_eq!(
        answer,
        Err(Error { code: -32602, message: "Object is not found".to_string() })
    );
    assert_eq!(queries, vec![key(1), key(3), key(51)]);
}

#[test]
fn program_accounts_are_found_by_the_program() {
    let filters = vec![RpcFilterType::DataSize(1)];
    let request =
        processor().get_program_accounts(&key(90), None, filters.clone(), false);
    assert_eq!(
        request,
        ProgramAccountsRequest {
            index: AccountIndex::Owner,
            key: key(90),
            program_id: key(90),
            config: None,
            filters,
        }
    );
    let reply = indexed(&request);
    let answer = found(request.try_resume(reply));
    assert_eq!(answer.len(), 1);
    assert_eq!(
        answer[0].pubkey,
        solana_sdk::pubkey::Pubkey::new_from_array([1; 32]).to_string()
    );
}

#[test]
fn token_accounts_are_found_by_their_owner() {
    let filters = vec![RpcFilterType::DataSize(165), bytes_at(32, &[60; 32])];
    let request = processor().get_program_accounts(
        &token_program(),
        base64_config(),
        filters.clone(),
        false,
    );
    let mut extended = filters;
    extended.push(RpcFilterType::DataSize(165));
    extended.push(bytes_at(32, &[60; 32]));
    assert_eq!(
        request,
        ProgramAccountsRequest {
            index: AccountIndex::SplTokenOwner,
            key: key(60),
            program_id: token_program(),
            config: base64_config(),
            filters: extended,
        }
    );
}

#[test]
fn token_accounts_are_found_by_their_mint() {
    let filters = vec![RpcFilterType::DataSize(165), bytes_at(0, &[50; 32])];
    let request = processor().get_program_accounts(
        &token_program(),
        base64_config(),
        filters.clone(),
        false,
    );
    let mut extended = filters;
    extended.push(RpcFilterType::DataSize(165));
    extended.push(bytes_at(0, &[50; 32]));
    assert_eq!(
        request,
        ProgramAccountsRequest {
            index: AccountIndex::SplTokenMint,
            key: key(50),
            program_id: token_program(),
            config: base64_config(),
            filters: extended,
        }
    );
    let reply = indexed(&request);
    let answer = found(request.try_resume(reply));
    let keys: Vec<String> = answer.into_iter().map(|keyed| keyed.pubkey).collect();
    assert_eq!(
        keys,
        vec![
            solana_sdk::pubkey::Pubkey::new_from_array([2; 32]).to_string(),
            solana_sdk::pubkey::Pubkey::new_from_array([4; 32]).to_string(),
        ]
    );
}

#[test]
fn the_owner_goes_before_the_mint() {
    let filters =
        vec![RpcFilterType::DataSize(165), bytes_at(0, &[50; 32]), bytes_at(32, &[60; 32])];
    let request =
        processor().get_program_accounts(&token_program(), base64_config(), filters, false);
    assert_eq!(request.index, AccountIndex::SplTokenOwner);
    assert_eq!(request.key, key(60));
    let reply = indexed(&request);
    let answer = found(request.try_resume(reply));
    assert_eq!(answer.len(), 1);
    assert_eq!(
        answer[0].pubkey,
        solana_sdk::pubkey::Pubkey::new_from_array([2; 32]).to_string()
    );
}

#[test]
fn the_index_does_not_show() {
    let cases = [
        vec![RpcFilterType::DataSize(165), bytes_at(32, &[60; 32])],
        vec![RpcFilterType::DataSize(165), bytes_at(0, &[50; 32])],
        vec![RpcFilterType::DataSize(165), bytes_at(0, &[50; 32]), bytes_at(32, &[61; 32])],
        vec![RpcFilterType::DataSize(165)],
        vec![],
    ];
    for filters in cases {
        let by_index = processor().get_program_accounts(
            &token_program(),
            base64_config(),
            filters.clone(),
            false,
        );
        let reply = indexed(&by_index);
        let by_program = processor().get_filtered_program_accounts(
            &token_program(),
            base64_config(),
            filters,
        );
        assert_eq!(by_index.try_resume(reply), by_program.try_resume(Ok(database())));
    }
}

#[test]
fn the_context_is_never_answered() {
    let with = processor().get_program_accounts(&key(90), None, vec![], true);
    let without = processor().get_program_accounts(&key(90), None, vec![], false);
    assert_eq!(with, without);
    let answer = found(with.try_resume(Ok(database())));
    assert_eq!(answer.len(), 2);
}

#[test]
fn a_database_that_fails_is_a_failed_scan() {
    let request = processor().get_program_accounts(&key(90), None, vec![], false);
    let reply =
        Err(PostgresRpcServerError { object_not_found: true, text: "no such table".to_string() });
    assert_eq!(
        request.try_resume(reply),
        Some(Err(Error {
            code: -32012,
            message: "Failed to load data from the database. Error: (no such table)".to_string(),
        }))
    );
}

#[test]
fn requests_by_owner_and_by_mint_name_their_index() {
    let by_owner = processor().get_filtered_spl_token_accounts_by_owner(
        None,
        &token_program(),
        &key(60),
        vec![],
    );
    assert_eq!(by_owner.index, AccountIndex::SplTokenOwner);
    assert_eq!(by_owner.filters, vec![RpcFilterType::DataSize(165), bytes_at(32, &[60; 32])]);
    let by_mint = processor().get_filtered_spl_token_accounts_by_mint(
        None,
        &token_program(),
        &key(50),
        vec![],
    );
    assert_eq!(by_mint.index, AccountIndex::SplTokenMint);
    assert_eq!(by_mint.filters, vec![RpcFilterType::DataSize(165), bytes_at(0, &[50; 32])]);
}

#[test]
fn filters_that_do_not_decode_are_not_answered() {
    let filter = RpcFilterType::Memcmp(Memcmp {
        offset: 0,
        bytes: MemcmpEncodedBytes::Base58("0".to_string()),
        encoding: None,
    });
    let request = processor().get_program_accounts(&key(90), None, vec![filter], false);
    assert_eq!(request.clone().try_resume(Ok(vec![])), None);
    let reply = Err(PostgresRpcServerError { object_not_found: false, text: "x".to_string() });
    assert!(request.try_resume(reply).is_some());
}

fn text_at(offset: usize, bytes: MemcmpEncodedBytes) -> RpcFilterType {
    RpcFilterType::Memcmp(Memcmp { offset, bytes, encoding: None })
}

fn written(byte: u8) -> Vec<MemcmpEncodedBytes> {
    let text = solana_sdk::pubkey::Pubkey::new_from_array([byte; 32]).to_string();
    vec![
        MemcmpEncodedBytes::Binary(text.clone()),
        MemcmpEncodedBytes::Base58(text),
        MemcmpEncodedBytes::Base64(base64::encode([byte; 32])),
        MemcmpEncodedBytes::Bytes(vec![byte; 32]),
    ]
}

#[test]
fn an_owner_in_text_chooses_the_owner_index() {
    for bytes in written(60) {
        let filters = vec![RpcFilterType::DataSize(165), text_at(32, bytes)];
        let request =
            processor().get_program_accounts(&token_program(), base64_config(), filters, false);
        assert_eq!(
            request,
            ProgramAccountsRequest {
                index: AccountIndex::SplTokenOwner,
                key: key(60),
                program_id: token_program(),
                config: base64_config(),
                filters: vec![
                    RpcFilterType::DataSize(165),
                    bytes_at(32, &[60; 32]),
                    RpcFilterType::DataSize(165),
                    bytes_at(32, &[60; 32]),
                ],
            }
        );
        let reply = indexed(&request);
        let answer = found(request.try_resume(reply));
        let keys: Vec<String> = answer.into_iter().map(|keyed| keyed.pubkey).collect();
        assert_eq!(
            keys,
            vec![
                solana_sdk::pubkey::Pubkey::new_from_array([2; 32]).to_string(),
                solana_sdk::pubkey::Pubkey::new_from_array([3; 32]).to_string(),
            ]
        );
    }
}

#[test]
fn a_mint_in_text_chooses_the_mint_index() {
    for bytes in written(50) {
        let filters = vec![text_at(0, bytes), RpcFilterType::DataSize(165)];
        let request =
            processor().get_program_accounts(&token_program(), base64_config(), filters, false);
        assert_eq!(request.index, AccountIndex::SplTokenMint);
        assert_eq!(request.key, key(50));
        let reply = indexed(&request);
        let answer = found(request.try_resume(reply));
        let keys: Vec<String> = answer.into_iter().map(|keyed| keyed.pubkey).collect();
        assert_eq!(
            keys,
            vec![
                solana_sdk::pubkey::Pubkey::new_from_array([2; 32]).to_string(),
                solana_sdk::pubkey::Pubkey::new_from_array([4; 32]).to_string(),
            ]
        );
    }
}

#[test]
fn text_of_another_length_chooses_no_token_index() {
    let filters = vec![
        RpcFilterType::DataSize(165),
        text_at(32, MemcmpEncodedBytes::Base58("Ldp".to_string())),
    ];
    let request = processor().get_program_accounts(&token_program(), None, filters, false);
    assert_eq!(request.index, AccountIndex::Owner);
    assert_eq!(request.key, token_program());
    assert_eq!(request.filters, vec![RpcFilterType::DataSize(165), bytes_at(32, &[1, 2, 3])]);
}

#[test]
fn text_that_does_not_decode_is_left_in_a_request() {
    let text = text_at(32, MemcmpEncodedBytes::Base58("0".to_string()));
    let filters = vec![RpcFilterType::DataSize(165), text.clone()];
    let request =
        processor().get_program_accounts(&token_program(), sliced_parsed_config(), filters, false);
    assert_eq!(request.index, AccountIndex::Owner);
    assert_eq!(request.filters, vec![RpcFilterType::DataSize(165), text]);
    assert!(matches!(request.try_resume(Ok(vec![])), Some(Err(_))));
}

#[test]
fn a_request_past_its_accounts_does_not_go_on() {
    match processor().get_multiple_accounts(vec![key(1)], None) {
        Step::Query(request) => {
            let past = MultipleAccountsRequest { next: 2, ..request.clone() };
            assert_eq!(past.try_resume(fetch(key(1))), None);
            assert!(request.try_resume(fetch(key(1))).is_some());
        },
        Step::Done(_) => panic!("nothing was fetched"),
    }
}
