use request_processor::account::{check_slice_and_encoding, encode_account};
use request_processor::error::{
    rpc_custom_error_from_json_rpc_error, Error, PostgresRpcServerError, RpcCustomError,
    INTERNAL_ERROR, INVALID_PARAMS, INVALID_REQUEST, SCAN_ERROR,
};
use request_processor::types::{DbAccountInfo, Pubkey, UiAccountEncoding};

fn database_failure(object_not_found: bool) -> PostgresRpcServerError {
    PostgresRpcServerError { object_not_found, text: "no route to host".to_string() }
}

#[test]
fn a_missing_object_is_an_invalid_parameter() {
    assert_eq!(
        Error::from_database_error(database_failure(true)),
        Error { code: -32602, message: "Object is not found".to_string() }
    );
}

#[test]
fn other_failures_of_the_database_are_internal() {
    assert_eq!(
        Error::from_database_error(database_failure(false)),
        Error { code: -32603, message: "Internal error".to_string() }
    );
}

#[test]
fn a_scan_says_why_the_database_failed() {
    let RpcCustomError::ScanError { message } =
        RpcCustomError::from_database_error(database_failure(false));
    assert_eq!(message, "Failed to load data from the database. Error: (no route to host)");
}

#[test]
fn a_scan_says_why_an_answer_failed() {
    let cases = [
        (-32700, "Parse error"),
        (-32600, "Invalid request"),
        (-32601, "Method not found"),
        (-32602, "Invalid params"),
        (-32603, "Internal error"),
        (-32012, "Server error"),
        (0, "Server error"),
    ];
    for (code, words) in cases {
        let error = Error { code, message: "too long".to_string() };
        let RpcCustomError::ScanError { message } = rpc_custom_error_from_json_rpc_error(error);
        assert_eq!(
            message,
            format!("Failed to convert the JSON rpc object. Error: ({}: too long)", words)
        );
    }
}

#[test]
fn a_failed_scan_has_its_own_code() {
    let error = RpcCustomError::ScanError { message: "why".to_string() };
    assert_eq!(
        Error::from_custom_error(error),
        Error { code: -32012, message: "why".to_string() }
    );
}

#[test]
fn codes_are_those_of_the_protocol() {
    assert_eq!(INVALID_REQUEST, jsonrpc_core::ErrorCode::InvalidRequest.code());
    assert_eq!(INVALID_PARAMS, jsonrpc_core::ErrorCode::InvalidParams.code());
    assert_eq!(INTERNAL_ERROR, jsonrpc_core::ErrorCode::InternalError.code());
    assert_eq!(
        SCAN_ERROR,
        solana_client::rpc_custom_error::JSON_RPC_SCAN_ERROR
    );
}

#[test]
fn only_parsed_accounts_refuse_a_slice() {
    let encodings = [
        UiAccountEncoding::Binary,
        UiAccountEncoding::Base58,
        UiAccountEncoding::Base64,
        UiAccountEncoding::Base64Zstd,
    ];
    for encoding in encodings {
        assert_eq!(check_slice_and_encoding(&encoding, true), Ok(()));
        assert_eq!(check_slice_and_encoding(&encoding, false), Ok(()));
    }
    assert_eq!(check_slice_and_encoding(&UiAccountEncoding::JsonParsed, false), Ok(()));
    assert_eq!(
        check_slice_and_encoding(&UiAccountEncoding::JsonParsed, true),
        Err(Error {
            code: -32600,
            message: "Sliced account data can only be encoded using binary (base 58) or base64 encoding.".to_string(),
        })
    );
}

#[test]
fn large_accounts_are_not_written_in_base58() {
    let key = Pubkey { bytes: [4; 32] };
    let account = DbAccountInfo {
        pubkey: key,
        lamports: 1,
        owner: key,
        executable: true,
        rent_epoch: 2,
        data: vec![0; 129],
    };
    assert_eq!(
        encode_account(&account, &key, UiAccountEncoding::Base58, None),
        Err(Error {
            code: -32600,
            message: "Encoded binary (base 58) data should be less than 128 bytes, please use Base64 encoding.".to_string(),
        })
    );
    assert!(encode_account(&account, &key, UiAccountEncoding::Base64, None).is_ok());
}
