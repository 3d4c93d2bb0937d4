//! Which errors are answered, code and message.
use crate::account::{base58_refused, base58_size_error, slice_error, slice_refused};
use crate::error::{
    answer_scan_message, code_description, database_error, database_scan_message, error_words,
    internal_error_view, not_found_error, scan_error_view, DatabaseErrorView, ErrorView,
};
use crate::lookup::{mint_error, no_mint_error};
use crate::types::{AccountView, UiAccountEncoding};
use vstd::prelude::*;

verus! {

/// A failure of the database is answered by whether the object is missing, and says no more: a
/// missing object is an invalid parameter, anything else an internal error.
pub proof fn law_database_failures(missing: DatabaseErrorView, other: DatabaseErrorView)
    requires
        missing.object_not_found,
        !other.object_not_found,
    ensures
        database_error(missing).code == -32602,
        database_error(missing).message == "Object is not found"@,
        database_error(other).code == -32603,
        database_error(other).message == "Internal error"@,
        internal_error_view() == database_error(other),
        not_found_error() == database_error(missing),
{
}

/// A failed scan has its own code, and its message holds the failure in words: that of the
/// database, or the kind and the message of the error that the answer met.
pub proof fn law_scan_failures(
    failure: DatabaseErrorView,
    error: ErrorView,
    message: Seq<char>,
)
    ensures
        scan_error_view(message).code == -32012,
        scan_error_view(message).message == message,
        database_scan_message(failure) == "Failed to load data from the database. Error: ("@
            + failure.text + ")"@,
        answer_scan_message(error) == "Failed to convert the JSON rpc object. Error: ("@
            + error_words(error) + ")"@,
        error_words(error) == code_description(error.code) + ": "@ + error.message,
{
}

/// Each code of the protocol has its words, and every other code is a server error.
pub proof fn law_words_for_codes(code: i64)
    ensures
        code == -32700 ==> code_description(code) == "Parse error"@,
        code == -32600 ==> code_description(code) == "Invalid request"@,
        code == -32601 ==> code_description(code) == "Method not found"@,
        code == -32602 ==> code_description(code) == "Invalid params"@,
        code == -32603 ==> code_description(code) == "Internal error"@,
        code != -32700 && !(-32603 <= code <= -32600) ==> code_description(code)
            == "Server error"@,
{
}

/// A slice is refused of parsed accounts and of no others, and base 58 is refused of accounts of
/// more than 128 bytes and of no others, both as requests that are not valid.
pub proof fn law_refusals(encoding: UiAccountEncoding, sliced: bool, account: AccountView)
    ensures
        slice_refused(encoding, sliced) <==> sliced && encoding is JsonParsed,
        base58_refused(account, encoding) <==> account.data.len() > 128 && (encoding is Binary
            || encoding is Base58),
        slice_error().code == -32600,
        slice_error().message
            == "Sliced account data can only be encoded using binary (base 58) or base64 encoding."@,
        base58_size_error().code == -32600,
        base58_size_error().message
            == "Encoded binary (base 58) data should be less than 128 bytes, please use Base64 encoding."@,
{
}

/// A mint that is not known and data that holds no mint are invalid parameters.
pub proof fn law_mint_failures()
    ensures
        mint_error().code == -32602,
        mint_error().message == "Invalid param: Token mint could not be unpacked"@,
        no_mint_error().code == -32602,
        no_mint_error().message == "Could not find the mint"@,
{
}

} // verus!
