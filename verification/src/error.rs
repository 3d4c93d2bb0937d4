//! The errors of the service and how one becomes another.
use crate::outside::{error_text, internal_error, invalid_params, scan_error};
use vstd::prelude::*;
use vstd::string::StringExecFns;

verus! {

/// The code of a request that is not valid.
pub const INVALID_REQUEST: i64 = -32600;

/// The code of a request whose parameters are not valid.
pub const INVALID_PARAMS: i64 = -32602;

/// The code of a fault inside the service.
pub const INTERNAL_ERROR: i64 = -32603;

/// The code of a scan of accounts that failed.
pub const SCAN_ERROR: i64 = -32012;

/// An error as it is answered: its JSON-RPC code and its message.
#[derive(Clone, Debug, PartialEq, Eq)]
pub struct Error {
    pub code: i64,
    pub message: String,
}

#[verifier::ext_equal]
pub struct ErrorView {
    pub code: i64,
    pub message: Seq<char>,
}

impl View for Error {
    type V = ErrorView;

    open spec fn view(&self) -> ErrorView {
        ErrorView { code: self.code, message: self.message@ }
    }
}

impl DeepView for Error {
    type V = ErrorView;

    open spec fn deep_view(&self) -> ErrorView {
        self@
    }
}

/// The value of an outcome that is answered.
pub open spec fn outcome<T: DeepView>(result: Result<T, Error>) -> Result<T::V, ErrorView> {
    match result {
        Ok(value) => Ok(value.deep_view()),
        Err(error) => Err(error@),
    }
}

/// A failed scan of accounts.
#[derive(Clone, Debug, PartialEq, Eq)]
pub enum RpcCustomError {
    ScanError { message: String },
}

impl View for RpcCustomError {
    type V = Seq<char>;

    open spec fn view(&self) -> Seq<char> {
        match self {
            RpcCustomError::ScanError { message } => message@,
        }
    }
}

/// The value of the outcome of a scan: the accounts, or the message of its failure.
pub open spec fn scan_outcome<T: DeepView>(result: Result<T, RpcCustomError>) -> Result<
    T::V,
    Seq<char>,
> {
    match result {
        Ok(value) => Ok(value.deep_view()),
        Err(error) => Err(error@),
    }
}

/// What the database says when it fails: whether the object that was asked for is not
/// there, and the error in words.
#[derive(Clone, Debug, PartialEq, Eq)]
pub struct PostgresRpcServerError {
    pub object_not_found: bool,
    pub text: String,
}

#[verifier::ext_equal]
pub struct DatabaseErrorView {
    pub object_not_found: bool,
    pub text: Seq<char>,
}

impl View for PostgresRpcServerError {
    type V = DatabaseErrorView;

    open spec fn view(&self) -> DatabaseErrorView {
        DatabaseErrorView { object_not_found: self.object_not_found, text: self.text@ }
    }
}

/// The value of a reply of the database.
pub open spec fn reply_view<T: DeepView>(reply: Result<T, PostgresRpcServerError>) -> Result<
    T::V,
    DatabaseErrorView,
> {
    match reply {
        Ok(value) => Ok(value.deep_view()),
        Err(error) => Err(error@),
    }
}

/// The error for an object that is not in the database.
pub open spec fn not_found_error() -> ErrorView {
    ErrorView { code: INVALID_PARAMS, message: "Object is not found"@ }
}

/// The error for a fault inside the service.
pub open spec fn internal_error_view() -> ErrorView {
    ErrorView { code: INTERNAL_ERROR, message: "Internal error"@ }
}

/// How a failure of the database is answered.
pub open spec fn database_error(error: DatabaseErrorView) -> ErrorView {
    if error.object_not_found {
        not_found_error()
    } else {
        internal_error_view()
    }
}

/// The message of a scan that failed in the database.
pub open spec fn database_scan_message(error: DatabaseErrorView) -> Seq<char> {
    "Failed to load data from the database. Error: ("@ + error.text + ")"@
}

/// The words for an error code.
pub open spec fn code_description(code: i64) -> Seq<char> {
    if code == -32700 {
        "Parse error"@
    } else if code == INVALID_REQUEST {
        "Invalid request"@
    } else if code == -32601 {
        "Method not found"@
    } else if code == INVALID_PARAMS {
        "Invalid params"@
    } else if code == INTERNAL_ERROR {
        "Internal error"@
    } else {
        "Server error"@
    }
}

/// An error in words.
pub open spec fn error_words(error: ErrorView) -> Seq<char> {
    code_description(error.code) + ": "@ + error.message
}

/// The message of a scan that failed on an answer that cannot be given.
pub open spec fn answer_scan_message(error: ErrorView) -> Seq<char> {
    "Failed to convert the JSON rpc object. Error: ("@ + error_words(error) + ")"@
}

/// How a failed scan is answered.
pub open spec fn scan_error_view(message: Seq<char>) -> ErrorView {
    ErrorView { code: SCAN_ERROR, message }
}

impl RpcCustomError {
    /// A scan that failed in the database.
    pub fn from_database_error(error: PostgresRpcServerError) -> (custom: RpcCustomError)
        ensures
            custom@ == database_scan_message(error@),
    {
        let message = "Failed to load data from the database. Error: (".to_string().concat(
            error.text.as_str(),
        ).concat(")");
        RpcCustomError::ScanError { message }
    }
}

/// A scan that failed on an answer that cannot be given.
pub fn rpc_custom_error_from_json_rpc_error(error: Error) -> (custom: RpcCustomError)
    ensures
        custom@ == answer_scan_message(error@),
{
    let words = error_text(&error);
    let message = "Failed to convert the JSON rpc object. Error: (".to_string().concat(
        words.as_str(),
    ).concat(")");
    RpcCustomError::ScanError { message }
}

impl Error {
    /// The answer to a failure of the database.
    pub fn from_database_error(error: PostgresRpcServerError) -> (answer: Error)
        ensures
            answer@ == database_error(error@),
    {
        if error.object_not_found {
            invalid_params("Object is not found")
        } else {
            internal_error()
        }
    }

    /// The answer to a failed scan.
    pub fn from_custom_error(error: RpcCustomError) -> (answer: Error)
        ensures
            answer@ == scan_error_view(error@),
    {
        match error {
            RpcCustomError::ScanError { message } => scan_error(message),
        }
    }
}

} // verus!
