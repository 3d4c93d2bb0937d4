//! The calls into other crates, each with what the library takes as given of it.
use crate::error::{
    error_words, internal_error_view, scan_error_view, Error, ErrorView, INVALID_PARAMS,
};
use crate::types::UiAccountEncoding::{Base58, Base64, Base64Zstd, Binary, JsonParsed};
use crate::types::{
    AccountView, CompareView, DbAccountInfo, EncodedBytesView, Memcmp, MemcmpEncodedBytes,
    MemcmpEncoding, ParsedAccount, ParsedAccountView, Pubkey, UiAccountData, UiAccountDataView,
    UiAccountEncoding, UiDataSliceConfig,
};
use solana_account_decoder::parse_account_data::AccountAdditionalData;
use solana_account_decoder::UiAccount as SolanaUiAccount;
use solana_account_decoder::UiAccountData as SolanaData;
use solana_account_decoder::UiAccountEncoding::{
    Base58 as AsBase58, Base64 as AsBase64, Base64Zstd as AsBase64Zstd, Binary as AsBinary,
    JsonParsed as AsJsonParsed,
};
use solana_account_decoder::UiDataSliceConfig as SolanaSlice;
use solana_sdk::account::Account as SolanaAccount;
use solana_sdk::account::WritableAccount;
use solana_sdk::program_pack::Pack;
use solana_sdk::pubkey::Pubkey as SolanaPubkey;
use vstd::prelude::*;

verus! {

/// The bytes that `bs58::decode` reads from a text; `None` where it reports an error.
pub uninterp spec fn base58_bytes(text: Seq<char>) -> Option<Seq<u8>>;

/// The bytes that `base64::decode` reads from a text; `None` where it reports an error.
pub uninterp spec fn base64_bytes(text: Seq<char>) -> Option<Seq<u8>>;

/// The text that `bs58::encode` gives for bytes.
pub uninterp spec fn base58_text(bytes: Seq<u8>) -> Seq<char>;

/// The text that `base64::encode` gives for bytes.
pub uninterp spec fn base64_text(bytes: Seq<u8>) -> Seq<char>;

/// The frame that the `zstd` stream encoder makes of bytes at its default level; `None`
/// where it reports an error.
pub uninterp spec fn zstd_frame(bytes: Seq<u8>) -> Option<Seq<u8>>;

/// What `parse_account_data` of `solana_account_decoder` makes of the data of the account
/// at `pubkey` that the program `owner` owns, given the decimals of a token account's mint;
/// `None` where it reports an error. An amount is also written as a number where ten to
/// the power of its decimals fits in a machine word, so the width of a word counts.
pub uninterp spec fn parsed_account(
    pubkey: Seq<u8>,
    owner: Seq<u8>,
    data: Seq<u8>,
    decimals: Option<u8>,
    word_bits: u32,
) -> Option<ParsedAccountView>;

/// `bs58::decode` with its default alphabet, into a new vector.
#[verifier::external_body]
pub(crate) fn decode_base58(text: &str) -> (bytes: Option<Vec<u8>>)
    ensures
        bytes.deep_view() == base58_bytes(text@),
{
    bs58::decode(text).into_vec().ok()
}

/// `base64::decode`, with the standard alphabet.
#[verifier::external_body]
pub(crate) fn decode_base64(text: &str) -> (bytes: Option<Vec<u8>>)
    ensures
        bytes.deep_view() == base64_bytes(text@),
{
    base64::decode(text).ok()
}

/// `Pubkey::to_string` of `solana_sdk`: the base 58 text of the address, which decodes to
/// the address again.
#[verifier::external_body]
pub(crate) fn pubkey_to_string(key: &Pubkey) -> (text: String)
    ensures
        text@ == base58_text(key@),
        base58_bytes(text@) == Some(key@),
{
    SolanaPubkey::new_from_array(key.bytes).to_string()
}

/// The address of the SPL token program, `TokenkegQfeZyiNwAJbNbGKPFXCWuBvf9Ss623VQ5DA`.
pub open spec fn spl_token_id() -> Seq<u8> {
    seq![
        6u8, 221, 246, 225, 215, 101, 161, 147, 217, 203, 225, 70, 206, 235, 121, 172,
        28, 180, 133, 237, 95, 91, 55, 145, 58, 140, 245, 133, 126, 255, 0, 169,
    ]
}

/// The address of the mint of the native token,
/// `So11111111111111111111111111111111111111112`.
pub open spec fn native_mint_id() -> Seq<u8> {
    seq![
        6u8, 155, 136, 87, 254, 171, 129, 132, 251, 104, 127, 99, 70, 24, 192, 53,
        218, 196, 57, 220, 26, 235, 59, 85, 152, 160, 240, 0, 0, 0, 0, 1,
    ]
}

/// `is_known_spl_token_id` of `solana_account_decoder`: the SPL token program is the one
/// program that it knows.
#[verifier::external_body]
pub(crate) fn is_known_spl_token_id(program_id: &Pubkey) -> (known: bool)
    ensures
        known == (program_id@ == spl_token_id()),
{
    solana_account_decoder::parse_token::is_known_spl_token_id(
        &SolanaPubkey::new_from_array(program_id.bytes),
    )
}

/// `spl_token_native_mint` of `solana_account_decoder`: a constant.
#[verifier::external_body]
pub(crate) fn spl_token_native_mint() -> (mint: Pubkey)
    ensures
        mint@ == native_mint_id(),
{
    Pubkey { bytes: solana_account_decoder::parse_token::spl_token_native_mint().to_bytes() }
}

/// `spl_token_native_mint_program_id` of `solana_account_decoder`: the SPL token program.
#[verifier::external_body]
pub(crate) fn spl_token_native_mint_program_id() -> (program_id: Pubkey)
    ensures
        program_id@ == spl_token_id(),
{
    Pubkey {
        bytes: solana_account_decoder::parse_token::spl_token_native_mint_program_id().to_bytes(),
    }
}

/// The number of bytes in the data of a token account.
pub const TOKEN_ACCOUNT_LEN: usize = 165;

/// `get_packed_len` of a token account in `spl_token`: a constant.
#[verifier::external_body]
pub(crate) fn token_account_packed_len() -> (len: usize)
    ensures
        len == TOKEN_ACCOUNT_LEN,
{
    spl_token::state::Account::get_packed_len()
}

/// The mint that the data of a token account names: its first 32 bytes.
pub open spec fn token_account_mint(data: Seq<u8>) -> Option<Seq<u8>> {
    if data.len() == TOKEN_ACCOUNT_LEN {
        Some(data.subrange(0, 32))
    } else {
        None
    }
}

/// `get_token_account_mint` of `solana_account_decoder`: looks at the length alone before
/// it takes the first 32 bytes.
#[verifier::external_body]
pub(crate) fn get_token_account_mint(data: &[u8]) -> (mint: Option<Pubkey>)
    ensures
        mint.deep_view() == token_account_mint(data@),
{
    solana_account_decoder::parse_token::get_token_account_mint(data).map(
        |mint| Pubkey { bytes: mint.to_bytes() },
    )
}

/// Whether the four bytes at `at` are the tag of a packed optional address.
pub open spec fn is_option_tag(data: Seq<u8>, at: int) -> bool {
    data[at] <= 1 && data[at + 1] == 0 && data[at + 2] == 0 && data[at + 3] == 0
}

/// The decimals of the mint that the data holds; `None` where it holds no initialized mint.
/// A mint is its optional authority, its supply, its decimals, whether it is initialized,
/// and its optional freeze authority.
pub open spec fn mint_decimals(data: Seq<u8>) -> Option<u8> {
    if data.len() == 82 && is_option_tag(data, 0) && data[45] == 1 && is_option_tag(data, 46) {
        Some(data[44])
    } else {
        None
    }
}

/// `Mint::unpack` of `spl_token`: reads data of the exact length, refuses a tag or a flag
/// that stands for nothing and a mint that is not initialized. Which of its errors it
/// reports is not stated.
#[verifier::external_body]
pub(crate) fn unpack_mint_decimals(data: &[u8]) -> (decimals: Option<u8>)
    ensures
        decimals == mint_decimals(data@),
{
    spl_token::state::Mint::unpack(data).ok().map(|mint| mint.decimals)
}

/// The bytes that a comparison filter looks for; `None` where its text does not decode.
pub open spec fn filter_bytes(bytes: EncodedBytesView) -> Option<Seq<u8>> {
    match bytes {
        EncodedBytesView::Binary(text) => base58_bytes(text),
        EncodedBytesView::Base58(text) => base58_bytes(text),
        EncodedBytesView::Base64(text) => base64_bytes(text),
        EncodedBytesView::Bytes(bytes) => Some(bytes),
    }
}

/// Whether `bytes` stand at `offset` in `data`.
pub open spec fn stands_at(data: Seq<u8>, offset: usize, bytes: Seq<u8>) -> bool {
    &&& offset + bytes.len() <= data.len()
    &&& data.subrange(offset as int, offset + bytes.len()) == bytes
}

/// Whether a comparison filter finds its bytes.
pub open spec fn compare_finds(compare: CompareView, data: Seq<u8>) -> bool {
    match filter_bytes(compare.bytes) {
        Some(bytes) => stands_at(data, compare.offset, bytes),
        None => false,
    }
}

/// `Memcmp::bytes_match` of `solana_client`: decodes the filter's bytes and compares them
/// with those at the offset; bytes that do not decode, or reach past the end, do not match.
#[verifier::external_body]
pub(crate) fn bytes_match(compare: &Memcmp, data: &[u8]) -> (b: bool)
    ensures
        b == compare_finds(compare@, data@),
{
    let bytes = match &compare.bytes {
        MemcmpEncodedBytes::Binary(text) => solana_client::rpc_filter::MemcmpEncodedBytes::Binary(text.clone()),
        MemcmpEncodedBytes::Base58(text) => solana_client::rpc_filter::MemcmpEncodedBytes::Base58(text.clone()),
        MemcmpEncodedBytes::Base64(text) => solana_client::rpc_filter::MemcmpEncodedBytes::Base64(text.clone()),
        MemcmpEncodedBytes::Bytes(bytes) => solana_client::rpc_filter::MemcmpEncodedBytes::Bytes(bytes.clone()),
    };
    let encoding = compare.encoding.map(
        |MemcmpEncoding::Binary| solana_client::rpc_filter::MemcmpEncoding::Binary,
    );
    solana_client::rpc_filter::Memcmp { offset: compare.offset, bytes, encoding }.bytes_match(data)
}

/// The part of an account's data that a slice selects: what there is of it.
pub open spec fn sliced(data: Seq<u8>, slice: Option<UiDataSliceConfig>) -> Seq<u8> {
    match slice {
        None => data,
        Some(slice) => if slice.offset >= data.len() {
            Seq::empty()
        } else if slice.offset + slice.length > data.len() {
            data.skip(slice.offset as int)
        } else {
            data.subrange(slice.offset as int, slice.offset + slice.length)
        },
    }
}

/// The most bytes of account data that are written in base 58.
pub const MAX_BASE58_BYTES: usize = 128;

/// The base 58 text of a slice of account data, or a text that says that the account is
/// too large for it.
pub open spec fn base58_data(data: Seq<u8>, slice: Option<UiDataSliceConfig>) -> Seq<char> {
    if data.len() <= MAX_BASE58_BYTES {
        base58_text(sliced(data, slice))
    } else {
        "error: data too large for bs58 encoding"@
    }
}

/// Compressed data as it is answered: the frame in base 64, or the bytes themselves where
/// they were not compressed.
pub open spec fn zstd_data(frame: Option<Seq<u8>>, bytes: Seq<u8>) -> UiAccountDataView {
    match frame {
        Some(frame) => UiAccountDataView::Binary(
            base64_text(frame),
            UiAccountEncoding::Base64Zstd,
        ),
        None => UiAccountDataView::Binary(base64_text(bytes), UiAccountEncoding::Base64),
    }
}

/// Parsed data as it is answered: all of it in base 64 where it does not parse.
pub open spec fn parsed_data(
    parsed: Option<ParsedAccountView>,
    data: Seq<u8>,
) -> UiAccountDataView {
    match parsed {
        Some(parsed) => UiAccountDataView::Json(parsed),
        None => UiAccountDataView::Binary(base64_text(data), UiAccountEncoding::Base64),
    }
}

/// The number that eight bytes at `at` stand for, the least significant first.
pub open spec fn le_u64(data: Seq<u8>, at: int) -> int {
    data[at] + 0x100 * data[at + 1] + 0x1_0000 * data[at + 2] + 0x100_0000 * data[at + 3]
        + 0x1_0000_0000 * data[at + 4] + 0x100_0000_0000 * data[at + 5]
        + 0x1_0000_0000_0000 * data[at + 6] + 0x100_0000_0000_0000 * data[at + 7]
}

/// The number of slots that a full slot history tells of.
pub const SLOT_HISTORY_SLOTS: u64 = 1_048_576;

/// Whether the data reads as a slot history that tells of fewer slots than a full one: an
/// optional run of 64-bit blocks with its number of blocks, the number of bits in use, and
/// the next slot.
pub open spec fn short_slot_history(data: Seq<u8>) -> bool {
    let blocks = le_u64(data, 1);
    ||| {
        &&& data.len() >= 17
        &&& data[0] == 0
        &&& le_u64(data, 1) == 0
    }
    ||| {
        &&& data.len() >= 9
        &&& data[0] == 1
        &&& blocks > 0
        &&& data.len() >= 25 + 8 * blocks
        &&& le_u64(data, 9 + 8 * blocks) <= 64 * blocks
        &&& le_u64(data, 9 + 8 * blocks) < SLOT_HISTORY_SLOTS
    }
}

/// The address of the program that owns the system variables,
/// `Sysvar1111111111111111111111111111111111111`.
pub open spec fn sysvar_id() -> Seq<u8> {
    seq![
        6u8, 167, 213, 23, 24, 117, 247, 41, 199, 61, 147, 64, 143, 33, 97, 32,
        6, 126, 216, 140, 118, 224, 140, 40, 127, 193, 148, 96, 0, 0, 0, 0,
    ]
}

/// The address of the slot history, `SysvarS1otHistory11111111111111111111111111`.
pub open spec fn slot_history_id() -> Seq<u8> {
    seq![
        6u8, 167, 213, 23, 25, 47, 10, 175, 200, 117, 226, 225, 132, 87, 124, 80,
        105, 207, 200, 70, 73, 227, 235, 146, 120, 47, 149, 141, 72, 0, 0, 0,
    ]
}

/// Whether an account has no parsed form because it is a slot history that is too short:
/// the encoder panics on it.
pub open spec fn unencodable(
    pubkey: Seq<u8>,
    account: AccountView,
    encoding: UiAccountEncoding,
) -> bool {
    &&& encoding == UiAccountEncoding::JsonParsed
    &&& account.owner == sysvar_id()
    &&& pubkey == slot_history_id()
    &&& short_slot_history(account.data)
}

/// `UiAccount::encode` of `solana_account_decoder`, of whose result it hands back the data.
/// The binary encodings take the sliced data; a parsed account ignores the slice, and is
/// written in base 64 where it does not parse. The encoder panics on a slot history that
/// is too short.
#[verifier::external_body]
pub(crate) fn encode_data(
    pubkey: &Pubkey,
    account: &DbAccountInfo,
    encoding: UiAccountEncoding,
    decimals: Option<u8>,
    slice: Option<UiDataSliceConfig>,
) -> (data: UiAccountData)
    requires
        !unencodable(pubkey@, account@, encoding),
    ensures
        encoding == UiAccountEncoding::Binary ==> data@ == UiAccountDataView::LegacyBinary(
            base58_data(account.data@, slice),
        ),
        encoding == UiAccountEncoding::Base58 ==> data@ == UiAccountDataView::Binary(
            base58_data(account.data@, slice),
            encoding,
        ),
        encoding == UiAccountEncoding::Base64 ==> data@ == UiAccountDataView::Binary(
            base64_text(sliced(account.data@, slice)),
            encoding,
        ),
        encoding == UiAccountEncoding::Base64Zstd ==> data@ == zstd_data(
            zstd_frame(sliced(account.data@, slice)),
            sliced(account.data@, slice),
        ),
        encoding == UiAccountEncoding::JsonParsed ==> data@ == parsed_data(
            parsed_account(pubkey@, account.owner@, account.data@, decimals, usize::BITS),
            account.data@,
        ),
{
    let owner = SolanaPubkey::new_from_array(account.owner.bytes);
    let answer = SolanaUiAccount::encode(
        &SolanaPubkey::new_from_array(pubkey.bytes),
        &SolanaAccount::create(account.lamports, account.data.clone(), owner, account.executable, account.rent_epoch),
        [AsBinary, AsBase58, AsBase64, AsJsonParsed, AsBase64Zstd][encoding as usize],
        Some(AccountAdditionalData { spl_token_decimals: decimals }),
        slice.map(|UiDataSliceConfig { offset, length }| SolanaSlice { offset, length }),
    );
    match answer.data {
        SolanaData::LegacyBinary(text) => UiAccountData::LegacyBinary(text),
        SolanaData::Json(parsed) => UiAccountData::Json(ParsedAccount { program: parsed.program, parsed: parsed.parsed.to_string(), space: parsed.space }),
        SolanaData::Binary(text, label) => UiAccountData::Binary(text, [Binary, Base58, Base64, JsonParsed, Base64Zstd][label as usize]),
    }
}

/// `Error::invalid_params` of `jsonrpc_core`: the code for invalid parameters with the
/// message, and no data.
#[verifier::external_body]
pub(crate) fn invalid_params(message: &str) -> (error: Error)
    ensures
        error@ == (ErrorView { code: INVALID_PARAMS, message: message@ }),
{
    let error = jsonrpc_core::Error::invalid_params(message);
    Error { code: error.code.code(), message: error.message }
}

/// `Error::internal_error` of `jsonrpc_core`: the code for internal errors with the words
/// for it, and no data.
#[verifier::external_body]
pub(crate) fn internal_error() -> (error: Error)
    ensures
        error@ == internal_error_view(),
{
    let error = jsonrpc_core::Error::internal_error();
    Error { code: error.code.code(), message: error.message }
}

/// `to_string` of an error of `jsonrpc_core`: the words for its code, a colon and its
/// message.
#[verifier::external_body]
pub(crate) fn error_text(error: &Error) -> (text: String)
    ensures
        text@ == error_words(error@),
{
    let code = jsonrpc_core::ErrorCode::from(error.code);
    jsonrpc_core::Error { code, message: error.message.clone(), data: None }.to_string()
}

/// The conversion of `ScanError` of `solana_client` into an error of `jsonrpc_core`: the
/// code for failed scans with the message, and no data.
#[verifier::external_body]
pub(crate) fn scan_error(message: String) -> (error: Error)
    ensures
        error@ == scan_error_view(message@),
{
    let error = jsonrpc_core::Error::from(
        solana_client::rpc_custom_error::RpcCustomError::ScanError { message },
    );
    Error { code: error.code.code(), message: error.message }
}

} // verus!
