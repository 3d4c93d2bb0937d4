//! The plain data that requests, replies and answers are made of, each type with the
//! mathematical value that the contracts speak of.
use vstd::prelude::*;

verus! {

/// The number of bytes in an account address.
pub const PUBKEY_BYTES: usize = 32;

/// An account address.
#[derive(Clone, Copy, Debug, PartialEq, Eq)]
pub struct Pubkey {
    pub bytes: [u8; 32],
}

impl View for Pubkey {
    type V = Seq<u8>;

    open spec fn view(&self) -> Seq<u8> {
        self.bytes@
    }
}

impl DeepView for Pubkey {
    type V = Seq<u8>;

    open spec fn deep_view(&self) -> Seq<u8> {
        self@
    }
}

impl Pubkey {
    /// The address made of the given bytes.
    pub fn new(bytes: &[u8]) -> (key: Pubkey)
        requires
            bytes@.len() == PUBKEY_BYTES,
        ensures
            key@ == bytes@,
    {
        let mut copy: [u8; 32] = [0u8;32];
        for i in 0..32usize
            invariant
                bytes@.len() == 32,
                forall|j: int| 0 <= j < i ==> copy@[j] == bytes@[j],
        {
            copy[i] = bytes[i];
        }
        assert(copy@ =~= bytes@);
        Pubkey { bytes: copy }
    }

    /// The bytes of the address.
    pub fn to_vec(&self) -> (bytes: Vec<u8>)
        ensures
            bytes@ == self@,
    {
        let mut bytes: Vec<u8> = Vec::new();
        for i in 0..32usize
            invariant
                bytes@ == self.bytes@.take(i as int),
        {
            bytes.push(self.bytes[i]);
            assert(self.bytes@.take(i as int + 1) =~= self.bytes@.take(i as int).push(
                self.bytes@[i as int],
            ));
        }
        assert(self.bytes@.take(32) =~= self.bytes@);
        bytes
    }

    /// Whether the two addresses hold the same bytes.
    pub fn same(&self, other: &Pubkey) -> (b: bool)
        ensures
            b == (self@ == other@),
    {
        for i in 0..32usize
            invariant
                forall|j: int| 0 <= j < i ==> self.bytes@[j] == other.bytes@[j],
        {
            if self.bytes[i] != other.bytes[i] {
                return false;
            }
        }
        assert(self@ =~= other@);
        true
    }
}

/// How the data of an account is written in an answer.
#[derive(Clone, Copy, Debug, PartialEq, Eq, Structural)]
pub enum UiAccountEncoding {
    /// Legacy base 58 text without a label.
    Binary,
    Base58,
    Base64,
    JsonParsed,
    Base64Zstd,
}

impl DeepView for UiAccountEncoding {
    type V = UiAccountEncoding;

    open spec fn deep_view(&self) -> UiAccountEncoding {
        *self
    }
}

/// The part of an account's data that a request asks for.
#[derive(Clone, Copy, Debug, PartialEq, Eq, Structural)]
pub struct UiDataSliceConfig {
    pub offset: usize,
    pub length: usize,
}

/// What a request may say of how accounts are to be answered.
#[derive(Clone, Copy, Debug, PartialEq, Eq, Structural)]
pub struct RpcAccountInfoConfig {
    pub encoding: Option<UiAccountEncoding>,
    pub data_slice: Option<UiDataSliceConfig>,
}

/// The encoding that a request asks for: `Binary` where it names none.
pub open spec fn requested_encoding(config: Option<RpcAccountInfoConfig>) -> UiAccountEncoding {
    match config {
        Some(RpcAccountInfoConfig { encoding: Some(encoding), .. }) => encoding,
        _ => UiAccountEncoding::Binary,
    }
}

/// The data slice that a request asks for.
pub open spec fn requested_slice(config: Option<RpcAccountInfoConfig>) -> Option<
    UiDataSliceConfig,
> {
    match config {
        Some(config) => config.data_slice,
        None => None,
    }
}

/// Splits an optional configuration into the encoding and the slice it stands for.
pub fn encoding_and_slice(config: Option<RpcAccountInfoConfig>) -> (parts: (
    UiAccountEncoding,
    Option<UiDataSliceConfig>,
))
    ensures
        parts.0 == requested_encoding(config),
        parts.1 == requested_slice(config),
{
    match config {
        None => (UiAccountEncoding::Binary, None),
        Some(config) => {
            let encoding = match config.encoding {
                Some(encoding) => encoding,
                None => UiAccountEncoding::Binary,
            };
            (encoding, config.data_slice)
        },
    }
}

/// An account as the database holds it.
#[derive(Clone, Debug, PartialEq, Eq)]
pub struct DbAccountInfo {
    pub pubkey: Pubkey,
    pub lamports: u64,
    pub owner: Pubkey,
    pub executable: bool,
    pub rent_epoch: u64,
    pub data: Vec<u8>,
}

#[verifier::ext_equal]
pub struct AccountView {
    pub pubkey: Seq<u8>,
    pub lamports: u64,
    pub owner: Seq<u8>,
    pub executable: bool,
    pub rent_epoch: u64,
    pub data: Seq<u8>,
}

impl View for DbAccountInfo {
    type V = AccountView;

    open spec fn view(&self) -> AccountView {
        AccountView {
            pubkey: self.pubkey@,
            lamports: self.lamports,
            owner: self.owner@,
            executable: self.executable,
            rent_epoch: self.rent_epoch,
            data: self.data@,
        }
    }
}

impl DeepView for DbAccountInfo {
    type V = AccountView;

    open spec fn deep_view(&self) -> AccountView {
        self@
    }
}

/// Account data that was parsed: the program's name, the parsed state as JSON text, and
/// the number of bytes that were parsed.
#[derive(Clone, Debug, PartialEq, Eq)]
pub struct ParsedAccount {
    pub program: String,
    pub parsed: String,
    pub space: u64,
}

#[verifier::ext_equal]
pub struct ParsedAccountView {
    pub program: Seq<char>,
    pub parsed: Seq<char>,
    pub space: u64,
}

/// The data of an account in an answer.
#[derive(Clone, Debug, PartialEq, Eq)]
pub enum UiAccountData {
    LegacyBinary(String),
    Json(ParsedAccount),
    Binary(String, UiAccountEncoding),
}

#[verifier::ext_equal]
pub enum UiAccountDataView {
    LegacyBinary(Seq<char>),
    Json(ParsedAccountView),
    Binary(Seq<char>, UiAccountEncoding),
}

impl View for UiAccountData {
    type V = UiAccountDataView;

    open spec fn view(&self) -> UiAccountDataView {
        match self {
            UiAccountData::LegacyBinary(text) => UiAccountDataView::LegacyBinary(text@),
            UiAccountData::Json(parsed) => UiAccountDataView::Json(
                ParsedAccountView {
                    program: parsed.program@,
                    parsed: parsed.parsed@,
                    space: parsed.space,
                },
            ),
            UiAccountData::Binary(text, encoding) => UiAccountDataView::Binary(text@, *encoding),
        }
    }
}

/// An account as it is answered.
#[derive(Clone, Debug, PartialEq, Eq)]
pub struct UiAccount {
    pub lamports: u64,
    pub data: UiAccountData,
    pub owner: String,
    pub executable: bool,
    pub rent_epoch: u64,
}

#[verifier::ext_equal]
pub struct UiAccountView {
    pub lamports: u64,
    pub data: UiAccountDataView,
    pub owner: Seq<char>,
    pub executable: bool,
    pub rent_epoch: u64,
}

impl View for UiAccount {
    type V = UiAccountView;

    open spec fn view(&self) -> UiAccountView {
        UiAccountView {
            lamports: self.lamports,
            data: self.data@,
            owner: self.owner@,
            executable: self.executable,
            rent_epoch: self.rent_epoch,
        }
    }
}

impl DeepView for UiAccount {
    type V = UiAccountView;

    open spec fn deep_view(&self) -> UiAccountView {
        self@
    }
}

/// An answered account with its address in text.
#[derive(Clone, Debug, PartialEq, Eq)]
pub struct RpcKeyedAccount {
    pub pubkey: String,
    pub account: UiAccount,
}

#[verifier::ext_equal]
pub struct KeyedAccountView {
    pub pubkey: Seq<char>,
    pub account: UiAccountView,
}

impl View for RpcKeyedAccount {
    type V = KeyedAccountView;

    open spec fn view(&self) -> KeyedAccountView {
        KeyedAccountView { pubkey: self.pubkey@, account: self.account@ }
    }
}

impl DeepView for RpcKeyedAccount {
    type V = KeyedAccountView;

    open spec fn deep_view(&self) -> KeyedAccountView {
        self@
    }
}

/// The slot that an answer was made at.
#[derive(Clone, Copy, Debug, PartialEq, Eq, Structural)]
pub struct RpcResponseContext {
    pub slot: u64,
}

/// An answer with its context.
#[derive(Clone, Debug, PartialEq, Eq)]
pub struct RpcResponse<T> {
    pub context: RpcResponseContext,
    pub value: T,
}

impl<T: DeepView> DeepView for RpcResponse<T> {
    type V = RpcResponse<T::V>;

    open spec fn deep_view(&self) -> RpcResponse<T::V> {
        RpcResponse { context: self.context, value: self.value.deep_view() }
    }
}

/// An answer that may come with its context.
#[derive(Clone, Debug, PartialEq, Eq)]
pub enum OptionalContext<T> {
    Context(RpcResponse<T>),
    NoContext(T),
}

impl<T: DeepView> DeepView for OptionalContext<T> {
    type V = OptionalContext<T::V>;

    open spec fn deep_view(&self) -> OptionalContext<T::V> {
        match self {
            OptionalContext::Context(response) => OptionalContext::Context(response.deep_view()),
            OptionalContext::NoContext(value) => OptionalContext::NoContext(value.deep_view()),
        }
    }
}

/// The bytes that a comparison filter looks for, as a request wrote them.
#[derive(Clone, Debug, PartialEq, Eq)]
pub enum MemcmpEncodedBytes {
    /// Legacy name of `Base58`.
    Binary(String),
    Base58(String),
    Base64(String),
    Bytes(Vec<u8>),
}

#[verifier::ext_equal]
pub enum EncodedBytesView {
    Binary(Seq<char>),
    Base58(Seq<char>),
    Base64(Seq<char>),
    Bytes(Seq<u8>),
}

impl View for MemcmpEncodedBytes {
    type V = EncodedBytesView;

    open spec fn view(&self) -> EncodedBytesView {
        match self {
            MemcmpEncodedBytes::Binary(text) => EncodedBytesView::Binary(text@),
            MemcmpEncodedBytes::Base58(text) => EncodedBytesView::Base58(text@),
            MemcmpEncodedBytes::Base64(text) => EncodedBytesView::Base64(text@),
            MemcmpEncodedBytes::Bytes(bytes) => EncodedBytesView::Bytes(bytes@),
        }
    }
}

/// The encoding that a comparison filter may name beside its bytes.
#[derive(Clone, Copy, Debug, PartialEq, Eq, Structural)]
pub enum MemcmpEncoding {
    Binary,
}

/// A filter on the bytes that stand at an offset in an account's data.
#[derive(Clone, Debug, PartialEq, Eq)]
pub struct Memcmp {
    pub offset: usize,
    pub bytes: MemcmpEncodedBytes,
    pub encoding: Option<MemcmpEncoding>,
}

#[verifier::ext_equal]
pub struct CompareView {
    pub offset: usize,
    pub bytes: EncodedBytesView,
    pub encoding: Option<MemcmpEncoding>,
}

impl View for Memcmp {
    type V = CompareView;

    open spec fn view(&self) -> CompareView {
        CompareView { offset: self.offset, bytes: self.bytes@, encoding: self.encoding }
    }
}

/// A filter on accounts.
#[derive(Clone, Debug, PartialEq, Eq)]
pub enum RpcFilterType {
    DataSize(u64),
    Memcmp(Memcmp),
}

#[verifier::ext_equal]
pub enum FilterView {
    DataSize(u64),
    Compare(CompareView),
}

impl View for RpcFilterType {
    type V = FilterView;

    open spec fn view(&self) -> FilterView {
        match self {
            RpcFilterType::DataSize(size) => FilterView::DataSize(*size),
            RpcFilterType::Memcmp(compare) => FilterView::Compare(compare@),
        }
    }
}

impl DeepView for RpcFilterType {
    type V = FilterView;

    open spec fn deep_view(&self) -> FilterView {
        self@
    }
}

} // verus!
