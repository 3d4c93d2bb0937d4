//! What the mathematical values that the contracts speak of hold: every field of the data that
//! they stand for, as it is.
use crate::error::{
    outcome, reply_view, scan_outcome, DatabaseErrorView, Error, ErrorView, PostgresRpcServerError,
    RpcCustomError,
};
use crate::lookup::{AccountLookup, LookupView, MintLookup, Step, StepView, TokenAccountLookup};
use crate::processor::{
    response, AccountInfoRequest, MultipleAccountsRequest, ProgramAccountsRequest,
};
use crate::types::{
    requested_encoding, requested_slice, DbAccountInfo, EncodedBytesView, FilterView, Memcmp,
    MemcmpEncodedBytes, OptionalContext, ParsedAccount, ParsedAccountView, Pubkey,
    RpcAccountInfoConfig, RpcFilterType, RpcKeyedAccount, RpcResponse, UiAccount, UiAccountData,
    UiAccountDataView, UiAccountEncoding, UiDataSliceConfig,
};
use vstd::prelude::*;

verus! {

/// The value of an address is its bytes.
pub proof fn law_address_is_its_bytes(key: Pubkey)
    ensures
        key@ == key.bytes@,
        key.deep_view() == key.bytes@,
{
}

/// The value of a stored account is its fields.
pub proof fn law_stored_account_is_its_fields(account: DbAccountInfo)
    ensures
        account.deep_view() == account@,
        account@.pubkey == account.pubkey.bytes@,
        account@.lamports == account.lamports,
        account@.owner == account.owner.bytes@,
        account@.executable == account.executable,
        account@.rent_epoch == account.rent_epoch,
        account@.data == account.data@,
{
}

/// The value of an answered account is its fields.
pub proof fn law_answered_account_is_its_fields(ui: UiAccount, keyed: RpcKeyedAccount)
    ensures
        ui.deep_view() == ui@,
        ui@.lamports == ui.lamports,
        ui@.data == ui.data@,
        ui@.owner == ui.owner@,
        ui@.executable == ui.executable,
        ui@.rent_epoch == ui.rent_epoch,
        keyed.deep_view() == keyed@,
        keyed@.pubkey == keyed.pubkey@,
        keyed@.account == keyed.account@,
{
}

/// The value of answered data is its text, its label and what was parsed.
pub proof fn law_answered_data_is_its_text(
    text: String,
    label: UiAccountEncoding,
    parsed: ParsedAccount,
)
    ensures
        UiAccountData::LegacyBinary(text)@ == UiAccountDataView::LegacyBinary(text@),
        UiAccountData::Binary(text, label)@ == UiAccountDataView::Binary(text@, label),
        UiAccountData::Json(parsed)@ == UiAccountDataView::Json(
            (ParsedAccountView {
                program: parsed.program@,
                parsed: parsed.parsed@,
                space: parsed.space,
            }),
        ),
{
}

/// The value of an answer is its slot and the value that it carries, and an answer is made at
/// slot zero.
pub proof fn law_answer_is_its_slot_and_value<T: DeepView>(answer: RpcResponse<T>, value: T)
    ensures
        answer.deep_view().context.slot == answer.context.slot,
        answer.deep_view().value == answer.value.deep_view(),
        OptionalContext::Context(answer).deep_view() == OptionalContext::Context(
            answer.deep_view(),
        ),
        OptionalContext::NoContext(value).deep_view() == OptionalContext::NoContext(
            value.deep_view(),
        ),
        response(value).context.slot == 0,
        response(value).value == value,
{
}

/// The value of a filter is its size, or its offset, its encoding and its bytes as they are
/// written.
pub proof fn law_filter_is_its_parts(compare: Memcmp, size: u64, text: String, bytes: Vec<u8>)
    ensures
        RpcFilterType::DataSize(size)@ == FilterView::DataSize(size),
        RpcFilterType::Memcmp(compare)@ == FilterView::Compare(compare@),
        RpcFilterType::DataSize(size).deep_view() == RpcFilterType::DataSize(size)@,
        RpcFilterType::Memcmp(compare).deep_view() == RpcFilterType::Memcmp(compare)@,
        compare@.offset == compare.offset,
        compare@.bytes == compare.bytes@,
        compare@.encoding == compare.encoding,
        MemcmpEncodedBytes::Binary(text)@ == EncodedBytesView::Binary(text@),
        MemcmpEncodedBytes::Base58(text)@ == EncodedBytesView::Base58(text@),
        MemcmpEncodedBytes::Base64(text)@ == EncodedBytesView::Base64(text@),
        MemcmpEncodedBytes::Bytes(bytes)@ == EncodedBytesView::Bytes(bytes@),
{
}

/// The value of an error is its code and its message; that of a failed scan is its message; that
/// of a failure of the database says whether the object is missing, and the failure in words.
pub proof fn law_error_is_its_parts(
    error: Error,
    message: String,
    failure: PostgresRpcServerError,
)
    ensures
        error.deep_view() == error@,
        error@.code == error.code,
        error@.message == error.message@,
        (RpcCustomError::ScanError { message })@ == message@,
        failure@.object_not_found == failure.object_not_found,
        failure@.text == failure.text@,
{
}

/// The value of an outcome, of a reply and of a step is that of what it carries.
pub proof fn law_outcome_is_what_it_carries<S: DeepView, T: DeepView>(
    state: S,
    value: T,
    error: Error,
    scan: RpcCustomError,
    failure: PostgresRpcServerError,
)
    ensures
        outcome::<T>(Ok(value)) == Ok::<T::V, ErrorView>(value.deep_view()),
        outcome::<T>(Err(error)) == Err::<T::V, ErrorView>(error@),
        scan_outcome::<T>(Ok(value)) == Ok::<T::V, Seq<char>>(value.deep_view()),
        scan_outcome::<T>(Err(scan)) == Err::<T::V, Seq<char>>(scan@),
        reply_view::<T>(Ok(value)) == Ok::<T::V, DatabaseErrorView>(value.deep_view()),
        reply_view::<T>(Err(failure)) == Err::<T::V, DatabaseErrorView>(failure@),
        Step::<S, T>::Query(state)@ == StepView::<S::V, T::V>::Query(state.deep_view()),
        Step::<S, T>::Done(Ok(value))@ == StepView::<S::V, T::V>::Done(Ok(value.deep_view())),
        Step::<S, T>::Done(Err(error))@ == StepView::<S::V, T::V>::Done(Err(error@)),
{
}

/// The value of a lookup is the account that it waits for and how it is to be answered.
pub proof fn law_lookup_is_its_parts(
    mint: MintLookup,
    token: TokenAccountLookup,
    pubkey: Pubkey,
    encoding: UiAccountEncoding,
    data_slice: Option<UiDataSliceConfig>,
)
    ensures
        mint.deep_view() == mint.mint@,
        token.deep_view().pubkey == token.pubkey@,
        token.deep_view().account == token.account@,
        token.deep_view().mint == token.mint.mint@,
        AccountLookup::Mint(token).deep_view() == LookupView::Mint(token.deep_view()),
        (AccountLookup::Account { pubkey, encoding, data_slice }).deep_view() == (
        LookupView::Account { pubkey: pubkey@, encoding, data_slice }),
{
}

/// The value of a request is what it waits for, what is left of it and what was answered.
pub proof fn law_request_is_its_parts(
    one: AccountInfoRequest,
    several: MultipleAccountsRequest,
    program: ProgramAccountsRequest,
)
    ensures
        one.deep_view() == one.lookup.deep_view(),
        several.deep_view().lookup == several.lookup.deep_view(),
        several.deep_view().remaining == several.pubkeys.deep_view().skip(several.next as int),
        several.deep_view().encoding == several.encoding,
        several.deep_view().data_slice == several.data_slice,
        several.deep_view().accounts == several.accounts.deep_view(),
        several.wf() <==> several.next <= several.pubkeys.len(),
        program.deep_view().index == program.index,
        program.deep_view().key == program.key@,
        program.deep_view().program_id == program.program_id@,
        program.deep_view().config == program.config,
        program.deep_view().filters == program.filters.deep_view(),
{
}

/// A request that names an encoding or a slice gets it; without an encoding it gets legacy
/// base 58, and without a slice the whole data.
pub proof fn law_requested_encoding_and_slice(
    config: RpcAccountInfoConfig,
    encoding: UiAccountEncoding,
)
    ensures
        requested_encoding(None) == UiAccountEncoding::Binary,
        requested_slice(None) is None,
        config.encoding is None ==> requested_encoding(Some(config)) == UiAccountEncoding::Binary,
        config.encoding == Some(encoding) ==> requested_encoding(Some(config)) == encoding,
        requested_slice(Some(config)) == config.data_slice,
{
}

} // verus!
