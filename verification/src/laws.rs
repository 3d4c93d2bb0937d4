//! What holds of the requests as wholes: which answer a run of steps ends with, that decoding
//! filters and choosing an index change no answer, and which requests are refused. The modules
//! below it say what the parts of an answer are: values, errors, accounts, filters, lookups and
//! requests.
pub mod accounts;
pub mod errors;
pub mod filters;
pub mod lookups;
pub mod requests;
pub mod values;

use crate::account::{base58_refused, slice_error, slice_refused, ui_account};
use crate::error::{
    answer_scan_message, internal_error_view, scan_error_view, DatabaseErrorView, ErrorView,
};
use crate::filter::{
    all_decodable, all_match, all_optimized, any_base58_refused, decodable, filter_matches,
    key_at, keyed_account, last_data_size, last_key_at, lemma_optimized_filters_match, optimized,
    scan, selected, selects, spl_token_key_filter, SPL_TOKEN_ACCOUNT_MINT_OFFSET,
    SPL_TOKEN_ACCOUNT_OWNER_OFFSET,
};
use crate::lookup::{
    is_parsed_token, lemma_token_account_encodable, lookup_query, lookup_runs, lookup_step,
    mint_from_reply, no_mint_error, parsed_token_account, LookupView, StepView,
    NATIVE_MINT_DECIMALS,
};
use crate::outside::{
    filter_bytes, native_mint_id, spl_token_id, stands_at, token_account_mint, TOKEN_ACCOUNT_LEN,
};
use crate::processor::{
    account_info_start, account_info_step, multiple_accounts_next, multiple_accounts_start,
    multiple_accounts_step, program_accounts_answer, program_accounts_request,
    program_accounts_run, response, token_key_filters, AccountIndex, MultipleView,
};
use crate::types::{
    requested_encoding, requested_slice, AccountView, FilterView, KeyedAccountView,
    OptionalContext, RpcAccountInfoConfig, RpcResponse, UiAccountEncoding, UiAccountView,
    UiDataSliceConfig, PUBKEY_BYTES,
};
use vstd::prelude::*;

verus! {

/// What the database replies when it is asked for an account.
pub type Reply = Result<AccountView, DatabaseErrorView>;

/// Decoding filters that were decoded changes nothing, and filters that decode are left
/// without text.
pub proof fn law_optimized_filters_stay(filters: Seq<FilterView>)
    ensures
        all_optimized(all_optimized(filters)) == all_optimized(filters),
        all_decodable(filters) ==> forall|i: int|
            0 <= i < filters.len() ==> ((#[trigger] all_optimized(filters)[i]) matches FilterView::Compare(
                compare,
            ) ==> compare.bytes is Bytes),
{
    assert forall|i: int| 0 <= i < filters.len() implies all_optimized(all_optimized(filters))[i]
        == #[trigger] all_optimized(filters)[i] by {
        assert(optimized(optimized(filters[i])) == optimized(filters[i]));
    }
    assert(all_optimized(all_optimized(filters)) =~= all_optimized(filters));
    if all_decodable(filters) {
        assert forall|i: int| 0 <= i < filters.len() implies ((
        #[trigger] all_optimized(filters)[i]) matches FilterView::Compare(compare)
            ==> compare.bytes is Bytes) by {
            assert(decodable(filters[i]));
        }
    }
}

/// The filter that names an address at an offset is the last one that does.
pub proof fn law_last_key_is_last(filters: Seq<FilterView>, offset: usize) -> (at: int)
    ensures
        last_key_at(filters, offset) matches Some(key) ==> {
            &&& 0 <= at < filters.len()
            &&& key_at(filters[at], offset) == Some(key)
            &&& forall|j: int| at < j < filters.len() ==> key_at(#[trigger] filters[j], offset) is None
        },
        last_key_at(filters, offset) is None ==> forall|j: int|
            0 <= j < filters.len() ==> key_at(#[trigger] filters[j], offset) is None,
    decreases filters.len(),
{
    if filters.len() == 0 {
        0
    } else if key_at(filters.last(), offset) is Some {
        filters.len() - 1
    } else {
        let rest = filters.drop_last();
        let at = law_last_key_is_last(rest, offset);
        assert forall|j: int| 0 <= j < rest.len() implies #[trigger] filters[j] == rest[j] by {}
        at
    }
}

/// The data size that counts is that of the last filter on the data size.
pub proof fn law_last_data_size_is_last(filters: Seq<FilterView>) -> (at: int)
    ensures
        last_data_size(filters) matches Some(size) ==> {
            &&& 0 <= at < filters.len()
            &&& filters[at] == FilterView::DataSize(size)
            &&& forall|j: int| at < j < filters.len() ==> #[trigger] filters[j] is Compare
        },
        last_data_size(filters) is None ==> forall|j: int|
            0 <= j < filters.len() ==> #[trigger] filters[j] is Compare,
    decreases filters.len(),
{
    if filters.len() == 0 {
        0
    } else if filters.last() is DataSize {
        filters.len() - 1
    } else {
        let rest = filters.drop_last();
        let at = law_last_data_size_is_last(rest);
        assert forall|j: int| 0 <= j < rest.len() implies #[trigger] filters[j] == rest[j] by {}
        at
    }
}

/// Whether data is that of a token account that names an address at an offset.
pub open spec fn names_key(data: Seq<u8>, key: Seq<u8>, offset: usize) -> bool {
    data.len() == TOKEN_ACCOUNT_LEN && stands_at(data, offset, key)
}

/// Where filters name an owner or a mint, all that they select are token accounts of that
/// owner or mint.
pub proof fn law_filtered_accounts_name_the_key(
    program_id: Seq<u8>,
    filters: Seq<FilterView>,
    offset: usize,
    data: Seq<u8>,
)
    requires
        all_match(filters, data),
    ensures
        spl_token_key_filter(program_id, filters, offset) matches Some(key) ==> names_key(
            data,
            key,
            offset,
        ),
{
    if spl_token_key_filter(program_id, filters, offset) is Some {
        let at = law_last_key_is_last(filters, offset);
        let sized = law_last_data_size_is_last(filters);
        assert(filter_matches(filters[at], data));
        assert(filter_matches(filters[sized], data));
    }
}

/// The filters that a request adds for an owner or a mint change nothing of what its filters
/// select.
pub proof fn law_added_filters_change_nothing(
    program_id: Seq<u8>,
    config: Option<RpcAccountInfoConfig>,
    filters: Seq<FilterView>,
    account: AccountView,
)
    ensures
        selects(
            program_id,
            program_accounts_request(program_id, config, filters).filters,
            account,
        ) == selects(program_id, filters, account),
{
    let request = program_accounts_request(program_id, config, filters);
    if request.index != AccountIndex::Owner {
        let offset = index_offset(request.index);
        let added = token_key_filters(request.key, offset);
        assert(request.filters == filters + added);
        if all_match(filters, account.data) {
            law_filtered_accounts_name_the_key(program_id, filters, offset, account.data);
            assert forall|i: int| 0 <= i < request.filters.len() implies filter_matches(
                #[trigger] request.filters[i],
                account.data,
            ) by {
                if i < filters.len() {
                    assert(request.filters[i] == filters[i]);
                } else {
                    assert(request.filters[i] == added[i - filters.len()]);
                }
            }
        }
        if all_match(request.filters, account.data) {
            assert forall|i: int| 0 <= i < filters.len() implies filter_matches(
                #[trigger] filters[i],
                account.data,
            ) by {
                assert(request.filters[i] == filters[i]);
            }
        }
    }
}

/// Where an index of token accounts looks for its key.
pub open spec fn index_offset(index: AccountIndex) -> usize {
    match index {
        AccountIndex::SplTokenMint => SPL_TOKEN_ACCOUNT_MINT_OFFSET,
        _ => SPL_TOKEN_ACCOUNT_OWNER_OFFSET,
    }
}

/// Whether an account stands under a key of an index.
pub open spec fn indexed(index: AccountIndex, key: Seq<u8>, account: AccountView) -> bool {
    match index {
        AccountIndex::Owner => account.owner == key,
        _ => names_key(account.data, key, index_offset(index)),
    }
}

/// Accounts that a narrower choice takes from a wider one are those it takes at once.
proof fn lemma_filter_twice(
    accounts: Seq<AccountView>,
    wide: spec_fn(AccountView) -> bool,
    narrow: spec_fn(AccountView) -> bool,
)
    requires
        forall|account: AccountView| #[trigger] narrow(account) ==> wide(account),
    ensures
        accounts.filter(wide).filter(narrow) == accounts.filter(narrow),
    decreases accounts.len(),
{
    reveal(Seq::filter);
    if accounts.len() > 0 {
        let rest = accounts.drop_last();
        lemma_filter_twice(rest, wide, narrow);
        if wide(accounts.last()) {
            assert(accounts.filter(wide).drop_last() =~= rest.filter(wide));
        }
    }
}

/// Two choices that agree take the same accounts.
proof fn lemma_filter_agrees(
    accounts: Seq<AccountView>,
    one: spec_fn(AccountView) -> bool,
    other: spec_fn(AccountView) -> bool,
)
    requires
        forall|account: AccountView| #[trigger] one(account) == other(account),
    ensures
        accounts.filter(one) == accounts.filter(other),
    decreases accounts.len(),
{
    reveal(Seq::filter);
    if accounts.len() > 0 {
        lemma_filter_agrees(accounts.drop_last(), one, other);
    }
}

/// The index that a request is answered from does not show: where the database replies the
/// accounts that stand under the key of the index, the answer is the one that a scan of all
/// accounts gives.
pub proof fn law_index_does_not_show(
    program_id: Seq<u8>,
    config: Option<RpcAccountInfoConfig>,
    filters: Seq<FilterView>,
    accounts: Seq<AccountView>,
)
    ensures
        ({
            let request = program_accounts_request(program_id, config, filters);
            let found = accounts.filter(
                |account: AccountView| indexed(request.index, request.key, account),
            );
            program_accounts_answer(request, Ok(found)) == match scan(
                config,
                filters,
                accounts,
                program_id,
            ) {
                Ok(keyed) => Ok(OptionalContext::NoContext(keyed)),
                Err(message) => Err(scan_error_view(message)),
            }
        }),
{
    let request = program_accounts_request(program_id, config, filters);
    let wide = |account: AccountView| indexed(request.index, request.key, account);
    let narrow = |account: AccountView| selects(program_id, request.filters, account);
    let plain = |account: AccountView| selects(program_id, filters, account);
    assert forall|account: AccountView| #[trigger] narrow(account) == plain(account) by {
        law_added_filters_change_nothing(program_id, config, filters, account);
    }
    assert forall|account: AccountView| #[trigger] narrow(account) implies wide(account) by {
        assert(plain(account));
        if request.index != AccountIndex::Owner {
            law_filtered_accounts_name_the_key(
                program_id,
                filters,
                index_offset(request.index),
                account.data,
            );
        }
    }
    lemma_filter_twice(accounts, wide, narrow);
    lemma_filter_agrees(accounts, narrow, plain);
    assert(selected(program_id, request.filters, accounts.filter(wide)) == selected(
        program_id,
        filters,
        accounts,
    ));
}

/// Filters written as text and the same filters decoded give the same answers.
pub proof fn law_scan_ignores_how_bytes_are_written(
    config: Option<RpcAccountInfoConfig>,
    filters: Seq<FilterView>,
    accounts: Seq<AccountView>,
    program_id: Seq<u8>,
)
    ensures
        scan(config, all_optimized(filters), accounts, program_id) == scan(
            config,
            filters,
            accounts,
            program_id,
        ),
{
    let decoded = |account: AccountView| selects(program_id, all_optimized(filters), account);
    let plain = |account: AccountView| selects(program_id, filters, account);
    assert forall|account: AccountView| #[trigger] decoded(account) == plain(account) by {
        lemma_optimized_filters_match(filters, account.data);
    }
    lemma_filter_agrees(accounts, decoded, plain);
}

/// Neither the index nor the way in which bytes are written shows: a request is started with its
/// filters decoded, and where the database replies the accounts that stand under the key of the
/// index, the answer is the one that a scan of all accounts gives with the filters as they were
/// written.
pub proof fn law_decoding_and_index_do_not_show(
    program_id: Seq<u8>,
    config: Option<RpcAccountInfoConfig>,
    filters: Seq<FilterView>,
    accounts: Seq<AccountView>,
)
    ensures
        ({
            let request = program_accounts_request(program_id, config, all_optimized(filters));
            let found = accounts.filter(
                |account: AccountView| indexed(request.index, request.key, account),
            );
            program_accounts_answer(request, Ok(found)) == match scan(
                config,
                filters,
                accounts,
                program_id,
            ) {
                Ok(keyed) => Ok(OptionalContext::NoContext(keyed)),
                Err(message) => Err(scan_error_view(message)),
            }
        }),
{
    law_index_does_not_show(program_id, config, all_optimized(filters), accounts);
    law_scan_ignores_how_bytes_are_written(config, filters, accounts, program_id);
}

/// Once it is decoded, a filter names an address at an offset whether the address was written as
/// bytes or as text: it does where it looks at that offset for the bytes of an address.
pub proof fn law_text_names_an_address(filter: FilterView, offset: usize, key: Seq<u8>)
    ensures
        key_at(optimized(filter), offset) == Some(key) <==> {
            &&& filter matches FilterView::Compare(compare)
            &&& compare.offset == offset
            &&& filter_bytes(compare.bytes) == Some(key)
            &&& key.len() == PUBKEY_BYTES
        },
{
}

/// A request for token accounts goes to the index of token owners where some filter looks for an
/// owner, and to the index of mints where some filter looks for a mint and none for an owner,
/// written as bytes or as text.
pub proof fn law_token_filters_choose_the_token_index(
    config: Option<RpcAccountInfoConfig>,
    filters: Seq<FilterView>,
)
    requires
        last_data_size(filters) == Some(TOKEN_ACCOUNT_LEN as u64),
    ensures
        ({
            let request = program_accounts_request(
                spl_token_id(),
                config,
                all_optimized(filters),
            );
            request.index == if names_address(filters, SPL_TOKEN_ACCOUNT_OWNER_OFFSET) {
                AccountIndex::SplTokenOwner
            } else if names_address(filters, SPL_TOKEN_ACCOUNT_MINT_OFFSET) {
                AccountIndex::SplTokenMint
            } else {
                AccountIndex::Owner
            }
        }),
{
    lemma_decoded_data_size(filters);
    lemma_names_address(filters, SPL_TOKEN_ACCOUNT_OWNER_OFFSET);
    lemma_names_address(filters, SPL_TOKEN_ACCOUNT_MINT_OFFSET);
}

/// Whether a filter looks for an address at an offset, written as bytes or as text.
pub open spec fn looks_for_address(filter: FilterView, offset: usize) -> bool {
    &&& filter matches FilterView::Compare(compare)
    &&& compare.offset == offset
    &&& filter_bytes(compare.bytes) matches Some(bytes)
    &&& bytes.len() == PUBKEY_BYTES
}

/// Whether some filter looks for an address at an offset, written as bytes or as text.
pub open spec fn names_address(filters: Seq<FilterView>, offset: usize) -> bool {
    exists|i: int| 0 <= i < filters.len() && looks_for_address(#[trigger] filters[i], offset)
}

/// Decoding filters changes no data size.
proof fn lemma_decoded_data_size(filters: Seq<FilterView>)
    ensures
        last_data_size(all_optimized(filters)) == last_data_size(filters),
    decreases filters.len(),
{
    if filters.len() > 0 {
        lemma_decoded_data_size(filters.drop_last());
        assert(all_optimized(filters).drop_last() =~= all_optimized(filters.drop_last()));
    }
}

/// Decoded filters have a last address at an offset where some filter looks for one.
proof fn lemma_names_address(filters: Seq<FilterView>, offset: usize)
    ensures
        last_key_at(all_optimized(filters), offset) is Some == names_address(filters, offset),
{
    let decoded = all_optimized(filters);
    let at = law_last_key_is_last(decoded, offset);
    if last_key_at(decoded, offset) is Some {
        assert(decoded[at] == optimized(filters[at]));
        assert(looks_for_address(filters[at], offset));
    } else {
        assert forall|i: int| 0 <= i < filters.len() implies !looks_for_address(
            #[trigger] filters[i],
            offset,
        ) by {
            assert(key_at(decoded[i], offset) is None);
        }
    }
}

/// A scan answers the accounts of the program that pass every filter, each of them and no
/// others.
pub proof fn law_scan_answers_what_is_selected(
    config: Option<RpcAccountInfoConfig>,
    filters: Seq<FilterView>,
    accounts: Seq<AccountView>,
    program_id: Seq<u8>,
    keyed: KeyedAccountView,
)
    ensures
        scan(config, filters, accounts, program_id) matches Ok(found) ==> (found.contains(keyed)
            <==> exists|account: AccountView|
            {
                &&& #[trigger] accounts.contains(account)
                &&& selects(program_id, filters, account)
                &&& keyed == keyed_account(
                    account,
                    requested_encoding(config),
                    requested_slice(config),
                )
            }),
{
    let encoding = requested_encoding(config);
    let slice = requested_slice(config);
    let picks = |account: AccountView| selects(program_id, filters, account);
    let chosen = selected(program_id, filters, accounts);
    if scan(config, filters, accounts, program_id) is Ok {
        let found = scan(config, filters, accounts, program_id)->Ok_0;
        if found.contains(keyed) {
            let i = choose|i: int| 0 <= i < found.len() && found[i] == keyed;
            let j = lemma_filtered_from(accounts, picks, i);
            assert(accounts.contains(accounts[j]));
            assert(selects(program_id, filters, accounts[j]));
            assert(keyed == keyed_account(accounts[j], encoding, slice));
        }
        assert forall|account: AccountView|
            {
                &&& #[trigger] accounts.contains(account)
                &&& selects(program_id, filters, account)
                &&& keyed == keyed_account(account, encoding, slice)
            } implies found.contains(keyed) by {
            let j = choose|j: int| 0 <= j < accounts.len() && accounts[j] == account;
            accounts.lemma_filter_contains(picks, j);
            let i = choose|i: int| 0 <= i < chosen.len() && chosen[i] == account;
            assert(found[i] == keyed);
        }
    }
}

/// Where a chosen account stands among all.
proof fn lemma_filtered_from(
    accounts: Seq<AccountView>,
    picks: spec_fn(AccountView) -> bool,
    i: int,
) -> (j: int)
    requires
        0 <= i < accounts.filter(picks).len(),
    ensures
        0 <= j < accounts.len(),
        accounts[j] == accounts.filter(picks)[i],
        picks(accounts[j]),
    decreases accounts.len(),
{
    reveal(Seq::filter);
    let rest = accounts.drop_last();
    if picks(accounts.last()) && i == rest.filter(picks).len() {
        accounts.len() - 1
    } else {
        lemma_filtered_from(rest, picks, i)
    }
}

/// A scan fails only where parsed accounts are to be sliced, or where base 58 is asked for and
/// a selected account is too large for it.
pub proof fn law_scan_fails_only_on_slices_and_sizes(
    config: Option<RpcAccountInfoConfig>,
    filters: Seq<FilterView>,
    accounts: Seq<AccountView>,
    program_id: Seq<u8>,
)
    ensures
        scan(config, filters, accounts, program_id) is Err <==> {
            ||| requested_encoding(config) == UiAccountEncoding::JsonParsed && requested_slice(
                config,
            ) is Some
            ||| exists|account: AccountView|
                {
                    &&& #[trigger] accounts.contains(account)
                    &&& selects(program_id, filters, account)
                    &&& base58_refused(account, requested_encoding(config))
                }
        },
{
    let encoding = requested_encoding(config);
    let picks = |account: AccountView| selects(program_id, filters, account);
    let chosen = selected(program_id, filters, accounts);
    if any_base58_refused(chosen, encoding) {
        let i = choose|i: int|
            0 <= i < chosen.len() && base58_refused(#[trigger] chosen[i], encoding);
        let j = lemma_filtered_from(accounts, picks, i);
        assert(accounts.contains(accounts[j]));
        assert(selects(program_id, filters, accounts[j]));
    }
    assert forall|account: AccountView|
        {
            &&& #[trigger] accounts.contains(account)
            &&& selects(program_id, filters, account)
            &&& base58_refused(account, encoding)
        } implies any_base58_refused(chosen, encoding) by {
        let j = choose|j: int| 0 <= j < accounts.len() && accounts[j] == account;
        accounts.lemma_filter_contains(picks, j);
        let i = choose|i: int| 0 <= i < chosen.len() && chosen[i] == account;
        assert(base58_refused(chosen[i], encoding));
    }
}

/// Every request that asks for a slice of parsed accounts is refused: a request for one or
/// for several accounts before anything is fetched, a request for the accounts of a program
/// as a failed scan.
pub proof fn law_sliced_parsed_accounts_are_refused(
    config: Option<RpcAccountInfoConfig>,
    pubkey: Seq<u8>,
    pubkeys: Seq<Seq<u8>>,
    filters: Seq<FilterView>,
    accounts: Seq<AccountView>,
)
    requires
        requested_encoding(config) == UiAccountEncoding::JsonParsed,
        requested_slice(config) is Some,
    ensures
        account_info_start(pubkey, config) == StepView::<
            LookupView,
            RpcResponse<Option<UiAccountView>>,
        >::Done(Err(slice_error())),
        multiple_accounts_start(pubkeys, config) == StepView::<
            MultipleView,
            RpcResponse<Seq<Option<UiAccountView>>>,
        >::Done(Err(slice_error())),
        program_accounts_answer(
            program_accounts_request(pubkey, config, all_optimized(filters)),
            Ok(accounts),
        ) == Err::<OptionalContext<Seq<KeyedAccountView>>, ErrorView>(
            scan_error_view(answer_scan_message(slice_error())),
        ),
{
}

/// The answer to a lookup of one account, given what the database holds for the account and
/// for the mint that a token account names: an account without lamports is not there, and a
/// parsed token account takes its decimals from its mint.
pub open spec fn account_answer(
    pubkey: Seq<u8>,
    encoding: UiAccountEncoding,
    slice: Option<UiDataSliceConfig>,
    account: Reply,
    mint: Reply,
) -> Result<Option<UiAccountView>, ErrorView> {
    match account {
        Err(_) => Err(internal_error_view()),
        Ok(account) => if account.lamports == 0 {
            Ok(None)
        } else if !is_parsed_token(account, encoding) {
            Ok(Some(ui_account(account.pubkey, account, encoding, None, slice)))
        } else if token_account_mint(account.data) is None {
            Err(no_mint_error())
        } else if token_account_mint(account.data) == Some(native_mint_id()) {
            Ok(Some(parsed_token_account(pubkey, account, NATIVE_MINT_DECIMALS)))
        } else {
            match mint_from_reply(mint) {
                Ok((_, decimals)) => Ok(Some(parsed_token_account(pubkey, account, decimals))),
                Err(error) => Err(error),
            }
        },
    }
}

/// A lookup of one account asks for the account, then at most for the mint that it names, and
/// ends with the answer that these two give.
pub proof fn law_lookup_ends_with_the_answer(
    pubkey: Seq<u8>,
    encoding: UiAccountEncoding,
    data_slice: Option<UiDataSliceConfig>,
    account: Reply,
    mint: Reply,
)
    ensures
        ({
            let start = LookupView::Account { pubkey, encoding, data_slice };
            let answer = StepView::<LookupView, Option<UiAccountView>>::Done(
                account_answer(pubkey, encoding, data_slice, account, mint),
            );
            &&& lookup_query(start) == pubkey
            &&& match lookup_step(start, account) {
                StepView::Query(next) => {
                    &&& account matches Ok(token) && token_account_mint(token.data) == Some(
                        lookup_query(next),
                    )
                    &&& lookup_step(next, mint) == answer
                },
                done => done == answer,
            }
        }),
{
}

/// A lookup that waits for a mint can go on with whatever the database replies.
pub proof fn law_mint_lookup_runs(lookup: LookupView, account: Reply, mint: Reply)
    requires
        lookup is Account,
    ensures
        lookup_step(lookup, account) matches StepView::Query(next) ==> lookup_runs(next, mint),
{
    if let StepView::Query(LookupView::Mint(token)) = lookup_step(lookup, account) {
        lemma_token_account_encodable(token.pubkey, token.account, UiAccountEncoding::JsonParsed);
    }
}

/// A lookup and a scan run to their ends in every encoding that does not parse accounts,
/// provided that the filters of the scan decode.
pub proof fn law_unparsed_answers_run(
    pubkey: Seq<u8>,
    config: Option<RpcAccountInfoConfig>,
    account: Reply,
    filters: Seq<FilterView>,
    accounts: Seq<AccountView>,
)
    requires
        requested_encoding(config) != UiAccountEncoding::JsonParsed,
        all_decodable(filters),
    ensures
        account_info_start(pubkey, config) matches StepView::Query(lookup) && lookup_runs(
            lookup,
            account,
        ),
        program_accounts_run(
            program_accounts_request(pubkey, config, all_optimized(filters)),
            Ok(accounts),
        ),
{
    let decoded = all_optimized(filters);
    let request = program_accounts_request(pubkey, config, decoded);
    assert forall|i: int| 0 <= i < request.filters.len() implies decodable(
        #[trigger] request.filters[i],
    ) by {
        if i < decoded.len() {
            assert(request.filters[i] == decoded[i]);
            assert(decodable(filters[i]));
        }
    }
}

/// A request for one account ends with the answer to its lookup.
pub proof fn law_account_info_ends_with_the_answer(
    pubkey: Seq<u8>,
    config: Option<RpcAccountInfoConfig>,
    account: Reply,
    mint: Reply,
)
    requires
        !slice_refused(requested_encoding(config), requested_slice(config) is Some),
    ensures
        ({
            let encoding = requested_encoding(config);
            let slice = requested_slice(config);
            let answer = match account_answer(pubkey, encoding, slice, account, mint) {
                Ok(value) => Ok(response(value)),
                Err(error) => Err(error),
            };
            account_info_start(pubkey, config) matches StepView::Query(lookup) && match
            account_info_step(lookup, account) {
                StepView::Query(next) => account_info_step(next, mint) == StepView::<
                    LookupView,
                    RpcResponse<Option<UiAccountView>>,
                >::Done(answer),
                StepView::Done(done) => done == answer,
            }
        }),
{
}

/// The step that a request for several accounts reaches when its current account is answered
/// from what the database holds for it and for the mint that it names.
pub open spec fn multiple_accounts_after(
    request: MultipleView,
    account: Reply,
    mint: Reply,
) -> StepView<MultipleView, RpcResponse<Seq<Option<UiAccountView>>>> {
    match multiple_accounts_step(request, account) {
        StepView::Query(next) => if next.lookup is Mint {
            multiple_accounts_step(next, mint)
        } else {
            StepView::Query(next)
        },
        done => done,
    }
}

/// The outcome of a request for several accounts from a step on, given for each account that
/// is left what the database holds for it and for the mint that it names; `None` where the
/// replies do not last.
pub open spec fn multiple_accounts_run(
    step: StepView<MultipleView, RpcResponse<Seq<Option<UiAccountView>>>>,
    replies: Seq<(Reply, Reply)>,
) -> Option<Result<RpcResponse<Seq<Option<UiAccountView>>>, ErrorView>>
    decreases replies.len(),
{
    match step {
        StepView::Done(result) => Some(result),
        StepView::Query(request) => if replies.len() == 0 {
            None
        } else {
            multiple_accounts_run(
                multiple_accounts_after(request, replies[0].0, replies[0].1),
                replies.skip(1),
            )
        },
    }
}

/// The answers to the lookups of several accounts.
pub open spec fn account_answers(
    pubkeys: Seq<Seq<u8>>,
    encoding: UiAccountEncoding,
    slice: Option<UiDataSliceConfig>,
    replies: Seq<(Reply, Reply)>,
) -> Seq<Result<Option<UiAccountView>, ErrorView>> {
    Seq::new(
        pubkeys.len(),
        |i: int| account_answer(pubkeys[i], encoding, slice, replies[i].0, replies[i].1),
    )
}

/// The accounts of answers that are all given.
pub open spec fn given(answers: Seq<Result<Option<UiAccountView>, ErrorView>>) -> Seq<
    Option<UiAccountView>,
> {
    answers.map_values(|answer: Result<Option<UiAccountView>, ErrorView>| answer->Ok_0)
}

/// Answers gathered one after the other, up to the first that is an error.
spec fn gathered(
    accounts: Seq<Option<UiAccountView>>,
    answers: Seq<Result<Option<UiAccountView>, ErrorView>>,
) -> Result<Seq<Option<UiAccountView>>, ErrorView>
    decreases answers.len(),
{
    if answers.len() == 0 {
        Ok(accounts)
    } else {
        match answers[0] {
            Ok(account) => gathered(accounts.push(account), answers.skip(1)),
            Err(error) => Err(error),
        }
    }
}

/// Answers that are all given are gathered in their order.
proof fn lemma_gathered_all(
    accounts: Seq<Option<UiAccountView>>,
    answers: Seq<Result<Option<UiAccountView>, ErrorView>>,
)
    requires
        forall|i: int| 0 <= i < answers.len() ==> #[trigger] answers[i] is Ok,
    ensures
        gathered(accounts, answers) == Ok::<Seq<Option<UiAccountView>>, ErrorView>(
            accounts + given(answers),
        ),
    decreases answers.len(),
{
    if answers.len() == 0 {
        assert(accounts + given(answers) =~= accounts);
    } else {
        let now = accounts.push(answers[0]->Ok_0);
        lemma_gathered_all(now, answers.skip(1));
        assert(now + given(answers.skip(1)) =~= accounts + given(answers));
    }
}

/// The first error ends the gathering.
proof fn lemma_gathered_error(
    accounts: Seq<Option<UiAccountView>>,
    answers: Seq<Result<Option<UiAccountView>, ErrorView>>,
    k: int,
)
    requires
        0 <= k < answers.len(),
        answers[k] is Err,
        forall|i: int| 0 <= i < k ==> #[trigger] answers[i] is Ok,
    ensures
        gathered(accounts, answers) == Err::<Seq<Option<UiAccountView>>, ErrorView>(
            answers[k]->Err_0,
        ),
    decreases answers.len(),
{
    if k > 0 {
        assert(answers[0] is Ok);
        lemma_gathered_error(accounts.push(answers[0]->Ok_0), answers.skip(1), k - 1);
    }
}

/// A request for several accounts goes on to the next account once one is answered.
proof fn lemma_multiple_accounts_after(
    pubkeys: Seq<Seq<u8>>,
    encoding: UiAccountEncoding,
    slice: Option<UiDataSliceConfig>,
    accounts: Seq<Option<UiAccountView>>,
    account: Reply,
    mint: Reply,
)
    requires
        pubkeys.len() > 0,
    ensures
        multiple_accounts_next(pubkeys, encoding, slice, accounts) matches StepView::Query(request)
            && multiple_accounts_after(request, account, mint) == match account_answer(
            pubkeys[0],
            encoding,
            slice,
            account,
            mint,
        ) {
            Ok(value) => multiple_accounts_next(
                pubkeys.skip(1),
                encoding,
                slice,
                accounts.push(value),
            ),
            Err(error) => StepView::Done(Err(error)),
        },
{
}

/// A run of a request for several accounts gathers their answers.
proof fn lemma_multiple_accounts_run(
    pubkeys: Seq<Seq<u8>>,
    encoding: UiAccountEncoding,
    slice: Option<UiDataSliceConfig>,
    accounts: Seq<Option<UiAccountView>>,
    replies: Seq<(Reply, Reply)>,
)
    requires
        replies.len() == pubkeys.len(),
    ensures
        multiple_accounts_run(
            multiple_accounts_next(pubkeys, encoding, slice, accounts),
            replies,
        ) == match gathered(accounts, account_answers(pubkeys, encoding, slice, replies)) {
            Ok(all) => Some(Ok::<RpcResponse<Seq<Option<UiAccountView>>>, ErrorView>(response(all))),
            Err(error) => Some(Err(error)),
        },
    decreases pubkeys.len(),
{
    let answers = account_answers(pubkeys, encoding, slice, replies);
    if pubkeys.len() > 0 {
        lemma_multiple_accounts_after(
            pubkeys,
            encoding,
            slice,
            accounts,
            replies[0].0,
            replies[0].1,
        );
        if answers[0] is Ok {
            lemma_multiple_accounts_run(
                pubkeys.skip(1),
                encoding,
                slice,
                accounts.push(answers[0]->Ok_0),
                replies.skip(1),
            );
            assert(account_answers(pubkeys.skip(1), encoding, slice, replies.skip(1))
                =~= answers.skip(1));
        }
    }
}

/// A request for several accounts answers each as a request for one account does, in the
/// order in which they were asked for; where the lookup of an account fails, the answer is
/// the error of the first that fails.
pub proof fn law_multiple_accounts_answer_each(
    pubkeys: Seq<Seq<u8>>,
    config: Option<RpcAccountInfoConfig>,
    replies: Seq<(Reply, Reply)>,
)
    requires
        !slice_refused(requested_encoding(config), requested_slice(config) is Some),
        replies.len() == pubkeys.len(),
    ensures
        ({
            let answers = account_answers(
                pubkeys,
                requested_encoding(config),
                requested_slice(config),
                replies,
            );
            let run = multiple_accounts_run(multiple_accounts_start(pubkeys, config), replies);
            &&& (forall|i: int| 0 <= i < answers.len() ==> #[trigger] answers[i] is Ok)
                ==> run == Some(
                Ok::<RpcResponse<Seq<Option<UiAccountView>>>, ErrorView>(
                    response(given(answers)),
                ),
            )
            &&& forall|k: int|
                0 <= k < answers.len() && #[trigger] answers[k] is Err && (forall|i: int|
                    0 <= i < k ==> #[trigger] answers[i] is Ok) ==> run == Some(
                    Err::<RpcResponse<Seq<Option<UiAccountView>>>, ErrorView>(
                        answers[k]->Err_0,
                    ),
                )
        }),
{
    let encoding = requested_encoding(config);
    let slice = requested_slice(config);
    let answers = account_answers(pubkeys, encoding, slice, replies);
    let none = Seq::<Option<UiAccountView>>::empty();
    lemma_multiple_accounts_run(pubkeys, encoding, slice, none, replies);
    if forall|i: int| 0 <= i < answers.len() ==> #[trigger] answers[i] is Ok {
        lemma_gathered_all(none, answers);
        assert(none + given(answers) =~= given(answers));
    }
    assert forall|k: int|
        0 <= k < answers.len() && #[trigger] answers[k] is Err && (forall|i: int|
            0 <= i < k ==> #[trigger] answers[i] is Ok) implies gathered(none, answers) == Err::<
        Seq<Option<UiAccountView>>,
        ErrorView,
    >(answers[k]->Err_0) by {
        lemma_gathered_error(none, answers, k);
    }
}

} // verus!
