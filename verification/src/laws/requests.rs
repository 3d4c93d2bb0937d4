//! What a request ends with, run against a database.
use crate::error::{DatabaseErrorView, ErrorView};
use crate::filter::{
    scan, scan_runs, spl_token_key_filter, SPL_TOKEN_ACCOUNT_MINT_OFFSET,
    SPL_TOKEN_ACCOUNT_OWNER_OFFSET,
};
use crate::laws::lookups::{law_lookup_ends, lookup_run};
use crate::laws::{gathered, given, lemma_gathered_all, lemma_gathered_error, Reply};
use crate::lookup::{lookup_query, lookup_step, LookupView, StepView};
use crate::outside::TOKEN_ACCOUNT_LEN;
use crate::processor::{
    account_info_start, account_info_step, multiple_accounts_next, multiple_accounts_start,
    multiple_accounts_step, program_accounts_answer, program_accounts_request,
    program_accounts_run, response, token_accounts_request, AccountIndex, MultipleView, ProgramView,
};
use crate::types::{
    requested_encoding, requested_slice, AccountView, CompareView, EncodedBytesView, FilterView,
    KeyedAccountView, OptionalContext, RpcAccountInfoConfig, RpcResponse, UiAccountEncoding,
    UiAccountView, UiDataSliceConfig,
};
use vstd::prelude::*;

verus! {

/// What a request for one account ends with when the database is asked for each account that it
/// waits for; `None` where two queries do not end it.
pub open spec fn account_info_run(
    pubkey: Seq<u8>,
    config: Option<RpcAccountInfoConfig>,
    database: spec_fn(Seq<u8>) -> Reply,
) -> Option<Result<RpcResponse<Option<UiAccountView>>, ErrorView>> {
    match account_info_start(pubkey, config) {
        StepView::Done(result) => Some(result),
        StepView::Query(lookup) => match account_info_step(
            lookup,
            database(lookup_query(lookup)),
        ) {
            StepView::Done(result) => Some(result),
            StepView::Query(next) => match account_info_step(next, database(lookup_query(next))) {
                StepView::Done(result) => Some(result),
                StepView::Query(_) => None,
            },
        },
    }
}

/// What a request for several accounts ends with from a step on when the database is asked for
/// each account that it waits for; `None` where so many queries do not end it.
pub open spec fn several_accounts_run(
    step: StepView<MultipleView, RpcResponse<Seq<Option<UiAccountView>>>>,
    database: spec_fn(Seq<u8>) -> Reply,
    queries: nat,
) -> Option<Result<RpcResponse<Seq<Option<UiAccountView>>>, ErrorView>>
    decreases queries,
{
    match step {
        StepView::Done(result) => Some(result),
        StepView::Query(request) => if queries == 0 {
            None
        } else {
            several_accounts_run(
                multiple_accounts_step(request, database(lookup_query(request.lookup))),
                database,
                (queries - 1) as nat,
            )
        },
    }
}

/// A request for one account answers, at slot zero, what the lookup of the address with the
/// requested encoding and slice ends with. A slice of a parsed account is refused, whatever the
/// database holds.
pub proof fn law_account_info_answers_its_lookup(
    pubkey: Seq<u8>,
    config: Option<RpcAccountInfoConfig>,
    database: spec_fn(Seq<u8>) -> Reply,
)
    ensures
        ({
            let encoding = requested_encoding(config);
            let data_slice = requested_slice(config);
            let run = account_info_run(pubkey, config, database);
            if encoding is JsonParsed && data_slice is Some {
                run == Some(
                    Err::<RpcResponse<Option<UiAccountView>>, ErrorView>(
                        ErrorView {
                            code: -32600 as i64,
                            message:
                                "Sliced account data can only be encoded using binary (base 58) or base64 encoding."@,
                        },
                    ),
                )
            } else {
                match lookup_run(LookupView::Account { pubkey, encoding, data_slice }, database) {
                    Some(Ok(value)) => run matches Some(Ok(answer)) && answer.value == value
                        && answer.context.slot == 0,
                    Some(Err(error)) => run == Some(
                        Err::<RpcResponse<Option<UiAccountView>>, ErrorView>(error),
                    ),
                    None => false,
                }
            }
        }),
{
}

/// One account of a request for several: its lookup is run, and the request goes on behind it.
proof fn lemma_several_accounts_go_on(
    pubkeys: Seq<Seq<u8>>,
    encoding: UiAccountEncoding,
    data_slice: Option<UiDataSliceConfig>,
    accounts: Seq<Option<UiAccountView>>,
    database: spec_fn(Seq<u8>) -> Reply,
    queries: nat,
) -> (left: nat)
    requires
        pubkeys.len() > 0,
        queries >= 2,
    ensures
        queries - 2 <= left < queries,
        ({
            let run = several_accounts_run(
                multiple_accounts_next(pubkeys, encoding, data_slice, accounts),
                database,
                queries,
            );
            match lookup_run(
                LookupView::Account { pubkey: pubkeys[0], encoding, data_slice },
                database,
            ) {
                Some(Ok(value)) => run == several_accounts_run(
                    multiple_accounts_next(
                        pubkeys.skip(1),
                        encoding,
                        data_slice,
                        accounts.push(value),
                    ),
                    database,
                    left,
                ),
                Some(Err(error)) => run == Some(
                    Err::<RpcResponse<Seq<Option<UiAccountView>>>, ErrorView>(error),
                ),
                None => true,
            }
        }),
{
    reveal_with_fuel(several_accounts_run, 3);
    let lookup = LookupView::Account { pubkey: pubkeys[0], encoding, data_slice };
    if lookup_step(lookup, database(pubkeys[0])) is Query {
        (queries - 2) as nat
    } else {
        (queries - 1) as nat
    }
}

/// What the lookups of several addresses end with.
spec fn lookups_run(
    pubkeys: Seq<Seq<u8>>,
    encoding: UiAccountEncoding,
    data_slice: Option<UiDataSliceConfig>,
    database: spec_fn(Seq<u8>) -> Reply,
) -> Seq<Result<Option<UiAccountView>, ErrorView>> {
    Seq::new(
        pubkeys.len(),
        |i: int|
            lookup_run(
                LookupView::Account { pubkey: pubkeys[i], encoding, data_slice },
                database,
            )->0,
    )
}

/// A request for several accounts gathers what the lookups of its addresses end with.
proof fn lemma_several_accounts_run(
    pubkeys: Seq<Seq<u8>>,
    encoding: UiAccountEncoding,
    data_slice: Option<UiDataSliceConfig>,
    accounts: Seq<Option<UiAccountView>>,
    database: spec_fn(Seq<u8>) -> Reply,
    queries: nat,
)
    requires
        queries >= 2 * pubkeys.len(),
    ensures
        several_accounts_run(
            multiple_accounts_next(pubkeys, encoding, data_slice, accounts),
            database,
            queries,
        ) == match gathered(accounts, lookups_run(pubkeys, encoding, data_slice, database)) {
            Ok(all) => Some(
                Ok::<RpcResponse<Seq<Option<UiAccountView>>>, ErrorView>(
                    response(all),
                ),
            ),
            Err(error) => Some(Err(error)),
        },
    decreases pubkeys.len(),
{
    let answers = lookups_run(pubkeys, encoding, data_slice, database);
    if pubkeys.len() > 0 {
        let lookup = LookupView::Account { pubkey: pubkeys[0], encoding, data_slice };
        law_lookup_ends(lookup, database);
        let left = lemma_several_accounts_go_on(
            pubkeys,
            encoding,
            data_slice,
            accounts,
            database,
            queries,
        );
        if let Ok(value) = answers[0] {
            lemma_several_accounts_run(
                pubkeys.skip(1),
                encoding,
                data_slice,
                accounts.push(value),
                database,
                left,
            );
            assert(lookups_run(pubkeys.skip(1), encoding, data_slice, database)
                =~= answers.skip(1));
        }
    }
}

/// A request for several accounts answers, at slot zero, as many accounts as addresses were asked
/// for, each as a request for that address alone answers it from the same database. Where a
/// request for an address alone ends with an error, the answer is the error of the first such
/// address.
pub proof fn law_several_accounts_are_answered_as_each_alone(
    pubkeys: Seq<Seq<u8>>,
    config: Option<RpcAccountInfoConfig>,
    database: spec_fn(Seq<u8>) -> Reply,
    queries: nat,
)
    requires
        queries >= 2 * pubkeys.len(),
        !(requested_encoding(config) is JsonParsed && requested_slice(config) is Some),
    ensures
        ({
            let run = several_accounts_run(
                multiple_accounts_start(pubkeys, config),
                database,
                queries,
            );
            &&& (forall|i: int|
                0 <= i < pubkeys.len() ==> account_info_run(
                    #[trigger] pubkeys[i],
                    config,
                    database,
                )->0 is Ok) ==> (run matches Some(Ok(answer)) && {
                &&& answer.context.slot == 0
                &&& answer.value.len() == pubkeys.len()
                &&& forall|i: int|
                    0 <= i < pubkeys.len() ==> (account_info_run(
                        #[trigger] pubkeys[i],
                        config,
                        database,
                    ) matches Some(Ok(alone)) && answer.value[i] == alone.value)
            })
            &&& forall|k: int|
                0 <= k < pubkeys.len() && account_info_run(
                    #[trigger] pubkeys[k],
                    config,
                    database,
                )->0 is Err && (forall|i: int|
                    0 <= i < k ==> account_info_run(
                        #[trigger] pubkeys[i],
                        config,
                        database,
                    )->0 is Ok) ==> (run matches Some(Err(error)) && account_info_run(
                    pubkeys[k],
                    config,
                    database,
                ) == Some(Err::<RpcResponse<Option<UiAccountView>>, ErrorView>(error)))
        }),
{
    let encoding = requested_encoding(config);
    let data_slice = requested_slice(config);
    let none = Seq::<Option<UiAccountView>>::empty();
    let answers = lookups_run(pubkeys, encoding, data_slice, database);
    lemma_several_accounts_run(pubkeys, encoding, data_slice, none, database, queries);
    assert forall|i: int| 0 <= i < pubkeys.len() implies match #[trigger] answers[i] {
        Ok(value) => account_info_run(pubkeys[i], config, database) matches Some(Ok(alone))
            && alone.value == value,
        Err(error) => account_info_run(pubkeys[i], config, database) == Some(
            Err::<RpcResponse<Option<UiAccountView>>, ErrorView>(error),
        ),
    } by {
        law_account_info_answers_its_lookup(pubkeys[i], config, database);
        law_lookup_ends(
            LookupView::Account { pubkey: pubkeys[i], encoding, data_slice },
            database,
        );
    }
    if forall|i: int|
        0 <= i < pubkeys.len() ==> account_info_run(
            #[trigger] pubkeys[i],
            config,
            database,
        )->0 is Ok {
        assert forall|i: int| 0 <= i < answers.len() implies #[trigger] answers[i] is Ok by {
            assert(account_info_run(pubkeys[i], config, database)->0 is Ok);
        }
        lemma_gathered_all(none, answers);
        assert(none + given(answers) =~= given(answers));
        assert forall|i: int| 0 <= i < pubkeys.len() implies (account_info_run(
            #[trigger] pubkeys[i],
            config,
            database,
        ) matches Some(Ok(alone)) && given(answers)[i] == alone.value) by {
            assert(answers[i] is Ok);
        }
    }
    assert forall|k: int|
        0 <= k < pubkeys.len() && account_info_run(
            #[trigger] pubkeys[k],
            config,
            database,
        )->0 is Err && (forall|i: int|
            0 <= i < k ==> account_info_run(
                #[trigger] pubkeys[i],
                config,
                database,
            )->0 is Ok) implies gathered(none, answers) == Err::<
        Seq<Option<UiAccountView>>,
        ErrorView,
    >(account_info_run(pubkeys[k], config, database)->0->Err_0) by {
        assert(answers[k] is Err);
        assert forall|i: int| 0 <= i < k implies #[trigger] answers[i] is Ok by {
            assert(account_info_run(pubkeys[i], config, database)->0 is Ok);
        }
        lemma_gathered_error(none, answers, k);
    }
}

/// A slice of parsed accounts is refused, whatever the database holds and whichever accounts are
/// asked for.
pub proof fn law_several_sliced_parsed_accounts_are_refused(
    pubkeys: Seq<Seq<u8>>,
    config: Option<RpcAccountInfoConfig>,
    database: spec_fn(Seq<u8>) -> Reply,
    queries: nat,
)
    requires
        requested_encoding(config) is JsonParsed,
        requested_slice(config) is Some,
    ensures
        several_accounts_run(multiple_accounts_start(pubkeys, config), database, queries) == Some(
            Err::<RpcResponse<Seq<Option<UiAccountView>>>, ErrorView>(
                ErrorView {
                    code: -32600 as i64,
                    message:
                        "Sliced account data can only be encoded using binary (base 58) or base64 encoding."@,
                },
            ),
        ),
{
}

/// Whether a request for several accounts has answered those before a place and waits for the
/// address at it, or for the mint that the account at it names.
pub open spec fn waits_for(request: MultipleView, pubkeys: Seq<Seq<u8>>, place: int) -> bool {
    &&& 0 <= place < pubkeys.len()
    &&& request.accounts.len() == place
    &&& request.remaining == pubkeys.skip(place + 1)
    &&& match request.lookup {
        LookupView::Account { pubkey, .. } => pubkey == pubkeys[place],
        LookupView::Mint(token) => token.pubkey == pubkeys[place],
    }
}

/// A request for several accounts asks for the first address first. Once it has its reply, it
/// asks for the mint that the account names, or goes on to the address that follows, or ends; it
/// ends with accounts only after the last address.
pub proof fn law_several_accounts_are_asked_for_in_order(
    pubkeys: Seq<Seq<u8>>,
    config: Option<RpcAccountInfoConfig>,
    request: MultipleView,
    place: int,
    reply: Reply,
)
    ensures
        multiple_accounts_start(pubkeys, config) matches StepView::Query(first) ==> {
            &&& waits_for(first, pubkeys, 0)
            &&& lookup_query(first.lookup) == pubkeys[0]
        },
        waits_for(request, pubkeys, place) ==> match multiple_accounts_step(request, reply) {
            StepView::Query(next) => if next.lookup is Mint {
                &&& waits_for(next, pubkeys, place)
                &&& request.lookup is Account
                &&& next.accounts == request.accounts
            } else {
                &&& waits_for(next, pubkeys, place + 1)
                &&& lookup_query(next.lookup) == pubkeys[place + 1]
                &&& next.accounts.drop_last() == request.accounts
            },
            StepView::Done(Ok(answer)) => {
                &&& place == pubkeys.len() - 1
                &&& answer.value.len() == pubkeys.len()
                &&& answer.value.drop_last() == request.accounts
            },
            StepView::Done(Err(_)) => true,
        },
{
    if waits_for(request, pubkeys, place) {
        if place + 1 < pubkeys.len() {
            assert(pubkeys.skip(place + 1).skip(1) =~= pubkeys.skip(place + 2));
        }
        if let StepView::Done(Ok(value)) = lookup_step(request.lookup, reply) {
            assert(request.accounts.push(value).drop_last() =~= request.accounts);
        }
    }
}

/// A request for the token accounts of an owner goes to the index of owners, and one for those of
/// a mint to the index of mints. Beside the filters that it was given it asks for 165 bytes, and
/// for the address at 32 or at 0.
pub proof fn law_token_requests_ask_for_their_address(
    index: AccountIndex,
    offset: usize,
    key: Seq<u8>,
    program_id: Seq<u8>,
    config: Option<RpcAccountInfoConfig>,
    filters: Seq<FilterView>,
)
    ensures
        ({
            let request = token_accounts_request(index, offset, key, program_id, config, filters);
            &&& request.index == index
            &&& request.key == key
            &&& request.program_id == program_id
            &&& request.config == config
            &&& request.filters.len() == filters.len() + 2
            &&& request.filters.take(filters.len() as int) == filters
            &&& request.filters[filters.len() as int] == FilterView::DataSize(165)
            &&& request.filters[filters.len() as int + 1] == FilterView::Compare(
                (CompareView { offset, bytes: EncodedBytesView::Bytes(key), encoding: None }),
            )
        }),
        SPL_TOKEN_ACCOUNT_OWNER_OFFSET == 32,
        SPL_TOKEN_ACCOUNT_MINT_OFFSET == 0,
        TOKEN_ACCOUNT_LEN == 165,
{
    let request = token_accounts_request(index, offset, key, program_id, config, filters);
    assert(request.filters.take(filters.len() as int) =~= filters);
}

/// A request for the accounts of a program goes to the index of token owners under the owner that
/// its filters name, to the index of mints under the mint that they name where they name no
/// owner, and to the index of programs under the program where they name neither.
pub proof fn law_program_request_goes_to_its_index(
    program_id: Seq<u8>,
    config: Option<RpcAccountInfoConfig>,
    filters: Seq<FilterView>,
)
    ensures
        ({
            let request = program_accounts_request(program_id, config, filters);
            let owner = spl_token_key_filter(program_id, filters, 32);
            let mint = spl_token_key_filter(program_id, filters, 0);
            &&& request.program_id == program_id
            &&& request.config == config
            &&& owner matches Some(key) ==> request == token_accounts_request(
                AccountIndex::SplTokenOwner,
                32,
                key,
                program_id,
                config,
                filters,
            )
            &&& (mint matches Some(key) && owner is None) ==> request == token_accounts_request(
                AccountIndex::SplTokenMint,
                0,
                mint->0,
                program_id,
                config,
                filters,
            )
            &&& owner is None && mint is None ==> {
                &&& request.index == AccountIndex::Owner
                &&& request.key == program_id
                &&& request.filters == filters
            }
        }),
{
}

/// The accounts that the database replies are scanned with the filters of the request, and
/// answered without context; a scan that fails, and a database that does, is answered as a failed
/// scan with the message.
pub proof fn law_program_request_answers_its_scan(
    request: ProgramView,
    accounts: Seq<AccountView>,
    error: DatabaseErrorView,
)
    ensures
        match scan(request.config, request.filters, accounts, request.program_id) {
            Ok(found) => program_accounts_answer(request, Ok(accounts)) == Ok::<
                OptionalContext<Seq<KeyedAccountView>>,
                ErrorView,
            >(OptionalContext::NoContext(found)),
            Err(message) => program_accounts_answer(request, Ok(accounts)) == Err::<
                OptionalContext<Seq<KeyedAccountView>>,
                ErrorView,
            >(ErrorView { code: -32012 as i64, message }),
        },
        program_accounts_answer(request, Err(error)) == Err::<
            OptionalContext<Seq<KeyedAccountView>>,
            ErrorView,
        >(
            ErrorView {
                code: -32012 as i64,
                message: "Failed to load data from the database. Error: ("@ + error.text + ")"@,
            },
        ),
        program_accounts_run(request, Err(error)),
        program_accounts_run(request, Ok(accounts)) <==> scan_runs(
            request.config,
            request.filters,
            accounts,
            request.program_id,
        ),
{
}

} // verus!
