//! What a lookup of one account ends with, run against a database.
use crate::error::{DatabaseErrorView, ErrorView};
use crate::laws::Reply;
use crate::lookup::{
    lookup_query, lookup_runs, lookup_step, mint_from_reply, token_account_from_mint,
    token_account_start, LookupView, StepView, TokenLookupView, NATIVE_MINT_DECIMALS,
};
use crate::outside::{
    base58_text, base64_text, mint_decimals, native_mint_id, parsed_account, sliced, spl_token_id,
    token_account_mint, unencodable, zstd_frame,
};
use crate::types::{
    AccountView, UiAccountDataView, UiAccountEncoding, UiAccountView, UiDataSliceConfig,
};
use vstd::prelude::*;

verus! {

/// What a lookup ends with when the database is asked for each account that it waits for; `None`
/// where two queries do not end it.
pub open spec fn lookup_run(lookup: LookupView, database: spec_fn(Seq<u8>) -> Reply) -> Option<
    Result<Option<UiAccountView>, ErrorView>,
> {
    match lookup_step(lookup, database(lookup_query(lookup))) {
        StepView::Done(result) => Some(result),
        StepView::Query(next) => match lookup_step(next, database(lookup_query(next))) {
            StepView::Done(result) => Some(result),
            StepView::Query(_) => None,
        },
    }
}

/// A lookup ends after at most two queries.
pub proof fn law_lookup_ends(lookup: LookupView, database: spec_fn(Seq<u8>) -> Reply)
    ensures
        lookup_run(lookup, database) is Some,
{
}

/// An account that the database does not reply, for whatever reason, is an internal error; one
/// without lamports is no account.
pub proof fn law_lookup_of_no_account(
    pubkey: Seq<u8>,
    encoding: UiAccountEncoding,
    data_slice: Option<UiDataSliceConfig>,
    database: spec_fn(Seq<u8>) -> Reply,
)
    ensures
        ({
            let run = lookup_run(LookupView::Account { pubkey, encoding, data_slice }, database);
            &&& database(pubkey) is Err ==> (run matches Some(Err(error)) && {
                &&& error.code == -32603
                &&& error.message == "Internal error"@
            })
            &&& (database(pubkey) matches Ok(account) ==> {
                &&& account.lamports == 0 ==> run == Some(
                    Ok::<Option<UiAccountView>, ErrorView>(None),
                )
                &&& run == Some(Ok::<Option<UiAccountView>, ErrorView>(None))
                    ==> account.lamports == 0
            })
        }),
{
}

/// Every account that a lookup answers is the account at the address that was asked for: it has
/// its balance, its owner, its flag and its epoch.
pub proof fn law_lookup_answers_the_account(
    pubkey: Seq<u8>,
    encoding: UiAccountEncoding,
    data_slice: Option<UiDataSliceConfig>,
    database: spec_fn(Seq<u8>) -> Reply,
)
    ensures
        lookup_run(LookupView::Account { pubkey, encoding, data_slice }, database) matches Some(
            Ok(Some(ui)),
        ) ==> (database(pubkey) matches Ok(account) && {
            &&& account.lamports != 0
            &&& ui.lamports == account.lamports
            &&& ui.owner == base58_text(account.owner)
            &&& ui.executable == account.executable
            &&& ui.rent_epoch == account.rent_epoch
        }),
{
}

/// An account with lamports is answered with the requested slice of its data in the requested
/// encoding, unless it is a token account to be parsed. Base 58 takes up to 128 bytes of data,
/// and stands beside a notice beyond. What does not parse is answered whole in base 64.
pub proof fn law_lookup_answers_the_data(
    pubkey: Seq<u8>,
    encoding: UiAccountEncoding,
    data_slice: Option<UiDataSliceConfig>,
    database: spec_fn(Seq<u8>) -> Reply,
    account: AccountView,
)
    requires
        database(pubkey) == Ok::<AccountView, DatabaseErrorView>(account),
        account.lamports != 0,
        encoding !is JsonParsed || account.owner != spl_token_id(),
    ensures
        lookup_run(LookupView::Account { pubkey, encoding, data_slice }, database) matches Some(
            Ok(Some(ui)),
        ) && {
            let part = sliced(account.data, data_slice);
            let base58 = if account.data.len() <= 128 {
                base58_text(part)
            } else {
                "error: data too large for bs58 encoding"@
            };
            match encoding {
                UiAccountEncoding::Binary => ui.data == UiAccountDataView::LegacyBinary(base58),
                UiAccountEncoding::Base58 => ui.data == UiAccountDataView::Binary(
                    base58,
                    UiAccountEncoding::Base58,
                ),
                UiAccountEncoding::Base64 => ui.data == UiAccountDataView::Binary(
                    base64_text(part),
                    UiAccountEncoding::Base64,
                ),
                UiAccountEncoding::Base64Zstd => match zstd_frame(part) {
                    Some(frame) => ui.data == UiAccountDataView::Binary(
                        base64_text(frame),
                        UiAccountEncoding::Base64Zstd,
                    ),
                    None => ui.data == UiAccountDataView::Binary(
                        base64_text(part),
                        UiAccountEncoding::Base64,
                    ),
                },
                UiAccountEncoding::JsonParsed => match parsed_account(
                    account.pubkey,
                    account.owner,
                    account.data,
                    None,
                    usize::BITS,
                ) {
                    Some(parsed) => ui.data == UiAccountDataView::Json(parsed),
                    None => ui.data == UiAccountDataView::Binary(
                        base64_text(account.data),
                        UiAccountEncoding::Base64,
                    ),
                },
            }
        },
{
}

/// A token account is parsed with the decimals that the mint at the address in its first 32 bytes
/// holds, whatever they are; those of the native mint are 9, and its account is not asked for. An
/// account of another size names no mint. A mint that is missing, cannot be fetched or holds no
/// mint is answered with its error.
pub proof fn law_lookup_parses_a_token_account_with_its_mint(
    pubkey: Seq<u8>,
    data_slice: Option<UiDataSliceConfig>,
    database: spec_fn(Seq<u8>) -> Reply,
    account: AccountView,
)
    requires
        database(pubkey) == Ok::<AccountView, DatabaseErrorView>(account),
        account.lamports != 0,
        account.owner == spl_token_id(),
    ensures
        ({
            let run = lookup_run(
                LookupView::Account { pubkey, encoding: UiAccountEncoding::JsonParsed, data_slice },
                database,
            );
            let mint = account.data.subrange(0, 32);
            let parsed = |decimals: u8|
                match parsed_account(
                    pubkey,
                    account.owner,
                    account.data,
                    Some(decimals),
                    usize::BITS,
                ) {
                    Some(parsed) => UiAccountDataView::Json(parsed),
                    None => UiAccountDataView::Binary(
                        base64_text(account.data),
                        UiAccountEncoding::Base64,
                    ),
                };
            &&& account.data.len() != 165 ==> run == Some(
                Err::<Option<UiAccountView>, ErrorView>(
                    ErrorView { code: -32602 as i64, message: "Could not find the mint"@ },
                ),
            )
            &&& account.data.len() == 165 && mint == native_mint_id() ==> (run matches Some(
                Ok(Some(ui)),
            ) && ui.data == parsed(9))
            &&& account.data.len() == 165 && mint != native_mint_id() ==> match database(mint) {
                Err(error) => run == Some(
                    Err::<Option<UiAccountView>, ErrorView>(
                        if error.object_not_found {
                            ErrorView { code: -32602 as i64, message: "Object is not found"@ }
                        } else {
                            ErrorView { code: -32603 as i64, message: "Internal error"@ }
                        },
                    ),
                ),
                Ok(reply) => match mint_decimals(reply.data) {
                    Some(decimals) => run matches Some(Ok(Some(ui))) && ui.data == parsed(decimals),
                    None => run == Some(
                        Err::<Option<UiAccountView>, ErrorView>(
                            ErrorView {
                                code: -32602 as i64,
                                message: "Invalid param: Token mint could not be unpacked"@,
                            },
                        ),
                    ),
                },
            }
        }),
{
}

/// What the database replies for a mint gives the program that owns the account and the decimals
/// that the account holds, as they are, or the error.
pub proof fn law_mint_reply_gives_owner_and_decimals(
    mint: AccountView,
    error: DatabaseErrorView,
    decimals: u8,
)
    ensures
        mint_decimals(mint.data) == Some(decimals) ==> mint_from_reply(Ok(mint)) == Ok::<
            (Seq<u8>, u8),
            ErrorView,
        >((mint.owner, decimals)),
        mint_decimals(mint.data) is None ==> mint_from_reply(Ok(mint)) == Err::<
            (Seq<u8>, u8),
            ErrorView,
        >(ErrorView { code: -32602 as i64, message: "Invalid param: Token mint could not be unpacked"@ }),
        error.object_not_found ==> mint_from_reply(Err(error)) == Err::<(Seq<u8>, u8), ErrorView>(
            ErrorView { code: -32602 as i64, message: "Object is not found"@ },
        ),
        !error.object_not_found ==> mint_from_reply(Err(error)) == Err::<
            (Seq<u8>, u8),
            ErrorView,
        >(ErrorView { code: -32603 as i64, message: "Internal error"@ }),
        NATIVE_MINT_DECIMALS == 9,
{
}

/// A token account that is asked for on its own keeps its fields, and is parsed with the decimals
/// of its mint: 9 at once for the native mint, those of the mint that it asks for otherwise.
pub proof fn law_token_account_is_parsed_with_its_mint(
    pubkey: Seq<u8>,
    account: AccountView,
    owner: Seq<u8>,
    decimals: u8,
    error: ErrorView,
)
    ensures
        token_account_mint(account.data) is None ==> token_account_start(pubkey, account)
            == StepView::<TokenLookupView, UiAccountView>::Done(
            Err(ErrorView { code: -32602 as i64, message: "Could not find the mint"@ }),
        ),
        token_account_mint(account.data) == Some(native_mint_id()) ==> (token_account_start(
            pubkey,
            account,
        ) matches StepView::Done(Ok(ui)) && token_account_from_mint(
            pubkey,
            account,
            Ok((spl_token_id(), 9u8)),
        ) == Ok::<UiAccountView, ErrorView>(ui)),
        (token_account_mint(account.data) matches Some(mint) && mint != native_mint_id()) ==> (
        token_account_start(pubkey, account) matches StepView::Query(token) && {
            &&& Some(token.mint) == token_account_mint(account.data)
            &&& token.pubkey == pubkey
            &&& token.account == account
        }),
        token_account_from_mint(pubkey, account, Err(error)) == Err::<UiAccountView, ErrorView>(
            error,
        ),
        token_account_from_mint(pubkey, account, Ok((owner, decimals))) matches Ok(ui) && {
            &&& ui.lamports == account.lamports
            &&& ui.owner == base58_text(account.owner)
            &&& ui.executable == account.executable
            &&& ui.rent_epoch == account.rent_epoch
            &&& match parsed_account(
                pubkey,
                account.owner,
                account.data,
                Some(decimals),
                usize::BITS,
            ) {
                Some(parsed) => ui.data == UiAccountDataView::Json(parsed),
                None => ui.data == UiAccountDataView::Binary(
                    base64_text(account.data),
                    UiAccountEncoding::Base64,
                ),
            }
        },
{
}

/// The reply to a lookup can be answered unless it is an account with lamports that cannot be
/// written, or a mint for an account that cannot.
pub proof fn law_lookup_runs_unless(
    pubkey: Seq<u8>,
    encoding: UiAccountEncoding,
    data_slice: Option<UiDataSliceConfig>,
    token: TokenLookupView,
    account: AccountView,
    error: DatabaseErrorView,
)
    ensures
        ({
            let lookup = LookupView::Account { pubkey, encoding, data_slice };
            let mint = LookupView::Mint(token);
            &&& lookup_runs(lookup, Err(error))
            &&& lookup_runs(lookup, Ok(account)) <==> account.lamports == 0 || !unencodable(
                account.pubkey,
                account,
                encoding,
            )
            &&& lookup_runs(mint, Err(error))
            &&& lookup_runs(mint, Ok(account)) <==> mint_decimals(account.data) is None
                || !unencodable(token.pubkey, token.account, UiAccountEncoding::JsonParsed)
        }),
{
}

/// A lookup that has a token account and waits for its mint goes on with that account.
pub proof fn law_mint_lookup_answers_its_account(token: TokenLookupView, reply: Reply)
    ensures
        lookup_query(LookupView::Mint(token)) == token.mint,
        lookup_step(LookupView::Mint(token), reply) matches StepView::Done(result) && match (
            token_account_from_mint(token.pubkey, token.account, mint_from_reply(reply))
        ) {
            Ok(ui) => result == Ok::<Option<UiAccountView>, ErrorView>(Some(ui)),
            Err(error) => result == Err::<Option<UiAccountView>, ErrorView>(error),
        },
{
}

} // verus!
