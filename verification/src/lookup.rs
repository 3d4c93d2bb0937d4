//! The lookup of one account, step by step: each step names the account to fetch from the
//! database next, or ends with the outcome.
use crate::account::{encode_ui_account, is_unencodable, ui_account};
use crate::error::{
    database_error, internal_error_view, outcome, reply_view, DatabaseErrorView, Error, ErrorView,
    PostgresRpcServerError, INVALID_PARAMS,
};
use crate::outside::{
    get_token_account_mint, internal_error, invalid_params, is_known_spl_token_id, mint_decimals,
    native_mint_id, spl_token_id, spl_token_native_mint, spl_token_native_mint_program_id,
    sysvar_id, token_account_mint, unencodable, unpack_mint_decimals,
};
use crate::types::{
    AccountView, DbAccountInfo, Pubkey, UiAccount, UiAccountEncoding, UiAccountView,
    UiDataSliceConfig,
};
use vstd::prelude::*;

verus! {

/// A step of a request: it goes on with a query to the database, or it is done.
#[derive(Debug, PartialEq, Eq)]
pub enum Step<S, T> {
    Query(S),
    Done(Result<T, Error>),
}

pub enum StepView<S, T> {
    Query(S),
    Done(Result<T, ErrorView>),
}

impl<S: DeepView, T: DeepView> View for Step<S, T> {
    type V = StepView<S::V, T::V>;

    open spec fn view(&self) -> StepView<S::V, T::V> {
        match self {
            Step::Query(state) => StepView::Query(state.deep_view()),
            Step::Done(result) => StepView::Done(outcome(*result)),
        }
    }
}

/// What the database replies when it is asked for an account.
pub type AccountReply = Result<DbAccountInfo, PostgresRpcServerError>;

/// The decimals of the native token.
pub const NATIVE_MINT_DECIMALS: u8 = 9;

/// The error for an account that holds no mint.
pub open spec fn mint_error() -> ErrorView {
    ErrorView {
        code: INVALID_PARAMS,
        message: "Invalid param: Token mint could not be unpacked"@,
    }
}

/// The error for a token account whose mint is not known.
pub open spec fn no_mint_error() -> ErrorView {
    ErrorView { code: INVALID_PARAMS, message: "Could not find the mint"@ }
}

/// Reads the decimals of a mint.
pub fn get_mint_decimals(data: &[u8]) -> (result: Result<u8, Error>)
    ensures
        outcome(result) == match mint_decimals(data@) {
            Some(decimals) => Ok(decimals),
            None => Err(mint_error()),
        },
{
    match unpack_mint_decimals(data) {
        Some(decimals) => Ok(decimals),
        None => Err(invalid_params("Invalid param: Token mint could not be unpacked")),
    }
}

/// A mint whose account is being fetched.
#[derive(Clone, Copy, Debug, PartialEq, Eq)]
pub struct MintLookup {
    pub mint: Pubkey,
}

impl DeepView for MintLookup {
    type V = Seq<u8>;

    open spec fn deep_view(&self) -> Seq<u8> {
        self.mint@
    }
}

/// The token program and the decimals of a mint that the database replied, or why they are
/// not known.
pub open spec fn mint_from_reply(reply: Result<AccountView, DatabaseErrorView>) -> Result<
    (Seq<u8>, u8),
    ErrorView,
> {
    match reply {
        Ok(account) => match mint_decimals(account.data) {
            Some(decimals) => Ok((account.owner, decimals)),
            None => Err(mint_error()),
        },
        Err(error) => Err(database_error(error)),
    }
}

/// Starts to look up the token program and the decimals of a mint. Those of the native mint
/// are known.
pub fn get_mint_owner_and_decimals(mint: &Pubkey) -> (step: Step<MintLookup, (Pubkey, u8)>)
    ensures
        step@ == if mint@ == native_mint_id() {
            StepView::Done(Ok((spl_token_id(), NATIVE_MINT_DECIMALS)))
        } else {
            StepView::Query(mint@)
        },
{
    if mint.same(&spl_token_native_mint()) {
        Step::Done(Ok((spl_token_native_mint_program_id(), NATIVE_MINT_DECIMALS)))
    } else {
        Step::Query(MintLookup { mint: *mint })
    }
}

impl MintLookup {
    /// The account to fetch.
    pub fn query(&self) -> (pubkey: Pubkey)
        ensures
            pubkey@ == self.deep_view(),
    {
        self.mint
    }

    /// Goes on with the reply of the database.
    pub fn resume(self, reply: AccountReply) -> (result: Result<(Pubkey, u8), Error>)
        ensures
            outcome(result) == mint_from_reply(reply_view(reply)),
    {
        match reply {
            Ok(mint_account) => match get_mint_decimals(mint_account.data.as_slice()) {
                Ok(decimals) => Ok((mint_account.owner, decimals)),
                Err(error) => Err(error),
            },
            Err(error) => Err(Error::from_database_error(error)),
        }
    }
}

/// A token account whose mint is being fetched.
#[derive(Clone, Debug, PartialEq, Eq)]
pub struct TokenAccountLookup {
    pub pubkey: Pubkey,
    pub account: DbAccountInfo,
    pub mint: MintLookup,
}

#[verifier::ext_equal]
pub struct TokenLookupView {
    pub pubkey: Seq<u8>,
    pub account: AccountView,
    pub mint: Seq<u8>,
}

impl DeepView for TokenAccountLookup {
    type V = TokenLookupView;

    open spec fn deep_view(&self) -> TokenLookupView {
        TokenLookupView {
            pubkey: self.pubkey@,
            account: self.account@,
            mint: self.mint.deep_view(),
        }
    }
}

/// A token account as it is answered once the decimals of its mint are known.
pub open spec fn parsed_token_account(
    pubkey: Seq<u8>,
    account: AccountView,
    decimals: u8,
) -> UiAccountView {
    ui_account(pubkey, account, UiAccountEncoding::JsonParsed, Some(decimals), None)
}

/// A token account as it is answered once its mint is looked up.
pub open spec fn token_account_from_mint(
    pubkey: Seq<u8>,
    account: AccountView,
    mint: Result<(Seq<u8>, u8), ErrorView>,
) -> Result<UiAccountView, ErrorView> {
    match mint {
        Ok((_, decimals)) => Ok(parsed_token_account(pubkey, account, decimals)),
        Err(error) => Err(error),
    }
}

/// The first step of the lookup of a token account.
pub open spec fn token_account_start(pubkey: Seq<u8>, account: AccountView) -> StepView<
    TokenLookupView,
    UiAccountView,
> {
    match token_account_mint(account.data) {
        None => StepView::Done(Err(no_mint_error())),
        Some(mint) => if mint == native_mint_id() {
            StepView::Done(Ok(parsed_token_account(pubkey, account, NATIVE_MINT_DECIMALS)))
        } else {
            StepView::Query(TokenLookupView { pubkey, account, mint })
        },
    }
}

/// No account that names the native mint is one that the encoder panics on.
pub proof fn lemma_native_token_account_encodable(pubkey: Seq<u8>, account: AccountView)
    ensures
        token_account_mint(account.data) == Some(native_mint_id()) ==> !unencodable(
            pubkey,
            account,
            UiAccountEncoding::JsonParsed,
        ),
{
    if token_account_mint(account.data) == Some(native_mint_id()) {
        assert(account.data.subrange(0, 32)[0] == native_mint_id()[0]);
    }
}

/// Starts to look up a token account with what is known of its mint.
pub fn get_parsed_token_account(
    pubkey: &Pubkey,
    account: DbAccountInfo,
) -> (step: Step<TokenAccountLookup, UiAccount>)
    ensures
        step@ == token_account_start(pubkey@, account@),
{
    proof {
        lemma_native_token_account_encodable(pubkey@, account@);
    }
    match get_token_account_mint(account.data.as_slice()) {
        None => Step::Done(Err(invalid_params("Could not find the mint"))),
        Some(mint_pubkey) => match get_mint_owner_and_decimals(&mint_pubkey) {
            Step::Query(mint) => Step::Query(
                TokenAccountLookup { pubkey: *pubkey, account, mint },
            ),
            Step::Done(Ok((_, decimals))) => Step::Done(
                Ok(
                    encode_ui_account(
                        pubkey,
                        &account,
                        UiAccountEncoding::JsonParsed,
                        Some(decimals),
                        None,
                    ),
                ),
            ),
            Step::Done(Err(error)) => Step::Done(Err(error)),
        },
    }
}

impl TokenAccountLookup {
    /// The account to fetch.
    pub fn query(&self) -> (pubkey: Pubkey)
        ensures
            pubkey@ == self.deep_view().mint,
    {
        self.mint.query()
    }

    /// Goes on with the reply of the database.
    pub fn resume(self, reply: AccountReply) -> (result: Result<UiAccount, Error>)
        requires
            mint_from_reply(reply_view(reply)) is Ok ==> !unencodable(
                self.deep_view().pubkey,
                self.deep_view().account,
                UiAccountEncoding::JsonParsed,
            ),
        ensures
            outcome(result) == token_account_from_mint(
                self.deep_view().pubkey,
                self.deep_view().account,
                mint_from_reply(reply_view(reply)),
            ),
    {
        match self.mint.resume(reply) {
            Ok((_, decimals)) => Ok(
                encode_ui_account(
                    &self.pubkey,
                    &self.account,
                    UiAccountEncoding::JsonParsed,
                    Some(decimals),
                    None,
                ),
            ),
            Err(error) => Err(error),
        }
    }

    /// Whether the reply of the database can be answered.
    fn can_resume(&self, reply: &AccountReply) -> (b: bool)
        ensures
            b == (mint_from_reply(reply_view(*reply)) is Ok ==> !unencodable(
                self.deep_view().pubkey,
                self.deep_view().account,
                UiAccountEncoding::JsonParsed,
            )),
    {
        match reply {
            Ok(fetched) => {
                unpack_mint_decimals(fetched.data.as_slice()).is_none() || !is_unencodable(
                    &self.pubkey,
                    &self.account,
                    UiAccountEncoding::JsonParsed,
                )
            },
            Err(_) => true,
        }
    }

    /// Goes on with the reply of the database; `None` where the mint is found and the encoder
    /// panics on the account.
    pub fn try_resume(self, reply: AccountReply) -> (result: Option<Result<UiAccount, Error>>)
        ensures
            result is None == (mint_from_reply(reply_view(reply)) is Ok && unencodable(
                self.deep_view().pubkey,
                self.deep_view().account,
                UiAccountEncoding::JsonParsed,
            )),
            result matches Some(result) ==> outcome(result) == token_account_from_mint(
                self.deep_view().pubkey,
                self.deep_view().account,
                mint_from_reply(reply_view(reply)),
            ),
    {
        if self.can_resume(&reply) {
            Some(self.resume(reply))
        } else {
            None
        }
    }
}

/// An account that is being looked up: itself, or the mint of a token account.
#[derive(Clone, Debug, PartialEq, Eq)]
pub enum AccountLookup {
    Account {
        pubkey: Pubkey,
        encoding: UiAccountEncoding,
        data_slice: Option<UiDataSliceConfig>,
    },
    Mint(TokenAccountLookup),
}

#[verifier::ext_equal]
pub enum LookupView {
    Account {
        pubkey: Seq<u8>,
        encoding: UiAccountEncoding,
        data_slice: Option<UiDataSliceConfig>,
    },
    Mint(TokenLookupView),
}

impl DeepView for AccountLookup {
    type V = LookupView;

    open spec fn deep_view(&self) -> LookupView {
        match self {
            AccountLookup::Account { pubkey, encoding, data_slice } => LookupView::Account {
                pubkey: pubkey@,
                encoding: *encoding,
                data_slice: *data_slice,
            },
            AccountLookup::Mint(token) => LookupView::Mint(token.deep_view()),
        }
    }
}

/// The account that a lookup waits for.
pub open spec fn lookup_query(lookup: LookupView) -> Seq<u8> {
    match lookup {
        LookupView::Account { pubkey, .. } => pubkey,
        LookupView::Mint(token) => token.mint,
    }
}

/// Whether an account is answered with what is known of its mint.
pub open spec fn is_parsed_token(account: AccountView, encoding: UiAccountEncoding) -> bool {
    account.owner == spl_token_id() && encoding == UiAccountEncoding::JsonParsed
}

/// The step that follows the lookup of a token account.
pub open spec fn token_step(step: StepView<TokenLookupView, UiAccountView>) -> StepView<
    LookupView,
    Option<UiAccountView>,
> {
    match step {
        StepView::Query(token) => StepView::Query(LookupView::Mint(token)),
        StepView::Done(Ok(ui)) => StepView::Done(Ok(Some(ui))),
        StepView::Done(Err(error)) => StepView::Done(Err(error)),
    }
}

/// The step that follows the reply to a lookup.
pub open spec fn lookup_step(
    lookup: LookupView,
    reply: Result<AccountView, DatabaseErrorView>,
) -> StepView<LookupView, Option<UiAccountView>> {
    match lookup {
        LookupView::Account { pubkey, encoding, data_slice } => match reply {
            Err(_) => StepView::Done(Err(internal_error_view())),
            Ok(account) => if account.lamports == 0 {
                StepView::Done(Ok(None))
            } else if is_parsed_token(account, encoding) {
                token_step(token_account_start(pubkey, account))
            } else {
                StepView::Done(
                    Ok(Some(ui_account(account.pubkey, account, encoding, None, data_slice))),
                )
            },
        },
        LookupView::Mint(token) => token_step(
            StepView::Done(
                token_account_from_mint(token.pubkey, token.account, mint_from_reply(reply)),
            ),
        ),
    }
}

/// Whether the reply to a lookup can be answered: an account that is written can be.
pub open spec fn lookup_runs(
    lookup: LookupView,
    reply: Result<AccountView, DatabaseErrorView>,
) -> bool {
    match lookup {
        LookupView::Account { pubkey, encoding, data_slice } => reply matches Ok(account) ==> {
            account.lamports != 0 ==> !unencodable(account.pubkey, account, encoding)
        },
        LookupView::Mint(token) => mint_from_reply(reply) is Ok ==> !unencodable(
            token.pubkey,
            token.account,
            UiAccountEncoding::JsonParsed,
        ),
    }
}

/// No token account is one that the encoder panics on.
pub proof fn lemma_token_account_encodable(
    pubkey: Seq<u8>,
    account: AccountView,
    encoding: UiAccountEncoding,
)
    requires
        account.owner == spl_token_id(),
    ensures
        !unencodable(pubkey, account, encoding),
{
    assert(spl_token_id()[1] != sysvar_id()[1]);
}

/// Starts to look up an account.
pub fn get_encoded_account(
    pubkey: &Pubkey,
    encoding: UiAccountEncoding,
    data_slice: Option<UiDataSliceConfig>,
) -> (lookup: AccountLookup)
    ensures
        lookup.deep_view() == (LookupView::Account { pubkey: pubkey@, encoding, data_slice }),
{
    AccountLookup::Account { pubkey: *pubkey, encoding, data_slice }
}

impl AccountLookup {
    /// The account to fetch.
    pub fn query(&self) -> (pubkey: Pubkey)
        ensures
            pubkey@ == lookup_query(self.deep_view()),
    {
        match self {
            AccountLookup::Account { pubkey, .. } => *pubkey,
            AccountLookup::Mint(token) => token.query(),
        }
    }

    /// Goes on with the reply of the database.
    pub fn resume(self, reply: AccountReply) -> (step: Step<AccountLookup, Option<UiAccount>>)
        requires
            lookup_runs(self.deep_view(), reply_view(reply)),
        ensures
            step@ == lookup_step(self.deep_view(), reply_view(reply)),
    {
        match self {
            AccountLookup::Account { pubkey, encoding, data_slice } => match reply {
                Ok(account) => {
                    if account.lamports == 0 {
                        return Step::Done(Ok(None));
                    }
                    if is_known_spl_token_id(&account.owner) && encoding
                        == UiAccountEncoding::JsonParsed {
                        match get_parsed_token_account(&pubkey, account) {
                            Step::Query(token) => Step::Query(AccountLookup::Mint(token)),
                            Step::Done(Ok(ui)) => Step::Done(Ok(Some(ui))),
                            Step::Done(Err(error)) => Step::Done(Err(error)),
                        }
                    } else {
                        Step::Done(
                            Ok(
                                Some(
                                    encode_ui_account(
                                        &account.pubkey,
                                        &account,
                                        encoding,
                                        None,
                                        data_slice,
                                    ),
                                ),
                            ),
                        )
                    }
                },
                Err(_) => Step::Done(Err(internal_error())),
            },
            AccountLookup::Mint(token) => match token.resume(reply) {
                Ok(ui) => Step::Done(Ok(Some(ui))),
                Err(error) => Step::Done(Err(error)),
            },
        }
    }

    /// Whether the reply of the database can be answered.
    pub fn can_resume(&self, reply: &AccountReply) -> (b: bool)
        ensures
            b == lookup_runs(self.deep_view(), reply_view(*reply)),
    {
        match self {
            AccountLookup::Account { encoding, .. } => match reply {
                Ok(account) => {
                    account.lamports == 0 || !is_unencodable(&account.pubkey, account, *encoding)
                },
                Err(_) => true,
            },
            AccountLookup::Mint(token) => token.can_resume(reply),
        }
    }

    /// Goes on with the reply of the database; `None` where it cannot be answered.
    pub fn try_resume(self, reply: AccountReply) -> (step: Option<
        Step<AccountLookup, Option<UiAccount>>,
    >)
        ensures
            step is Some == lookup_runs(self.deep_view(), reply_view(reply)),
            step matches Some(step) ==> step@ == lookup_step(self.deep_view(), reply_view(reply)),
    {
        if self.can_resume(&reply) {
            Some(self.resume(reply))
        } else {
            None
        }
    }
}

} // verus!
