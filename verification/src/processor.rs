//! The requests of the service. Each begins with a step that names what to fetch from the
//! database, and goes on with what the database replies.
use crate::account::{check_slice_and_encoding, slice_error, slice_refused};
use crate::error::{
    database_scan_message, outcome, reply_view, scan_error_view, DatabaseErrorView, Error,
    ErrorView, PostgresRpcServerError, RpcCustomError,
};
use crate::filter::{
    all_optimized, can_filter_accounts, decode_filters, filter_accounts,
    get_spl_token_mint_filter, get_spl_token_owner_filter, scan, scan_runs, spl_token_key_filter, SPL_TOKEN_ACCOUNT_MINT_OFFSET,
    SPL_TOKEN_ACCOUNT_OWNER_OFFSET,
};
use crate::lookup::{
    get_encoded_account, lookup_query, lookup_runs, lookup_step, AccountLookup, AccountReply,
    LookupView, Step, StepView,
};
use crate::outside::{token_account_packed_len, TOKEN_ACCOUNT_LEN};
use crate::types::{
    encoding_and_slice, requested_encoding, requested_slice, AccountView, CompareView,
    DbAccountInfo, EncodedBytesView, FilterView, KeyedAccountView, Memcmp, MemcmpEncodedBytes,
    OptionalContext, Pubkey, RpcAccountInfoConfig, RpcFilterType, RpcKeyedAccount, RpcResponse,
    RpcResponseContext, UiAccount, UiAccountEncoding, UiAccountView, UiDataSliceConfig,
};
use vstd::prelude::*;

verus! {

/// An answer at the only slot that the service knows of.
pub open spec fn response<T>(value: T) -> RpcResponse<T> {
    RpcResponse { context: RpcResponseContext { slot: 0 }, value }
}

/// A request for one account that waits for the database.
#[derive(Clone, Debug, PartialEq, Eq)]
pub struct AccountInfoRequest {
    pub lookup: AccountLookup,
}

impl DeepView for AccountInfoRequest {
    type V = LookupView;

    open spec fn deep_view(&self) -> LookupView {
        self.lookup.deep_view()
    }
}

/// The first step of a request for one account.
pub open spec fn account_info_start(
    pubkey: Seq<u8>,
    config: Option<RpcAccountInfoConfig>,
) -> StepView<LookupView, RpcResponse<Option<UiAccountView>>> {
    let encoding = requested_encoding(config);
    let data_slice = requested_slice(config);
    if slice_refused(encoding, data_slice is Some) {
        StepView::Done(Err(slice_error()))
    } else {
        StepView::Query(LookupView::Account { pubkey, encoding, data_slice })
    }
}

/// The step of a request for one account that follows a reply of the database.
pub open spec fn account_info_step(
    lookup: LookupView,
    reply: Result<AccountView, DatabaseErrorView>,
) -> StepView<LookupView, RpcResponse<Option<UiAccountView>>> {
    match lookup_step(lookup, reply) {
        StepView::Query(lookup) => StepView::Query(lookup),
        StepView::Done(Ok(value)) => StepView::Done(Ok(response(value))),
        StepView::Done(Err(error)) => StepView::Done(Err(error)),
    }
}

impl AccountInfoRequest {
    /// The account to fetch.
    pub fn query(&self) -> (pubkey: Pubkey)
        ensures
            pubkey@ == lookup_query(self.deep_view()),
    {
        self.lookup.query()
    }

    /// Goes on with the reply of the database.
    pub fn resume(self, reply: AccountReply) -> (step: Step<
        AccountInfoRequest,
        RpcResponse<Option<UiAccount>>,
    >)
        requires
            lookup_runs(self.deep_view(), reply_view(reply)),
        ensures
            step@ == account_info_step(self.deep_view(), reply_view(reply)),
    {
        match self.lookup.resume(reply) {
            Step::Query(lookup) => Step::Query(AccountInfoRequest { lookup }),
            Step::Done(Ok(value)) => Step::Done(
                Ok(RpcResponse { context: RpcResponseContext { slot: 0 }, value }),
            ),
            Step::Done(Err(error)) => Step::Done(Err(error)),
        }
    }

    /// Goes on with the reply of the database; `None` where it cannot be answered.
    pub fn try_resume(self, reply: AccountReply) -> (step: Option<
        Step<AccountInfoRequest, RpcResponse<Option<UiAccount>>>,
    >)
        ensures
            step is Some == lookup_runs(self.deep_view(), reply_view(reply)),
            step matches Some(step) ==> step@ == account_info_step(
                self.deep_view(),
                reply_view(reply),
            ),
    {
        if self.lookup.can_resume(&reply) {
            Some(self.resume(reply))
        } else {
            None
        }
    }
}

/// A request for several accounts that waits for the database: the account that is looked
/// up, where the accounts that follow it begin, and the accounts that were answered.
#[derive(Clone, Debug, PartialEq, Eq)]
pub struct MultipleAccountsRequest {
    pub lookup: AccountLookup,
    pub pubkeys: Vec<Pubkey>,
    pub next: usize,
    pub encoding: UiAccountEncoding,
    pub data_slice: Option<UiDataSliceConfig>,
    pub accounts: Vec<Option<UiAccount>>,
}

#[verifier::ext_equal]
pub struct MultipleView {
    pub lookup: LookupView,
    pub remaining: Seq<Seq<u8>>,
    pub encoding: UiAccountEncoding,
    pub data_slice: Option<UiDataSliceConfig>,
    pub accounts: Seq<Option<UiAccountView>>,
}

impl DeepView for MultipleAccountsRequest {
    type V = MultipleView;

    open spec fn deep_view(&self) -> MultipleView {
        MultipleView {
            lookup: self.lookup.deep_view(),
            remaining: self.pubkeys.deep_view().skip(self.next as int),
            encoding: self.encoding,
            data_slice: self.data_slice,
            accounts: self.accounts.deep_view(),
        }
    }
}

/// The step of a request for several accounts when none is being looked up.
pub open spec fn multiple_accounts_next(
    remaining: Seq<Seq<u8>>,
    encoding: UiAccountEncoding,
    data_slice: Option<UiDataSliceConfig>,
    accounts: Seq<Option<UiAccountView>>,
) -> StepView<MultipleView, RpcResponse<Seq<Option<UiAccountView>>>> {
    if remaining.len() == 0 {
        StepView::Done(Ok(response(accounts)))
    } else {
        StepView::Query(
            MultipleView {
                lookup: LookupView::Account { pubkey: remaining[0], encoding, data_slice },
                remaining: remaining.skip(1),
                encoding,
                data_slice,
                accounts,
            },
        )
    }
}

/// The first step of a request for several accounts.
pub open spec fn multiple_accounts_start(
    pubkeys: Seq<Seq<u8>>,
    config: Option<RpcAccountInfoConfig>,
) -> StepView<MultipleView, RpcResponse<Seq<Option<UiAccountView>>>> {
    let encoding = requested_encoding(config);
    let data_slice = requested_slice(config);
    if slice_refused(encoding, data_slice is Some) {
        StepView::Done(Err(slice_error()))
    } else {
        multiple_accounts_next(pubkeys, encoding, data_slice, Seq::empty())
    }
}

/// The step of a request for several accounts that follows a reply of the database.
pub open spec fn multiple_accounts_step(
    request: MultipleView,
    reply: Result<AccountView, DatabaseErrorView>,
) -> StepView<MultipleView, RpcResponse<Seq<Option<UiAccountView>>>> {
    match lookup_step(request.lookup, reply) {
        StepView::Query(lookup) => StepView::Query(MultipleView { lookup, ..request }),
        StepView::Done(Ok(value)) => multiple_accounts_next(
            request.remaining,
            request.encoding,
            request.data_slice,
            request.accounts.push(value),
        ),
        StepView::Done(Err(error)) => StepView::Done(Err(error)),
    }
}

impl MultipleAccountsRequest {
    /// Whether the position of the accounts that follow lies among the accounts.
    pub open spec fn wf(&self) -> bool {
        self.next <= self.pubkeys.len()
    }

    /// Goes on to the account at a position, or ends after the last one.
    fn advance(
        pubkeys: Vec<Pubkey>,
        next: usize,
        encoding: UiAccountEncoding,
        data_slice: Option<UiDataSliceConfig>,
        accounts: Vec<Option<UiAccount>>,
    ) -> (step: Step<MultipleAccountsRequest, RpcResponse<Vec<Option<UiAccount>>>>)
        requires
            next <= pubkeys.len(),
        ensures
            step@ == multiple_accounts_next(
                pubkeys.deep_view().skip(next as int),
                encoding,
                data_slice,
                accounts.deep_view(),
            ),
            step matches Step::Query(request) ==> request.wf(),
    {
        if next < pubkeys.len() {
            let lookup = get_encoded_account(&pubkeys[next], encoding, data_slice);
            assert(pubkeys.deep_view().skip(next as int).skip(1) =~= pubkeys.deep_view().skip(
                next + 1,
            ));
            Step::Query(
                MultipleAccountsRequest {
                    lookup,
                    pubkeys,
                    next: next + 1,
                    encoding,
                    data_slice,
                    accounts,
                },
            )
        } else {
            Step::Done(Ok(RpcResponse { context: RpcResponseContext { slot: 0 }, value: accounts }))
        }
    }

    /// The account to fetch.
    pub fn query(&self) -> (pubkey: Pubkey)
        ensures
            pubkey@ == lookup_query(self.deep_view().lookup),
    {
        self.lookup.query()
    }

    /// Goes on with the reply of the database.
    pub fn resume(self, reply: AccountReply) -> (step: Step<
        MultipleAccountsRequest,
        RpcResponse<Vec<Option<UiAccount>>>,
    >)
        requires
            self.wf(),
            lookup_runs(self.deep_view().lookup, reply_view(reply)),
        ensures
            step@ == multiple_accounts_step(self.deep_view(), reply_view(reply)),
            step matches Step::Query(request) ==> request.wf(),
    {
        let MultipleAccountsRequest { lookup, pubkeys, next, encoding, data_slice, accounts } =
            self;
        match lookup.resume(reply) {
            Step::Query(lookup) => Step::Query(
                MultipleAccountsRequest { lookup, pubkeys, next, encoding, data_slice, accounts },
            ),
            Step::Done(Ok(account)) => {
                let mut accounts = accounts;
                accounts.push(account);
                assert(accounts.deep_view() =~= self.accounts.deep_view().push(
                    account.deep_view(),
                ));
                MultipleAccountsRequest::advance(pubkeys, next, encoding, data_slice, accounts)
            },
            Step::Done(Err(error)) => Step::Done(Err(error)),
        }
    }

    /// Goes on with the reply of the database; `None` where it cannot be answered, or where the
    /// request is not well-formed.
    pub fn try_resume(self, reply: AccountReply) -> (step: Option<
        Step<MultipleAccountsRequest, RpcResponse<Vec<Option<UiAccount>>>>,
    >)
        ensures
            step is Some == (self.wf() && lookup_runs(
                self.deep_view().lookup,
                reply_view(reply),
            )),
            step matches Some(step) ==> {
                &&& step@ == multiple_accounts_step(self.deep_view(), reply_view(reply))
                &&& step matches Step::Query(request) ==> request.wf()
            },
    {
        if self.next <= self.pubkeys.len() && self.lookup.can_resume(&reply) {
            Some(self.resume(reply))
        } else {
            None
        }
    }
}

/// By what the database finds the accounts that a scan is made over.
#[derive(Clone, Copy, Debug, PartialEq, Eq, Structural)]
pub enum AccountIndex {
    /// The program that owns them.
    Owner,
    /// The owner that token accounts name in their data.
    SplTokenOwner,
    /// The mint that token accounts name in their data.
    SplTokenMint,
}

/// A request for the accounts of a program that waits for the database: what the database
/// finds the accounts by, and what is asked of them.
#[derive(Clone, Debug, PartialEq, Eq)]
pub struct ProgramAccountsRequest {
    pub index: AccountIndex,
    pub key: Pubkey,
    pub program_id: Pubkey,
    pub config: Option<RpcAccountInfoConfig>,
    pub filters: Vec<RpcFilterType>,
}

#[verifier::ext_equal]
pub struct ProgramView {
    pub index: AccountIndex,
    pub key: Seq<u8>,
    pub program_id: Seq<u8>,
    pub config: Option<RpcAccountInfoConfig>,
    pub filters: Seq<FilterView>,
}

impl DeepView for ProgramAccountsRequest {
    type V = ProgramView;

    open spec fn deep_view(&self) -> ProgramView {
        ProgramView {
            index: self.index,
            key: self.key@,
            program_id: self.program_id@,
            config: self.config,
            filters: self.filters.deep_view(),
        }
    }
}

/// What the database replies when it is asked for the accounts of an index.
pub type AccountsReply = Result<Vec<DbAccountInfo>, PostgresRpcServerError>;

/// The filters on token accounts that name an address at an offset.
pub open spec fn token_key_filters(key: Seq<u8>, offset: usize) -> Seq<FilterView> {
    seq![
        FilterView::DataSize(TOKEN_ACCOUNT_LEN as u64),
        FilterView::Compare(
            CompareView { offset, bytes: EncodedBytesView::Bytes(key), encoding: None },
        ),
    ]
}

/// A request for the token accounts that name an address at an offset.
pub open spec fn token_accounts_request(
    index: AccountIndex,
    offset: usize,
    key: Seq<u8>,
    program_id: Seq<u8>,
    config: Option<RpcAccountInfoConfig>,
    filters: Seq<FilterView>,
) -> ProgramView {
    ProgramView {
        index,
        key,
        program_id,
        config,
        filters: filters + token_key_filters(key, offset),
    }
}

/// A request for the accounts of a program: those of a token owner or of a mint where decoded
/// filters name one, all accounts of the program otherwise.
pub open spec fn program_accounts_request(
    program_id: Seq<u8>,
    config: Option<RpcAccountInfoConfig>,
    filters: Seq<FilterView>,
) -> ProgramView {
    let owner = spl_token_key_filter(program_id, filters, SPL_TOKEN_ACCOUNT_OWNER_OFFSET);
    let mint = spl_token_key_filter(program_id, filters, SPL_TOKEN_ACCOUNT_MINT_OFFSET);
    if owner is Some {
        token_accounts_request(
            AccountIndex::SplTokenOwner,
            SPL_TOKEN_ACCOUNT_OWNER_OFFSET,
            owner->0,
            program_id,
            config,
            filters,
        )
    } else if mint is Some {
        token_accounts_request(
            AccountIndex::SplTokenMint,
            SPL_TOKEN_ACCOUNT_MINT_OFFSET,
            mint->0,
            program_id,
            config,
            filters,
        )
    } else {
        ProgramView { index: AccountIndex::Owner, key: program_id, program_id, config, filters }
    }
}

/// Whether the reply to a request for the accounts of a program can be answered.
pub open spec fn program_accounts_run(
    request: ProgramView,
    reply: Result<Seq<AccountView>, DatabaseErrorView>,
) -> bool {
    reply matches Ok(accounts) ==> scan_runs(
        request.config,
        request.filters,
        accounts,
        request.program_id,
    )
}

/// The answer to a request for the accounts of a program, given the reply of the database.
pub open spec fn program_accounts_answer(
    request: ProgramView,
    reply: Result<Seq<AccountView>, DatabaseErrorView>,
) -> Result<OptionalContext<Seq<KeyedAccountView>>, ErrorView> {
    match reply {
        Ok(accounts) => match scan(
            request.config,
            request.filters,
            accounts,
            request.program_id,
        ) {
            Ok(found) => Ok(OptionalContext::NoContext(found)),
            Err(message) => Err(scan_error_view(message)),
        },
        Err(error) => Err(scan_error_view(database_scan_message(error))),
    }
}

impl ProgramAccountsRequest {
    /// Goes on with the reply of the database.
    pub fn resume(self, reply: AccountsReply) -> (result: Result<
        OptionalContext<Vec<RpcKeyedAccount>>,
        Error,
    >)
        requires
            program_accounts_run(self.deep_view(), reply_view(reply)),
        ensures
            outcome(result) == program_accounts_answer(self.deep_view(), reply_view(reply)),
    {
        match reply {
            Ok(accounts) => match filter_accounts(
                self.config,
                self.filters,
                accounts,
                &self.program_id,
            ) {
                Ok(found) => Ok(OptionalContext::NoContext(found)),
                Err(error) => Err(Error::from_custom_error(error)),
            },
            Err(error) => Err(
                Error::from_custom_error(RpcCustomError::from_database_error(error)),
            ),
        }
    }

    /// Goes on with the reply of the database; `None` where it cannot be answered.
    pub fn try_resume(self, reply: AccountsReply) -> (result: Option<
        Result<OptionalContext<Vec<RpcKeyedAccount>>, Error>,
    >)
        ensures
            result is Some == program_accounts_run(self.deep_view(), reply_view(reply)),
            result matches Some(result) ==> outcome(result) == program_accounts_answer(
                self.deep_view(),
                reply_view(reply),
            ),
    {
        let runs: bool = match &reply {
            Ok(accounts) => can_filter_accounts(
                self.config,
                &self.filters,
                accounts,
                &self.program_id,
            ),
            Err(_) => true,
        };
        if runs {
            Some(self.resume(reply))
        } else {
            None
        }
    }
}

/// The filters of a request with those that name an address at an offset.
fn with_token_key_filters(
    filters: Vec<RpcFilterType>,
    key: &Pubkey,
    offset: usize,
) -> (extended: Vec<RpcFilterType>)
    ensures
        extended.deep_view() == filters.deep_view() + token_key_filters(key@, offset),
{
    let mut extended = filters;
    extended.push(RpcFilterType::DataSize(token_account_size()));
    extended.push(
        RpcFilterType::Memcmp(
            Memcmp { offset, bytes: MemcmpEncodedBytes::Bytes(key.to_vec()), encoding: None },
        ),
    );
    assert(extended.deep_view() =~= filters.deep_view() + token_key_filters(key@, offset));
    extended
}

/// The data size of a token account.
fn token_account_size() -> (size: u64)
    ensures
        size == TOKEN_ACCOUNT_LEN,
{
    token_account_packed_len() as u64
}

/// The request processor of the service, with the configuration that it was made with.
#[derive(Clone, Debug, PartialEq, Eq)]
pub struct JsonRpcRequestProcessor<C> {
    pub config: C,
}

impl<C> JsonRpcRequestProcessor<C> {
    /// The request processor with a configuration.
    pub fn new(config: C) -> (processor: Self)
        ensures
            processor.config == config,
    {
        JsonRpcRequestProcessor { config }
    }

    /// Starts a request for one account.
    pub fn get_account_info(
        &mut self,
        pubkey: &Pubkey,
        config: Option<RpcAccountInfoConfig>,
    ) -> (step: Step<AccountInfoRequest, RpcResponse<Option<UiAccount>>>)
        ensures
            step@ == account_info_start(pubkey@, config),
            *final(self) == *old(self),
    {
        let (encoding, data_slice) = encoding_and_slice(config);
        match check_slice_and_encoding(&encoding, data_slice.is_some()) {
            Ok(_) => {
                let lookup = get_encoded_account(pubkey, encoding, data_slice);
                Step::Query(AccountInfoRequest { lookup })
            },
            Err(error) => Step::Done(Err(error)),
        }
    }

    /// Starts a request for several accounts.
    pub fn get_multiple_accounts(
        &self,
        pubkeys: Vec<Pubkey>,
        config: Option<RpcAccountInfoConfig>,
    ) -> (step: Step<MultipleAccountsRequest, RpcResponse<Vec<Option<UiAccount>>>>)
        ensures
            step@ == multiple_accounts_start(pubkeys.deep_view(), config),
            step matches Step::Query(request) ==> request.wf(),
    {
        let (encoding, data_slice) = encoding_and_slice(config);
        match check_slice_and_encoding(&encoding, data_slice.is_some()) {
            Ok(_) => {
                let accounts: Vec<Option<UiAccount>> = Vec::new();
                assert(pubkeys.deep_view().skip(0) =~= pubkeys.deep_view());
                assert(accounts.deep_view() =~= Seq::<Option<UiAccountView>>::empty());
                MultipleAccountsRequest::advance(pubkeys, 0, encoding, data_slice, accounts)
            },
            Err(error) => Step::Done(Err(error)),
        }
    }

    /// Starts a request for the token accounts of an owner.
    pub fn get_filtered_spl_token_accounts_by_owner(
        &self,
        config: Option<RpcAccountInfoConfig>,
        program_id: &Pubkey,
        owner_key: &Pubkey,
        filters: Vec<RpcFilterType>,
    ) -> (request: ProgramAccountsRequest)
        ensures
            request.deep_view() == token_accounts_request(
                AccountIndex::SplTokenOwner,
                SPL_TOKEN_ACCOUNT_OWNER_OFFSET,
                owner_key@,
                program_id@,
                config,
                filters.deep_view(),
            ),
    {
        ProgramAccountsRequest {
            index: AccountIndex::SplTokenOwner,
            key: *owner_key,
            program_id: *program_id,
            config,
            filters: with_token_key_filters(filters, owner_key, SPL_TOKEN_ACCOUNT_OWNER_OFFSET),
        }
    }

    /// Starts a request for the token accounts of a mint.
    pub fn get_filtered_spl_token_accounts_by_mint(
        &self,
        config: Option<RpcAccountInfoConfig>,
        program_id: &Pubkey,
        mint_key: &Pubkey,
        filters: Vec<RpcFilterType>,
    ) -> (request: ProgramAccountsRequest)
        ensures
            request.deep_view() == token_accounts_request(
                AccountIndex::SplTokenMint,
                SPL_TOKEN_ACCOUNT_MINT_OFFSET,
                mint_key@,
                program_id@,
                config,
                filters.deep_view(),
            ),
    {
        ProgramAccountsRequest {
            index: AccountIndex::SplTokenMint,
            key: *mint_key,
            program_id: *program_id,
            config,
            filters: with_token_key_filters(filters, mint_key, SPL_TOKEN_ACCOUNT_MINT_OFFSET),
        }
    }

    /// Starts a request for all accounts of a program.
    pub fn get_filtered_program_accounts(
        &self,
        program_id: &Pubkey,
        config: Option<RpcAccountInfoConfig>,
        filters: Vec<RpcFilterType>,
    ) -> (request: ProgramAccountsRequest)
        ensures
            request.deep_view() == (ProgramView {
                index: AccountIndex::Owner,
                key: program_id@,
                program_id: program_id@,
                config,
                filters: filters.deep_view(),
            }),
    {
        ProgramAccountsRequest {
            index: AccountIndex::Owner,
            key: *program_id,
            program_id: *program_id,
            config,
            filters,
        }
    }

    /// Starts a request for the accounts of a program. The filters are decoded before they are
    /// looked at, so that an owner or a mint may be written as text; text that does not decode is
    /// left as it is. The answer never comes with its context, whether it is asked for or not.
    pub fn get_program_accounts(
        &self,
        program_id: &Pubkey,
        config: Option<RpcAccountInfoConfig>,
        filters: Vec<RpcFilterType>,
        with_context: bool,
    ) -> (request: ProgramAccountsRequest)
        ensures
            request.deep_view() == program_accounts_request(
                program_id@,
                config,
                all_optimized(filters.deep_view()),
            ),
    {
        let mut decoded = filters;
        decode_filters(&mut decoded);
        match get_spl_token_owner_filter(program_id, decoded.as_slice()) {
            Some(owner) => self.get_filtered_spl_token_accounts_by_owner(
                config,
                program_id,
                &owner,
                decoded,
            ),
            None => match get_spl_token_mint_filter(program_id, decoded.as_slice()) {
                Some(mint) => self.get_filtered_spl_token_accounts_by_mint(
                    config,
                    program_id,
                    &mint,
                    decoded,
                ),
                None => self.get_filtered_program_accounts(program_id, config, decoded),
            },
        }
    }
}

} // verus!
