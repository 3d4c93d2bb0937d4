//! Filters on program accounts: how their bytes are decoded, which of them point to an index
//! of token accounts, and which accounts they select.
use crate::account::{
    base58_refused, base58_size_error, check_slice_and_encoding, encode_account, is_unencodable,
    slice_error, slice_refused, ui_account,
};
use crate::error::{
    answer_scan_message, rpc_custom_error_from_json_rpc_error, scan_outcome, RpcCustomError,
};
use crate::outside::{
    base58_bytes, base58_text, bytes_match, compare_finds, decode_base58, decode_base64, filter_bytes,
    is_known_spl_token_id, pubkey_to_string, spl_token_id, token_account_packed_len, unencodable,
    TOKEN_ACCOUNT_LEN,
};
use crate::types::{
    encoding_and_slice, requested_encoding, requested_slice, AccountView, CompareView,
    DbAccountInfo, EncodedBytesView, FilterView, KeyedAccountView, Memcmp, MemcmpEncodedBytes,
    Pubkey, RpcAccountInfoConfig, RpcFilterType, RpcKeyedAccount, UiAccountEncoding,
    UiDataSliceConfig, PUBKEY_BYTES,
};
use vstd::prelude::*;

verus! {

/// Where the mint stands in the data of a token account.
pub const SPL_TOKEN_ACCOUNT_MINT_OFFSET: usize = 0;

/// Where the owner stands in the data of a token account.
pub const SPL_TOKEN_ACCOUNT_OWNER_OFFSET: usize = 32;

/// Whether the bytes of a filter decode.
pub open spec fn decodable(filter: FilterView) -> bool {
    match filter {
        FilterView::DataSize(_) => true,
        FilterView::Compare(compare) => filter_bytes(compare.bytes) is Some,
    }
}

/// Whether the bytes of every filter decode.
pub open spec fn all_decodable(filters: Seq<FilterView>) -> bool {
    forall|i: int| 0 <= i < filters.len() ==> decodable(#[trigger] filters[i])
}

/// A filter with its bytes decoded.
pub open spec fn optimized(filter: FilterView) -> FilterView {
    match filter {
        FilterView::Compare(compare) => match filter_bytes(compare.bytes) {
            Some(bytes) => FilterView::Compare(
                CompareView { bytes: EncodedBytesView::Bytes(bytes), ..compare },
            ),
            None => filter,
        },
        FilterView::DataSize(_) => filter,
    }
}

/// Filters with their bytes decoded.
pub open spec fn all_optimized(filters: Seq<FilterView>) -> Seq<FilterView> {
    filters.map_values(|filter: FilterView| optimized(filter))
}

/// A filter with the given bytes, and the rest of another filter.
fn with_bytes(compare: &Memcmp, bytes: Vec<u8>) -> (filter: RpcFilterType)
    ensures
        filter@ == FilterView::Compare(
            (CompareView { bytes: EncodedBytesView::Bytes(bytes@), ..compare@ }),
        ),
{
    RpcFilterType::Memcmp(
        Memcmp {
            offset: compare.offset,
            bytes: MemcmpEncodedBytes::Bytes(bytes),
            encoding: compare.encoding,
        },
    )
}

/// The decoded form of a filter whose bytes are written as text; `None` for a filter that is
/// decoded already or does not decode.
fn decoded_filter(filter: &RpcFilterType) -> (decoded: Option<RpcFilterType>)
    ensures
        match decoded {
            Some(decoded) => decoded@ == optimized(filter@),
            None => filter@ == optimized(filter@),
        },
{
    match filter {
        RpcFilterType::Memcmp(compare) => {
            let bytes = match &compare.bytes {
                MemcmpEncodedBytes::Binary(text) | MemcmpEncodedBytes::Base58(text) => {
                    decode_base58(text.as_str())
                },
                MemcmpEncodedBytes::Base64(text) => decode_base64(text.as_str()),
                MemcmpEncodedBytes::Bytes(_) => None,
            };
            match bytes {
                Some(bytes) => {
                    assert(bytes.deep_view() =~= bytes@);
                    Some(with_bytes(compare, bytes))
                },
                None => None,
            }
        },
        RpcFilterType::DataSize(_) => None,
    }
}

/// Decodes the bytes of every filter. A filter that does not decode is left as it is.
pub fn decode_filters(filters: &mut Vec<RpcFilterType>)
    ensures
        final(filters).deep_view() == all_optimized(old(filters).deep_view()),
{
    let ghost before = filters.deep_view();
    let count: usize = filters.len();
    for i in 0..count
        invariant
            count == filters.len(),
            before.len() == count,
            forall|j: int|
                0 <= j < count ==> #[trigger] filters.deep_view()[j] == if j < i {
                    optimized(before[j])
                } else {
                    before[j]
                },
    {
        let ghost current = filters.deep_view();
        assert(current[i as int] == filters@[i as int]@);
        match decoded_filter(&filters[i]) {
            Some(decoded) => {
                filters.set(i, decoded);
                assert(filters.deep_view() =~= current.update(i as int, decoded@));
            },
            None => {},
        }
    }
    assert(filters.deep_view() =~= all_optimized(before));
}

/// Decodes the bytes of every filter, all of which decode.
pub fn optimize_filters(filters: &mut Vec<RpcFilterType>)
    requires
        all_decodable(old(filters).deep_view()),
    ensures
        final(filters).deep_view() == all_optimized(old(filters).deep_view()),
{
    decode_filters(filters);
}

/// Whether the bytes of a filter decode.
fn filter_decodes(filter: &RpcFilterType) -> (b: bool)
    ensures
        b == decodable(filter@),
{
    match filter {
        RpcFilterType::Memcmp(compare) => match &compare.bytes {
            MemcmpEncodedBytes::Binary(text) | MemcmpEncodedBytes::Base58(text) => {
                decode_base58(text.as_str()).is_some()
            },
            MemcmpEncodedBytes::Base64(text) => decode_base64(text.as_str()).is_some(),
            MemcmpEncodedBytes::Bytes(_) => true,
        },
        RpcFilterType::DataSize(_) => true,
    }
}

/// Whether the bytes of every filter decode.
pub fn filters_decode(filters: &Vec<RpcFilterType>) -> (b: bool)
    ensures
        b == all_decodable(filters.deep_view()),
{
    for i in 0..filters.len()
        invariant
            forall|j: int| 0 <= j < i ==> decodable(#[trigger] filters.deep_view()[j]),
    {
        assert(filters.deep_view()[i as int] == filters@[i as int]@);
        if !filter_decodes(&filters[i]) {
            return false;
        }
    }
    true
}

/// Decodes the bytes of every filter where all of them decode, and says whether they do.
pub fn try_optimize_filters(filters: &mut Vec<RpcFilterType>) -> (done: bool)
    ensures
        done == all_decodable(old(filters).deep_view()),
        done ==> final(filters).deep_view() == all_optimized(old(filters).deep_view()),
        !done ==> *final(filters) == *old(filters),
{
    if filters_decode(filters) {
        optimize_filters(filters);
        true
    } else {
        false
    }
}

/// The data size that the last filter on the data size asks for.
pub open spec fn last_data_size(filters: Seq<FilterView>) -> Option<u64>
    decreases filters.len(),
{
    if filters.len() == 0 {
        None
    } else {
        match filters.last() {
            FilterView::DataSize(size) => Some(size),
            _ => last_data_size(filters.drop_last()),
        }
    }
}

/// The address that a decoded filter looks for at an offset.
pub open spec fn key_at(filter: FilterView, offset: usize) -> Option<Seq<u8>> {
    match filter {
        FilterView::Compare(CompareView { offset: at, bytes: EncodedBytesView::Bytes(bytes), .. }) =>
        if at == offset && bytes.len() == PUBKEY_BYTES {
            Some(bytes)
        } else {
            None
        },
        _ => None,
    }
}

/// The address that the last decoded filter on an address at an offset looks for.
pub open spec fn last_key_at(filters: Seq<FilterView>, offset: usize) -> Option<Seq<u8>>
    decreases filters.len(),
{
    if filters.len() == 0 {
        None
    } else {
        match key_at(filters.last(), offset) {
            Some(key) => Some(key),
            None => last_key_at(filters.drop_last(), offset),
        }
    }
}

/// The address that filters on token accounts look for at an offset; `None` where the
/// program is not the token program or the last data size is not that of a token account.
pub open spec fn spl_token_key_filter(
    program_id: Seq<u8>,
    filters: Seq<FilterView>,
    offset: usize,
) -> Option<Seq<u8>> {
    if program_id == spl_token_id() && last_data_size(filters) == Some(TOKEN_ACCOUNT_LEN as u64) {
        last_key_at(filters, offset)
    } else {
        None
    }
}

/// The data size that a filter asks for.
fn data_size_of(filter: &RpcFilterType) -> (size: Option<u64>)
    ensures
        size == match filter@ {
            FilterView::DataSize(size) => Some(size),
            _ => None,
        },
{
    match filter {
        RpcFilterType::DataSize(size) => Some(*size),
        _ => None,
    }
}

/// The address that a decoded filter looks for at an offset.
fn key_of(filter: &RpcFilterType, offset: usize) -> (key: Option<Pubkey>)
    ensures
        key.deep_view() == key_at(filter@, offset),
{
    match filter {
        RpcFilterType::Memcmp(
            Memcmp { offset: at, bytes: MemcmpEncodedBytes::Bytes(bytes), .. },
        ) => {
            if *at == offset && bytes.len() == PUBKEY_BYTES {
                Some(Pubkey::new(bytes.as_slice()))
            } else {
                None
            }
        },
        _ => None,
    }
}

/// The address that filters on token accounts look for at an offset.
fn get_spl_token_key_filter(
    program_id: &Pubkey,
    filters: &[RpcFilterType],
    offset: usize,
) -> (key: Option<Pubkey>)
    ensures
        key.deep_view() == spl_token_key_filter(program_id@, filters.deep_view(), offset),
{
    if !is_known_spl_token_id(program_id) {
        return None;
    }
    let mut data_size_filter: Option<u64> = None;
    let mut key: Option<Pubkey> = None;
    for i in 0..filters.len()
        invariant
            data_size_filter == last_data_size(filters.deep_view().take(i as int)),
            key.deep_view() == last_key_at(filters.deep_view().take(i as int), offset),
    {
        let filter = &filters[i];
        match data_size_of(filter) {
            Some(size) => {
                data_size_filter = Some(size);
            },
            None => {},
        }
        match key_of(filter, offset) {
            Some(found) => {
                key = Some(found);
            },
            None => {},
        }
        proof {
            let seen = filters.deep_view().take(i as int + 1);
            assert(seen.drop_last() =~= filters.deep_view().take(i as int));
            assert(seen.last() == filter@);
        }
    }
    assert(filters.deep_view().take(filters.len() as int) =~= filters.deep_view());
    if data_size_filter == Some(token_account_packed_len() as u64) {
        key
    } else {
        None
    }
}

/// The owner whose token accounts hold all that the filters select; `None` where the filters
/// do not say so. Only filters with decoded bytes are looked at.
pub fn get_spl_token_owner_filter(
    program_id: &Pubkey,
    filters: &[RpcFilterType],
) -> (owner: Option<Pubkey>)
    ensures
        owner.deep_view() == spl_token_key_filter(
            program_id@,
            filters.deep_view(),
            SPL_TOKEN_ACCOUNT_OWNER_OFFSET,
        ),
{
    get_spl_token_key_filter(program_id, filters, SPL_TOKEN_ACCOUNT_OWNER_OFFSET)
}

/// The mint whose token accounts hold all that the filters select; `None` where the filters
/// do not say so. Only filters with decoded bytes are looked at.
pub fn get_spl_token_mint_filter(
    program_id: &Pubkey,
    filters: &[RpcFilterType],
) -> (mint: Option<Pubkey>)
    ensures
        mint.deep_view() == spl_token_key_filter(
            program_id@,
            filters.deep_view(),
            SPL_TOKEN_ACCOUNT_MINT_OFFSET,
        ),
{
    get_spl_token_key_filter(program_id, filters, SPL_TOKEN_ACCOUNT_MINT_OFFSET)
}

/// Whether data passes a filter.
pub open spec fn filter_matches(filter: FilterView, data: Seq<u8>) -> bool {
    match filter {
        FilterView::DataSize(size) => data.len() == size,
        FilterView::Compare(compare) => compare_finds(compare, data),
    }
}

/// Whether data passes every filter.
pub open spec fn all_match(filters: Seq<FilterView>, data: Seq<u8>) -> bool {
    forall|i: int| 0 <= i < filters.len() ==> filter_matches(#[trigger] filters[i], data)
}

/// Whether a program owns an account whose data passes every filter.
pub open spec fn selects(
    program_id: Seq<u8>,
    filters: Seq<FilterView>,
    account: AccountView,
) -> bool {
    account.owner == program_id && all_match(filters, account.data)
}

/// The accounts of a program that pass every filter, in their order.
pub open spec fn selected(
    program_id: Seq<u8>,
    filters: Seq<FilterView>,
    accounts: Seq<AccountView>,
) -> Seq<AccountView> {
    accounts.filter(|account: AccountView| selects(program_id, filters, account))
}

/// An account as it is answered beside its address.
pub open spec fn keyed_account(
    account: AccountView,
    encoding: UiAccountEncoding,
    slice: Option<UiDataSliceConfig>,
) -> KeyedAccountView {
    KeyedAccountView {
        pubkey: base58_text(account.pubkey),
        account: ui_account(account.pubkey, account, encoding, None, slice),
    }
}

/// Whether some account is too large for the encoding that is asked for.
pub open spec fn any_base58_refused(
    accounts: Seq<AccountView>,
    encoding: UiAccountEncoding,
) -> bool {
    exists|i: int| 0 <= i < accounts.len() && base58_refused(#[trigger] accounts[i], encoding)
}

/// The outcome of a scan of accounts: the selected accounts, or the message of why they
/// cannot be answered.
pub open spec fn scan(
    config: Option<RpcAccountInfoConfig>,
    filters: Seq<FilterView>,
    accounts: Seq<AccountView>,
    program_id: Seq<u8>,
) -> Result<Seq<KeyedAccountView>, Seq<char>> {
    let encoding = requested_encoding(config);
    let slice = requested_slice(config);
    let found = selected(program_id, filters, accounts);
    if slice_refused(encoding, slice is Some) {
        Err(answer_scan_message(slice_error()))
    } else if any_base58_refused(found, encoding) {
        Err(answer_scan_message(base58_size_error()))
    } else {
        Ok(found.map_values(|account: AccountView| keyed_account(account, encoding, slice)))
    }
}

/// Whether a scan runs to its end: unless it is refused at once, every filter decodes and
/// every selected account can be written.
pub open spec fn scan_runs(
    config: Option<RpcAccountInfoConfig>,
    filters: Seq<FilterView>,
    accounts: Seq<AccountView>,
    program_id: Seq<u8>,
) -> bool {
    let encoding = requested_encoding(config);
    slice_refused(encoding, requested_slice(config) is Some) || {
        &&& all_decodable(filters)
        &&& forall|i: int|
            0 <= i < accounts.len() && selects(program_id, filters, #[trigger] accounts[i])
                ==> !unencodable(accounts[i].pubkey, accounts[i], encoding)
    }
}

/// Data passes a filter if and only if it passes the filter with its bytes decoded.
pub proof fn lemma_optimized_filter_matches(filter: FilterView, data: Seq<u8>)
    ensures
        filter_matches(optimized(filter), data) == filter_matches(filter, data),
{
}

/// Data passes filters if and only if it passes the filters with their bytes decoded.
pub proof fn lemma_optimized_filters_match(filters: Seq<FilterView>, data: Seq<u8>)
    ensures
        all_match(all_optimized(filters), data) == all_match(filters, data),
{
    let decoded = all_optimized(filters);
    assert forall|i: int| 0 <= i < filters.len() implies filter_matches(#[trigger] decoded[i], data)
        == filter_matches(filters[i], data) by {
        lemma_optimized_filter_matches(filters[i], data);
    }
    if all_match(decoded, data) {
        assert forall|i: int| 0 <= i < filters.len() implies filter_matches(
            #[trigger] filters[i],
            data,
        ) by {
            assert(filter_matches(decoded[i], data));
        }
    }
}

/// Whether data passes a filter.
fn matches_filter(filter: &RpcFilterType, data: &[u8]) -> (b: bool)
    ensures
        b == filter_matches(filter@, data@),
{
    match filter {
        RpcFilterType::DataSize(size) => has_size(data, *size),
        RpcFilterType::Memcmp(compare) => bytes_match(compare, data),
    }
}

/// Whether data has a number of bytes.
fn has_size(data: &[u8], size: u64) -> (b: bool)
    ensures
        b == (data@.len() == size),
{
    data.len() as u64 == size
}

/// Whether a program owns an account whose data passes every filter.
fn is_selected(
    program_id: &Pubkey,
    filters: &Vec<RpcFilterType>,
    account: &DbAccountInfo,
) -> (b: bool)
    ensures
        b == selects(program_id@, filters.deep_view(), account@),
{
    if !account.owner.same(program_id) {
        return false;
    }
    for i in 0..filters.len()
        invariant
            forall|j: int|
                0 <= j < i ==> filter_matches(#[trigger] filters.deep_view()[j], account.data@),
    {
        assert(filters.deep_view()[i as int] == filters@[i as int]@);
        if !matches_filter(&filters[i], account.data.as_slice()) {
            return false;
        }
    }
    true
}

/// The selected among the first accounts, one account further.
proof fn lemma_selected_step(
    program_id: Seq<u8>,
    filters: Seq<FilterView>,
    accounts: Seq<AccountView>,
    i: int,
)
    requires
        0 <= i < accounts.len(),
    ensures
        selected(program_id, filters, accounts.take(i + 1)) == if selects(
            program_id,
            filters,
            accounts[i],
        ) {
            selected(program_id, filters, accounts.take(i)).push(accounts[i])
        } else {
            selected(program_id, filters, accounts.take(i))
        },
{
    reveal(Seq::filter);
    assert(accounts.take(i + 1).drop_last() =~= accounts.take(i));
}

/// Answers the accounts of a program that pass every filter. The text of each address that is
/// answered decodes to the address.
pub fn filter_accounts(
    config: Option<RpcAccountInfoConfig>,
    filters: Vec<RpcFilterType>,
    accounts: Vec<DbAccountInfo>,
    program_id: &Pubkey,
) -> (result: Result<Vec<RpcKeyedAccount>, RpcCustomError>)
    requires
        scan_runs(config, filters.deep_view(), accounts.deep_view(), program_id@),
    ensures
        scan_outcome(result) == scan(
            config,
            filters.deep_view(),
            accounts.deep_view(),
            program_id@,
        ),
        result matches Ok(found) ==> forall|i: int|
            0 <= i < found.len() ==> base58_bytes(#[trigger] found@[i].pubkey@) == Some(
                selected(program_id@, filters.deep_view(), accounts.deep_view())[i].pubkey,
            ),
{
    let ghost asked = filters.deep_view();
    let ghost stored = accounts.deep_view();
    let mut keyed_accounts: Vec<RpcKeyedAccount> = Vec::new();
    let (encoding, data_slice) = encoding_and_slice(config);
    match check_slice_and_encoding(&encoding, data_slice.is_some()) {
        Ok(_) => {},
        Err(error) => {
            return Err(rpc_custom_error_from_json_rpc_error(error));
        },
    }
    let mut decoded = filters;
    optimize_filters(&mut decoded);
    let ghost key = |account: AccountView| keyed_account(account, encoding, data_slice);
    proof {
        reveal(Seq::filter);
        assert(selected(program_id@, asked, stored.take(0)) =~= Seq::<AccountView>::empty());
        assert(keyed_accounts.deep_view() =~= selected(
            program_id@,
            asked,
            stored.take(0),
        ).map_values(key));
    }
    #[verifier::loop_isolation(false)]
    for i in 0..accounts.len()
        invariant
            keyed_accounts.deep_view() == selected(
                program_id@,
                asked,
                stored.take(i as int),
            ).map_values(key),
            !any_base58_refused(selected(program_id@, asked, stored.take(i as int)), encoding),
            forall|j: int|
                0 <= j < keyed_accounts.len() ==> base58_bytes(
                    #[trigger] keyed_accounts@[j].pubkey@,
                ) == Some(selected(program_id@, asked, stored.take(i as int))[j].pubkey),
    {
        let account = &accounts[i];
        let ghost so_far = selected(program_id@, asked, stored.take(i as int));
        let ghost answered = keyed_accounts.deep_view();
        proof {
            assert(stored[i as int] == account@);
            lemma_optimized_filters_match(asked, account@.data);
            lemma_selected_step(program_id@, asked, stored, i as int);
        }
        if is_selected(program_id, &decoded, account) {
            let pubkey = pubkey_to_string(&account.pubkey);
            match encode_account(account, &account.pubkey, encoding, data_slice) {
                Ok(ui) => {
                    let keyed = RpcKeyedAccount { pubkey, account: ui };
                    keyed_accounts.push(keyed);
                    proof {
                        assert(keyed_accounts.deep_view() =~= answered.push(keyed@));
                        assert(so_far.push(account@).map_values(key) =~= so_far.map_values(
                            key,
                        ).push(keyed@));
                        let now = so_far.push(account@);
                        assert forall|j: int| 0 <= j < now.len() implies !base58_refused(
                            #[trigger] now[j],
                            encoding,
                        ) by {
                            if j < so_far.len() {
                                assert(now[j] == so_far[j]);
                            }
                        }
                    }
                },
                Err(error) => {
                    proof {
                        let picks = |a: AccountView| selects(program_id@, asked, a);
                        let found = selected(program_id@, asked, stored);
                        stored.lemma_filter_contains(picks, i as int);
                        let at = choose|j: int| 0 <= j < found.len() && found[j] == stored[i as int];
                        assert(base58_refused(found[at], encoding));
                    }
                    return Err(rpc_custom_error_from_json_rpc_error(error));
                },
            }
        }
    }
    assert(stored.take(accounts.len() as int) =~= stored);
    Ok(keyed_accounts)
}

/// Whether a scan runs to its end.
pub fn can_filter_accounts(
    config: Option<RpcAccountInfoConfig>,
    filters: &Vec<RpcFilterType>,
    accounts: &Vec<DbAccountInfo>,
    program_id: &Pubkey,
) -> (b: bool)
    ensures
        b == scan_runs(config, filters.deep_view(), accounts.deep_view(), program_id@),
{
    let (encoding, data_slice) = encoding_and_slice(config);
    if check_slice_and_encoding(&encoding, data_slice.is_some()).is_err() {
        return true;
    }
    if !filters_decode(filters) {
        return false;
    }
    #[verifier::loop_isolation(false)]
    for i in 0..accounts.len()
        invariant
            forall|j: int|
                0 <= j < i && selects(
                    program_id@,
                    filters.deep_view(),
                    #[trigger] accounts.deep_view()[j],
                ) ==> !unencodable(
                    accounts.deep_view()[j].pubkey,
                    accounts.deep_view()[j],
                    encoding,
                ),
    {
        let account = &accounts[i];
        assert(accounts.deep_view()[i as int] == account@);
        if is_selected(program_id, filters, account) && is_unencodable(
            &account.pubkey,
            account,
            encoding,
        ) {
            return false;
        }
    }
    true
}

/// Answers the accounts of a program that pass every filter; `None` where the scan does not
/// run to its end.
pub fn try_filter_accounts(
    config: Option<RpcAccountInfoConfig>,
    filters: Vec<RpcFilterType>,
    accounts: Vec<DbAccountInfo>,
    program_id: &Pubkey,
) -> (result: Option<Result<Vec<RpcKeyedAccount>, RpcCustomError>>)
    ensures
        result is Some == scan_runs(
            config,
            filters.deep_view(),
            accounts.deep_view(),
            program_id@,
        ),
        result matches Some(result) ==> scan_outcome(result) == scan(
            config,
            filters.deep_view(),
            accounts.deep_view(),
            program_id@,
        ),
{
    if can_filter_accounts(config, &filters, &accounts, program_id) {
        Some(filter_accounts(config, filters, accounts, program_id))
    } else {
        None
    }
}

} // verus!
