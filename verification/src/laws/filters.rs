//! Which accounts filters select, and what a scan answers of them.
use crate::account::base58_refused;
use crate::filter::{
    all_decodable, all_match, all_optimized, decodable, filter_matches, key_at, keyed_account,
    last_data_size, last_key_at, optimized, scan, scan_runs, selected, selects,
    spl_token_key_filter,
};
use crate::laws::{law_last_data_size_is_last, law_last_key_is_last};
use crate::outside::{
    base58_bytes, base58_text, base64_bytes, base64_text, compare_finds, filter_bytes,
    parsed_account, sliced, spl_token_id, sysvar_id, unencodable,
    zstd_frame,
};
use crate::types::{
    requested_encoding, requested_slice, AccountView, CompareView, EncodedBytesView, FilterView,
    KeyedAccountView, RpcAccountInfoConfig, UiAccountDataView, UiAccountEncoding,
};
use vstd::prelude::*;

verus! {

/// A filter on the data size passes exactly the data of that size.
pub proof fn law_size_filter_passes_its_size(size: u64, data: Seq<u8>)
    ensures
        filter_matches(FilterView::DataSize(size), data) <==> data.len() == size,
{
}

/// A comparison passes exactly the data that has its bytes, each in its place from the offset on.
/// One whose bytes do not decode passes nothing.
pub proof fn law_comparison_passes_its_bytes(compare: CompareView, data: Seq<u8>)
    ensures
        filter_matches(FilterView::Compare(compare), data) <==> {
            &&& filter_bytes(compare.bytes) matches Some(bytes)
            &&& compare.offset + bytes.len() <= data.len()
            &&& forall|i: int|
                0 <= i < bytes.len() ==> #[trigger] bytes[i] == data[compare.offset + i]
        },
        compare_finds(compare, data) == filter_matches(FilterView::Compare(compare), data),
{
    if let Some(bytes) = filter_bytes(compare.bytes) {
        if compare.offset + bytes.len() <= data.len() {
            let part = data.subrange(compare.offset as int, compare.offset + bytes.len());
            assert(forall|i: int| 0 <= i < bytes.len() ==> part[i] == data[compare.offset + i]);
            if forall|i: int|
                0 <= i < bytes.len() ==> #[trigger] bytes[i] == data[compare.offset + i] {
                assert(part =~= bytes);
            }
            if part == bytes {
                assert forall|i: int| 0 <= i < bytes.len() implies #[trigger] bytes[i]
                    == data[compare.offset + i] by {
                    assert(part[i] == bytes[i]);
                }
            }
        }
    }
}

/// The bytes of a comparison are what its text stands for, or the bytes themselves.
pub proof fn law_bytes_of_a_comparison(text: Seq<char>, bytes: Seq<u8>)
    ensures
        filter_bytes(EncodedBytesView::Binary(text)) == base58_bytes(text),
        filter_bytes(EncodedBytesView::Base58(text)) == base58_bytes(text),
        filter_bytes(EncodedBytesView::Base64(text)) == base64_bytes(text),
        filter_bytes(EncodedBytesView::Bytes(bytes)) == Some(bytes),
{
}

/// Decoding a filter keeps its size, its offset, its encoding and the bytes that it looks for;
/// text that does not decode is kept.
pub proof fn law_decoding_keeps_the_filter(compare: CompareView, size: u64)
    ensures
        optimized(FilterView::DataSize(size)) == FilterView::DataSize(size),
        decodable(FilterView::DataSize(size)),
        decodable(FilterView::Compare(compare)) <==> filter_bytes(compare.bytes) is Some,
        optimized(FilterView::Compare(compare)) matches FilterView::Compare(decoded) && {
            &&& decoded.offset == compare.offset
            &&& decoded.encoding == compare.encoding
            &&& filter_bytes(decoded.bytes) == filter_bytes(compare.bytes)
            &&& filter_bytes(compare.bytes) is None ==> decoded.bytes == compare.bytes
        },
{
}

/// Decoding filters decodes each in its place.
pub proof fn law_filters_are_decoded_in_place(filters: Seq<FilterView>, i: int)
    requires
        0 <= i < filters.len(),
    ensures
        all_optimized(filters).len() == filters.len(),
        all_optimized(filters)[i] == optimized(filters[i]),
        all_decodable(filters) ==> decodable(filters[i]),
        all_decodable(filters) <==> forall|j: int|
            0 <= j < filters.len() ==> decodable(#[trigger] filters[j]),
{
}

/// An account is selected if the program owns it and it has every size and every run of bytes
/// that the filters ask for, and not otherwise.
pub proof fn law_selected_accounts_pass_every_filter(
    program_id: Seq<u8>,
    filters: Seq<FilterView>,
    account: AccountView,
)
    ensures
        selects(program_id, filters, account) <==> {
            &&& account.owner == program_id
            &&& forall|i: int|
                0 <= i < filters.len() ==> match #[trigger] filters[i] {
                    FilterView::DataSize(size) => account.data.len() == size,
                    FilterView::Compare(compare) => {
                        &&& filter_bytes(compare.bytes) matches Some(bytes)
                        &&& compare.offset + bytes.len() <= account.data.len()
                        &&& forall|j: int|
                            0 <= j < bytes.len() ==> #[trigger] bytes[j] == account.data[compare.offset
                                + j]
                    },
                }
        },
{
    assert forall|i: int| 0 <= i < filters.len() implies filter_matches(
        #[trigger] filters[i],
        account.data,
    ) == match filters[i] {
        FilterView::DataSize(size) => account.data.len() == size,
        FilterView::Compare(compare) => {
            &&& filter_bytes(compare.bytes) matches Some(bytes)
            &&& compare.offset + bytes.len() <= account.data.len()
            &&& forall|j: int|
                0 <= j < bytes.len() ==> #[trigger] bytes[j] == account.data[compare.offset + j]
        },
    } by {
        if let FilterView::Compare(compare) = filters[i] {
            law_comparison_passes_its_bytes(compare, account.data);
        }
    }
    assert(all_match(filters, account.data) == forall|i: int|
        0 <= i < filters.len() ==> filter_matches(#[trigger] filters[i], account.data));
}

/// More filters select no more accounts, and filters together select what each of two parts of
/// them selects.
pub proof fn law_filters_narrow(
    program_id: Seq<u8>,
    some: Seq<FilterView>,
    more: Seq<FilterView>,
    account: AccountView,
)
    ensures
        selects(program_id, some + more, account) <==> selects(program_id, some, account)
            && selects(program_id, more, account),
{
    let all = some + more;
    if all_match(all, account.data) {
        assert forall|i: int| 0 <= i < some.len() implies filter_matches(
            #[trigger] some[i],
            account.data,
        ) by {
            assert(all[i] == some[i]);
        }
        assert forall|i: int| 0 <= i < more.len() implies filter_matches(
            #[trigger] more[i],
            account.data,
        ) by {
            assert(all[some.len() + i] == more[i]);
        }
    }
    if all_match(some, account.data) && all_match(more, account.data) {
        assert forall|i: int| 0 <= i < all.len() implies filter_matches(
            #[trigger] all[i],
            account.data,
        ) by {
            if i < some.len() {
                assert(all[i] == some[i]);
            } else {
                assert(all[i] == more[i - some.len()]);
            }
        }
    }
}

/// Where the accounts that a choice takes stand among all.
proof fn lemma_places(accounts: Seq<AccountView>, picks: spec_fn(AccountView) -> bool) -> (places:
    Seq<int>)
    ensures
        places.len() == accounts.filter(picks).len(),
        forall|i: int|
            0 <= i < places.len() ==> {
                &&& 0 <= #[trigger] places[i] < accounts.len()
                &&& accounts[places[i]] == accounts.filter(picks)[i]
            },
        forall|i: int, j: int| 0 <= i < j < places.len() ==> places[i] < places[j],
        forall|k: int|
            0 <= k < accounts.len() ==> (places.contains(k) <==> picks(#[trigger] accounts[k])),
    decreases accounts.len(),
{
    reveal(Seq::filter);
    if accounts.len() == 0 {
        Seq::empty()
    } else {
        let rest = accounts.drop_last();
        let before = lemma_places(rest, picks);
        let last = accounts.len() - 1;
        let places = if picks(accounts.last()) {
            before.push(last)
        } else {
            before
        };
        assert forall|i: int| 0 <= i < places.len() implies {
            &&& 0 <= #[trigger] places[i] < accounts.len()
            &&& accounts[places[i]] == accounts.filter(picks)[i]
        } by {
            if i < before.len() {
                assert(places[i] == before[i]);
                assert(rest[before[i]] == accounts[before[i]]);
            }
        }
        assert forall|k: int| 0 <= k < accounts.len() implies (places.contains(k) <==> picks(
            #[trigger] accounts[k],
        )) by {
            if before.contains(k) {
                let i = choose|i: int| 0 <= i < before.len() && before[i] == k;
                assert(places[i] == k);
                assert(rest[k] == accounts[k]);
            }
            if k == last && picks(accounts[k]) {
                assert(places[before.len() as int] == k);
            }
            if k < last {
                assert(rest[k] == accounts[k]);
            }
            if places.contains(k) {
                let i = choose|i: int| 0 <= i < places.len() && places[i] == k;
                if i < before.len() {
                    assert(before[i] == k);
                }
            }
        }
        places
    }
}

/// A scan answers the selected accounts, each once and in the order in which they are stored:
/// the proof names the places of the answered accounts. Each is answered under its address, with
/// its balance, its owner, its flag and its epoch, and with the requested slice of its data in
/// the requested encoding.
pub proof fn law_scan_answers_the_selected_accounts_in_order(
    config: Option<RpcAccountInfoConfig>,
    filters: Seq<FilterView>,
    accounts: Seq<AccountView>,
    program_id: Seq<u8>,
) -> (places: Seq<int>)
    ensures
        scan(config, filters, accounts, program_id) matches Ok(found) ==> {
            &&& found.len() == places.len()
            &&& forall|i: int, j: int| 0 <= i < j < places.len() ==> places[i] < places[j]
            &&& forall|k: int|
                0 <= k < accounts.len() ==> (places.contains(k) <==> selects(
                    program_id,
                    filters,
                    #[trigger] accounts[k],
                ))
            &&& forall|i: int|
                0 <= i < found.len() ==> {
                    let keyed = #[trigger] found[i];
                    let account = accounts[places[i]];
                    let part = sliced(account.data, requested_slice(config));
                    &&& 0 <= places[i] < accounts.len()
                    &&& keyed.pubkey == base58_text(account.pubkey)
                    &&& keyed.account.lamports == account.lamports
                    &&& keyed.account.owner == base58_text(account.owner)
                    &&& keyed.account.executable == account.executable
                    &&& keyed.account.rent_epoch == account.rent_epoch
                    &&& match requested_encoding(config) {
                        UiAccountEncoding::Binary => keyed.account.data
                            == UiAccountDataView::LegacyBinary(base58_text(part)),
                        UiAccountEncoding::Base58 => keyed.account.data
                            == UiAccountDataView::Binary(
                            base58_text(part),
                            UiAccountEncoding::Base58,
                        ),
                        UiAccountEncoding::Base64 => keyed.account.data
                            == UiAccountDataView::Binary(
                            base64_text(part),
                            UiAccountEncoding::Base64,
                        ),
                        UiAccountEncoding::Base64Zstd => match zstd_frame(part) {
                            Some(frame) => keyed.account.data == UiAccountDataView::Binary(
                                base64_text(frame),
                                UiAccountEncoding::Base64Zstd,
                            ),
                            None => keyed.account.data == UiAccountDataView::Binary(
                                base64_text(part),
                                UiAccountEncoding::Base64,
                            ),
                        },
                        UiAccountEncoding::JsonParsed => match parsed_account(
                            account.pubkey,
                            account.owner,
                            account.data,
                            None,
                            usize::BITS,
                        ) {
                            Some(parsed) => keyed.account.data == UiAccountDataView::Json(parsed),
                            None => keyed.account.data == UiAccountDataView::Binary(
                                base64_text(account.data),
                                UiAccountEncoding::Base64,
                            ),
                        },
                    }
                }
        },
{
    let encoding = requested_encoding(config);
    let slice = requested_slice(config);
    let picks = |account: AccountView| selects(program_id, filters, account);
    let chosen = selected(program_id, filters, accounts);
    let places = lemma_places(accounts, picks);
    if scan(config, filters, accounts, program_id) is Ok {
        let found = scan(config, filters, accounts, program_id)->Ok_0;
        assert forall|i: int| 0 <= i < found.len() implies #[trigger] found[i] == keyed_account(
            accounts[places[i]],
            encoding,
            slice,
        ) && accounts[places[i]].data == chosen[i].data && 0 <= places[i] < accounts.len() by {
            assert(accounts[places[i]] == chosen[i]);
        }
        assert forall|k: int| 0 <= k < accounts.len() implies (places.contains(k) <==> selects(
            program_id,
            filters,
            #[trigger] accounts[k],
        )) by {
            assert(picks(accounts[k]) == selects(program_id, filters, accounts[k]));
        }
        assert forall|i: int| 0 <= i < found.len() && (encoding is Binary || encoding
            is Base58) implies (#[trigger] chosen[i]).data.len() <= 128 by {
            assert(!base58_refused(chosen[i], encoding));
        }
    }
    places
}

/// A scan that slices parsed accounts, and one that asks for base 58 of a selected account of
/// more than 128 bytes, fails with a message that says so; every other scan answers.
pub proof fn law_scan_says_why_it_fails(
    config: Option<RpcAccountInfoConfig>,
    filters: Seq<FilterView>,
    accounts: Seq<AccountView>,
    program_id: Seq<u8>,
)
    ensures
        ({
            let encoding = requested_encoding(config);
            let of_slice = "Failed to convert the JSON rpc object. Error: ("@ + ("Invalid request"@
                + ": "@
                + "Sliced account data can only be encoded using binary (base 58) or base64 encoding."@)
                + ")"@;
            let of_size = "Failed to convert the JSON rpc object. Error: ("@ + (
            "Invalid request"@ + ": "@
                + "Encoded binary (base 58) data should be less than 128 bytes, please use Base64 encoding."@)
                + ")"@;
            let refused = encoding is JsonParsed && requested_slice(config) is Some;
            let large = (encoding is Binary || encoding is Base58) && exists|k: int|
                0 <= k < accounts.len() && selects(program_id, filters, #[trigger] accounts[k])
                    && accounts[k].data.len() > 128;
            &&& refused ==> scan(config, filters, accounts, program_id) == Err::<
                Seq<KeyedAccountView>,
                Seq<char>,
            >(of_slice)
            &&& large ==> scan(config, filters, accounts, program_id) == Err::<
                Seq<KeyedAccountView>,
                Seq<char>,
            >(of_size)
            &&& !refused && !large ==> scan(config, filters, accounts, program_id) is Ok
        }),
{
    let encoding = requested_encoding(config);
    let picks = |account: AccountView| selects(program_id, filters, account);
    let chosen = selected(program_id, filters, accounts);
    let places = lemma_places(accounts, picks);
    if encoding is Binary || encoding is Base58 {
        if exists|k: int|
            0 <= k < accounts.len() && selects(program_id, filters, #[trigger] accounts[k])
                && accounts[k].data.len() > 128 {
            let k = choose|k: int|
                0 <= k < accounts.len() && selects(program_id, filters, #[trigger] accounts[k])
                    && accounts[k].data.len() > 128;
            assert(picks(accounts[k]));
            assert(places.contains(k));
            let i = choose|i: int| 0 <= i < places.len() && places[i] == k;
            assert(chosen[i] == accounts[k]);
            assert(base58_refused(chosen[i], encoding));
        } else {
            assert forall|i: int| 0 <= i < chosen.len() implies !base58_refused(
                #[trigger] chosen[i],
                encoding,
            ) by {
                assert(places.contains(places[i]));
                assert(picks(accounts[places[i]]));
                assert(selects(program_id, filters, accounts[places[i]]));
            }
        }
    } else {
        assert forall|i: int| 0 <= i < chosen.len() implies !base58_refused(
            #[trigger] chosen[i],
            encoding,
        ) by {}
    }
}

/// A scan runs to its end unless a filter does not decode or a selected account is a parsed slot
/// history that cannot be written; a scan that is refused for its slice needs neither.
pub proof fn law_scan_runs_unless(
    config: Option<RpcAccountInfoConfig>,
    filters: Seq<FilterView>,
    accounts: Seq<AccountView>,
    program_id: Seq<u8>,
)
    ensures
        ({
            let encoding = requested_encoding(config);
            let refused = encoding is JsonParsed && requested_slice(config) is Some;
            let text = exists|i: int|
                0 <= i < filters.len() && ((#[trigger] filters[i]) matches FilterView::Compare(
                    compare,
                ) && filter_bytes(compare.bytes) is None);
            let history = exists|k: int|
                0 <= k < accounts.len() && selects(program_id, filters, #[trigger] accounts[k])
                    && unencodable(accounts[k].pubkey, accounts[k], encoding);
            scan_runs(config, filters, accounts, program_id) <==> refused || !(text || history)
        }),
        program_id != sysvar_id() && all_decodable(filters) ==> scan_runs(
            config,
            filters,
            accounts,
            program_id,
        ),
{
    if exists|i: int|
        0 <= i < filters.len() && ((#[trigger] filters[i]) matches FilterView::Compare(compare)
            && filter_bytes(compare.bytes) is None) {
        let i = choose|i: int|
            0 <= i < filters.len() && ((#[trigger] filters[i]) matches FilterView::Compare(compare)
                && filter_bytes(compare.bytes) is None);
        assert(!decodable(filters[i]));
    }
}

/// A filter names an address at an offset where it looks there for 32 decoded bytes.
pub proof fn law_decoded_bytes_name_an_address(filter: FilterView, offset: usize, key: Seq<u8>)
    ensures
        key_at(filter, offset) == Some(key) <==> {
            &&& filter matches FilterView::Compare(compare)
            &&& compare.offset == offset
            &&& compare.bytes == EncodedBytesView::Bytes(key)
            &&& key.len() == 32
        },
{
}

/// Filters name an owner, at 32, or a mint, at 0, where the program is the token program, the
/// last of the filters on the data size asks for 165 bytes, and the address is the last one that
/// a filter looks for there.
pub proof fn law_token_filters_name_the_last_address(
    program_id: Seq<u8>,
    filters: Seq<FilterView>,
    offset: usize,
    key: Seq<u8>,
)
    ensures
        spl_token_key_filter(program_id, filters, offset) == Some(key) <==> {
            &&& program_id == spl_token_id()
            &&& exists|s: int|
                {
                    &&& 0 <= s < filters.len()
                    &&& #[trigger] filters[s] == FilterView::DataSize(165)
                    &&& forall|j: int| s < j < filters.len() ==> #[trigger] filters[j] is Compare
                }
            &&& exists|k: int|
                {
                    &&& 0 <= k < filters.len()
                    &&& key_at(#[trigger] filters[k], offset) == Some(key)
                    &&& forall|j: int|
                        k < j < filters.len() ==> key_at(#[trigger] filters[j], offset) is None
                }
        },
{
    let s = law_last_data_size_is_last(filters);
    let k = law_last_key_is_last(filters, offset);
    if spl_token_key_filter(program_id, filters, offset) == Some(key) {
        assert(filters[s] == FilterView::DataSize(165));
        assert(key_at(filters[k], offset) == Some(key));
    }
    if exists|t: int|
        {
            &&& 0 <= t < filters.len()
            &&& #[trigger] filters[t] == FilterView::DataSize(165)
            &&& forall|j: int| t < j < filters.len() ==> #[trigger] filters[j] is Compare
        } {
        let t = choose|t: int|
            {
                &&& 0 <= t < filters.len()
                &&& #[trigger] filters[t] == FilterView::DataSize(165)
                &&& forall|j: int| t < j < filters.len() ==> #[trigger] filters[j] is Compare
            };
        assert(filters[t] is DataSize);
        if last_data_size(filters) is Some {
            assert(s == t) by {
                if s < t {
                    assert(filters[t] is Compare);
                }
                if t < s {
                    assert(filters[s] is Compare);
                }
            }
        }
    }
    if exists|t: int|
        {
            &&& 0 <= t < filters.len()
            &&& key_at(#[trigger] filters[t], offset) == Some(key)
            &&& forall|j: int| t < j < filters.len() ==> key_at(#[trigger] filters[j], offset) is None
        } {
        let t = choose|t: int|
            {
                &&& 0 <= t < filters.len()
                &&& key_at(#[trigger] filters[t], offset) == Some(key)
                &&& forall|j: int|
                    t < j < filters.len() ==> key_at(#[trigger] filters[j], offset) is None
            };
        if last_key_at(filters, offset) is Some {
            assert(k == t) by {
                if k < t {
                    assert(key_at(filters[t], offset) is None);
                }
                if t < k {
                    assert(key_at(filters[k], offset) is None);
                }
            }
        }
    }
}

} // verus!
