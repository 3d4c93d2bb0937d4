//! What one answered account holds of the account in the database.
use crate::account::{base58_refused, ui_account};
use crate::outside::{
    base58_data, base58_text, base64_text, le_u64, mint_decimals, native_mint_id, parsed_account,
    parsed_data, sliced, slot_history_id, spl_token_id, sysvar_id,
    token_account_mint, unencodable, zstd_data, zstd_frame,
};
use crate::types::{
    AccountView, ParsedAccountView, UiAccountDataView, UiAccountEncoding, UiDataSliceConfig,
};
use vstd::prelude::*;

verus! {

/// An answered account has the balance, the owner, the executable flag and the rent epoch of the
/// account, whatever is asked for.
pub proof fn law_answered_account_keeps_the_account(
    pubkey: Seq<u8>,
    account: AccountView,
    encoding: UiAccountEncoding,
    decimals: Option<u8>,
    slice: Option<UiDataSliceConfig>,
)
    ensures
        ({
            let ui = ui_account(pubkey, account, encoding, decimals, slice);
            &&& ui.lamports == account.lamports
            &&& ui.executable == account.executable
            &&& ui.rent_epoch == account.rent_epoch
            &&& ui.owner == base58_text(account.owner)
        }),
{
}

/// A slice is the part of the data that begins at its offset and is as long as its length, as far
/// as there is data; without a slice it is all of the data.
pub proof fn law_slice_is_a_part_of_the_data(data: Seq<u8>, slice: UiDataSliceConfig)
    ensures
        sliced(data, None) == data,
        ({
            let part = sliced(data, Some(slice));
            &&& slice.offset >= data.len() ==> part.len() == 0
            &&& slice.offset <= data.len() < slice.offset + slice.length ==> part.len()
                == data.len() - slice.offset
            &&& slice.offset + slice.length <= data.len() ==> part.len() == slice.length
            &&& forall|i: int| 0 <= i < part.len() ==> #[trigger] part[i] == data[slice.offset + i]
        }),
{
}

/// Answered data is the requested slice in the requested encoding: in base 64, in base 58 up to
/// 128 bytes of data and a notice beyond, or compressed and then in base 64. Where it is not
/// compressed it is in base 64, and labelled so.
pub proof fn law_answered_data_is_the_slice(
    pubkey: Seq<u8>,
    account: AccountView,
    decimals: Option<u8>,
    slice: Option<UiDataSliceConfig>,
)
    ensures
        ({
            let part = sliced(account.data, slice);
            let binary = ui_account(pubkey, account, UiAccountEncoding::Binary, decimals, slice);
            let base58 = ui_account(pubkey, account, UiAccountEncoding::Base58, decimals, slice);
            let base64 = ui_account(pubkey, account, UiAccountEncoding::Base64, decimals, slice);
            let zstd = ui_account(pubkey, account, UiAccountEncoding::Base64Zstd, decimals, slice);
            let notice = "error: data too large for bs58 encoding"@;
            &&& account.data.len() <= 128 ==> {
                &&& binary.data == UiAccountDataView::LegacyBinary(base58_text(part))
                &&& base58.data == UiAccountDataView::Binary(
                    base58_text(part),
                    UiAccountEncoding::Base58,
                )
            }
            &&& account.data.len() > 128 ==> {
                &&& binary.data == UiAccountDataView::LegacyBinary(notice)
                &&& base58.data == UiAccountDataView::Binary(notice, UiAccountEncoding::Base58)
            }
            &&& base64.data == UiAccountDataView::Binary(
                base64_text(part),
                UiAccountEncoding::Base64,
            )
            &&& zstd_frame(part) matches Some(frame) ==> zstd.data == UiAccountDataView::Binary(
                base64_text(frame),
                UiAccountEncoding::Base64Zstd,
            )
            &&& zstd_frame(part) is None ==> zstd.data == base64.data
        }),
{
}

/// Slicing an answer is answering the slice: an account of at most 128 bytes that holds no more
/// than the slice is answered, unsliced, as the slice of the account is.
pub proof fn law_slicing_is_answering_the_slice(
    pubkey: Seq<u8>,
    account: AccountView,
    encoding: UiAccountEncoding,
    slice: Option<UiDataSliceConfig>,
)
    requires
        encoding !is JsonParsed,
        !base58_refused(account, encoding),
    ensures
        ui_account(pubkey, account, encoding, None, slice) == ui_account(
            pubkey,
            AccountView { data: sliced(account.data, slice), ..account },
            encoding,
            None,
            None,
        ),
{
}

/// A parsed account is what the decoder makes of all of its data, whatever the slice; where it
/// makes nothing of it, it is all of the data in base 64.
pub proof fn law_parsed_account_is_what_the_decoder_makes_of_it(
    pubkey: Seq<u8>,
    account: AccountView,
    decimals: Option<u8>,
    slice: Option<UiDataSliceConfig>,
)
    ensures
        ({
            let ui = ui_account(pubkey, account, UiAccountEncoding::JsonParsed, decimals, slice);
            match parsed_account(pubkey, account.owner, account.data, decimals, usize::BITS) {
                Some(parsed) => ui.data == UiAccountDataView::Json(parsed),
                None => ui.data == UiAccountDataView::Binary(
                    base64_text(account.data),
                    UiAccountEncoding::Base64,
                ),
            }
        }),
{
}

/// How encoded data stands in an answer.
pub proof fn law_encoded_data_is_labelled(
    data: Seq<u8>,
    slice: Option<UiDataSliceConfig>,
    frame: Seq<u8>,
    parsed: ParsedAccountView,
)
    ensures
        data.len() <= 128 ==> base58_data(data, slice) == base58_text(sliced(data, slice)),
        data.len() > 128 ==> base58_data(data, slice)
            == "error: data too large for bs58 encoding"@,
        zstd_data(Some(frame), data) == UiAccountDataView::Binary(
            base64_text(frame),
            UiAccountEncoding::Base64Zstd,
        ),
        zstd_data(None, data) == UiAccountDataView::Binary(
            base64_text(data),
            UiAccountEncoding::Base64,
        ),
        parsed_data(Some(parsed), data) == UiAccountDataView::Json(parsed),
        parsed_data(None, data) == UiAccountDataView::Binary(
            base64_text(data),
            UiAccountEncoding::Base64,
        ),
{
}

/// The mint of a token account is the first 32 of its 165 bytes, and data of another length names
/// none.
pub proof fn law_token_account_names_its_mint(data: Seq<u8>, mint: Seq<u8>)
    ensures
        token_account_mint(data) == Some(mint) <==> {
            &&& data.len() == 165
            &&& mint.len() == 32
            &&& forall|i: int| 0 <= i < 32 ==> #[trigger] mint[i] == data[i]
        },
{
    if data.len() == 165 && mint.len() == 32 && (forall|i: int|
        0 <= i < 32 ==> #[trigger] mint[i] == data[i]) {
        assert(mint =~= data.subrange(0, 32));
    }
}

/// The decimals of a mint are the byte at 44 of its 82 bytes. Data holds a mint where the flag at
/// 45 is set and each of the two tags, at 0 and at 46, is zero or one.
pub proof fn law_mint_holds_its_decimals(data: Seq<u8>, decimals: u8)
    ensures
        mint_decimals(data) == Some(decimals) <==> {
            &&& data.len() == 82
            &&& decimals == data[44]
            &&& data[45] == 1
            &&& data[0] <= 1 && data[1] == 0 && data[2] == 0 && data[3] == 0
            &&& data[46] <= 1 && data[47] == 0 && data[48] == 0 && data[49] == 0
        },
{
}

/// The addresses that the service knows.
pub proof fn law_known_addresses()
    ensures
        spl_token_id() == seq![
            6u8, 221, 246, 225, 215, 101, 161, 147, 217, 203, 225, 70, 206, 235, 121, 172,
            28, 180, 133, 237, 95, 91, 55, 145, 58, 140, 245, 133, 126, 255, 0, 169,
        ],
        native_mint_id() == seq![
            6u8, 155, 136, 87, 254, 171, 129, 132, 251, 104, 127, 99, 70, 24, 192, 53,
            218, 196, 57, 220, 26, 235, 59, 85, 152, 160, 240, 0, 0, 0, 0, 1,
        ],
        sysvar_id() == seq![
            6u8, 167, 213, 23, 24, 117, 247, 41, 199, 61, 147, 64, 143, 33, 97, 32,
            6, 126, 216, 140, 118, 224, 140, 40, 127, 193, 148, 96, 0, 0, 0, 0,
        ],
        slot_history_id() == seq![
            6u8, 167, 213, 23, 25, 47, 10, 175, 200, 117, 226, 225, 132, 87, 124, 80,
            105, 207, 200, 70, 73, 227, 235, 146, 120, 47, 149, 141, 72, 0, 0, 0,
        ],
{
}

/// Every account can be written but a parsed slot history, of the program of the system
/// variables, that tells of fewer than 1048576 slots.
pub proof fn law_every_other_account_can_be_written(
    pubkey: Seq<u8>,
    account: AccountView,
    encoding: UiAccountEncoding,
)
    ensures
        encoding !is JsonParsed ==> !unencodable(pubkey, account, encoding),
        account.owner != sysvar_id() ==> !unencodable(pubkey, account, encoding),
        pubkey != slot_history_id() ==> !unencodable(pubkey, account, encoding),
        account.data.len() < 17 || account.data[0] > 1 ==> !unencodable(
            pubkey,
            account,
            encoding,
        ),
        account.data[0] == 0 && le_u64(account.data, 1) != 0 ==> !unencodable(
            pubkey,
            account,
            encoding,
        ),
        ({
            let blocks = le_u64(account.data, 1);
            let bits = le_u64(account.data, 9 + 8 * blocks);
            account.data[0] == 1 && (blocks == 0 || account.data.len() < 25 + 8 * blocks || bits > 64
                * blocks || bits >= 1048576) ==> !unencodable(pubkey, account, encoding)
        }),
{
}

/// A parsed slot history that tells of fewer than 1048576 slots cannot be written: it has no
/// blocks and no bits, or as many blocks as it says, and bits that fit in them.
pub proof fn law_short_slot_histories_cannot_be_written(account: AccountView)
    requires
        account.owner == sysvar_id(),
    ensures
        ({
            let data = account.data;
            let blocks = le_u64(data, 1);
            let bits = le_u64(data, 9 + 8 * blocks);
            unencodable(slot_history_id(), account, UiAccountEncoding::JsonParsed) <==> {
                &&& data.len() >= 17
                &&& data[0] == 0 ==> blocks == 0
                &&& data[0] != 0 ==> {
                    &&& data[0] == 1
                    &&& 0 < blocks
                    &&& 25 + 8 * blocks <= data.len()
                    &&& bits <= 64 * blocks
                    &&& bits < 1048576
                }
            }
        }),
{
}

/// A number of eight bytes is the sum of its bytes, each two hundred and fifty-six times the one
/// before it.
pub proof fn law_numbers_are_read_from_the_least_byte(data: Seq<u8>, at: int)
    ensures
        le_u64(data, at) == data[at] + 256 * (data[at + 1] + 256 * (data[at + 2] + 256 * (data[at
            + 3] + 256 * (data[at + 4] + 256 * (data[at + 5] + 256 * (data[at + 6] + 256 * data[at
            + 7])))))),
{
}

} // verus!
