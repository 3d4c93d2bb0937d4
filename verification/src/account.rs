//! How one account is answered: which answers are refused, which accounts can be written,
//! and what an answered account holds.
use crate::error::{Error, ErrorView, INVALID_REQUEST};
use crate::outside::{
    base58_bytes, base58_data, base58_text, base64_text, encode_data, le_u64, parsed_account, parsed_data,
    pubkey_to_string, short_slot_history, slot_history_id, sliced, sysvar_id, unencodable,
    zstd_data, zstd_frame, MAX_BASE58_BYTES, SLOT_HISTORY_SLOTS,
};
use crate::types::{
    AccountView, DbAccountInfo, Pubkey, UiAccount, UiAccountDataView, UiAccountEncoding,
    UiAccountView, UiDataSliceConfig,
};
use vstd::prelude::*;

verus! {

/// Whether a data slice is asked of an encoding that cannot give one.
pub open spec fn slice_refused(encoding: UiAccountEncoding, data_slice_is_some: bool) -> bool {
    encoding == UiAccountEncoding::JsonParsed && data_slice_is_some
}

/// The error for a data slice that cannot be given.
pub open spec fn slice_error() -> ErrorView {
    ErrorView {
        code: INVALID_REQUEST,
        message:
            "Sliced account data can only be encoded using binary (base 58) or base64 encoding."@,
    }
}

/// Refuses a data slice of a parsed account.
pub fn check_slice_and_encoding(
    encoding: &UiAccountEncoding,
    data_slice_is_some: bool,
) -> (result: Result<(), Error>)
    ensures
        match result {
            Ok(_) => !slice_refused(*encoding, data_slice_is_some),
            Err(error) => slice_refused(*encoding, data_slice_is_some) && error@ == slice_error(),
        },
{
    match encoding {
        UiAccountEncoding::JsonParsed => {
            if data_slice_is_some {
                let message =
                    "Sliced account data can only be encoded using binary (base 58) or base64 encoding.".to_string();
                Err(Error { code: INVALID_REQUEST, message })
            } else {
                Ok(())
            }
        },
        UiAccountEncoding::Binary
        | UiAccountEncoding::Base58
        | UiAccountEncoding::Base64
        | UiAccountEncoding::Base64Zstd => Ok(()),
    }
}

/// The data of an account as it is answered.
pub open spec fn ui_data(
    pubkey: Seq<u8>,
    account: AccountView,
    encoding: UiAccountEncoding,
    decimals: Option<u8>,
    slice: Option<UiDataSliceConfig>,
) -> UiAccountDataView {
    let selected = sliced(account.data, slice);
    match encoding {
        UiAccountEncoding::Binary => UiAccountDataView::LegacyBinary(
            base58_data(account.data, slice),
        ),
        UiAccountEncoding::Base58 => UiAccountDataView::Binary(
            base58_data(account.data, slice),
            encoding,
        ),
        UiAccountEncoding::Base64 => UiAccountDataView::Binary(base64_text(selected), encoding),
        UiAccountEncoding::Base64Zstd => zstd_data(zstd_frame(selected), selected),
        UiAccountEncoding::JsonParsed => parsed_data(
            parsed_account(pubkey, account.owner, account.data, decimals, usize::BITS),
            account.data,
        ),
    }
}

/// An account as it is answered.
pub open spec fn ui_account(
    pubkey: Seq<u8>,
    account: AccountView,
    encoding: UiAccountEncoding,
    decimals: Option<u8>,
    slice: Option<UiDataSliceConfig>,
) -> UiAccountView {
    UiAccountView {
        lamports: account.lamports,
        data: ui_data(pubkey, account, encoding, decimals, slice),
        owner: base58_text(account.owner),
        executable: account.executable,
        rent_epoch: account.rent_epoch,
    }
}

/// Writes an account as it is answered. The text of its owner decodes to the owner.
pub fn encode_ui_account(
    pubkey: &Pubkey,
    account: &DbAccountInfo,
    encoding: UiAccountEncoding,
    decimals: Option<u8>,
    slice: Option<UiDataSliceConfig>,
) -> (ui: UiAccount)
    requires
        !unencodable(pubkey@, account@, encoding),
    ensures
        ui@ == ui_account(pubkey@, account@, encoding, decimals, slice),
        base58_bytes(ui.owner@) == Some(account.owner@),
        ui.lamports == account.lamports,
        ui.executable == account.executable,
        ui.rent_epoch == account.rent_epoch,
{
    UiAccount {
        lamports: account.lamports,
        data: encode_data(pubkey, account, encoding, decimals, slice),
        owner: pubkey_to_string(&account.owner),
        executable: account.executable,
        rent_epoch: account.rent_epoch,
    }
}

/// The error for an account that is too large for base 58.
pub open spec fn base58_size_error() -> ErrorView {
    ErrorView {
        code: INVALID_REQUEST,
        message:
            "Encoded binary (base 58) data should be less than 128 bytes, please use Base64 encoding."@,
    }
}

/// Whether an account is too large for the encoding that is asked for.
pub open spec fn base58_refused(account: AccountView, encoding: UiAccountEncoding) -> bool {
    &&& encoding == UiAccountEncoding::Binary || encoding == UiAccountEncoding::Base58
    &&& account.data.len() > MAX_BASE58_BYTES
}

/// Writes an account as it is answered, and refuses one that is too large for base 58.
pub fn encode_account(
    account: &DbAccountInfo,
    pubkey: &Pubkey,
    encoding: UiAccountEncoding,
    data_slice: Option<UiDataSliceConfig>,
) -> (result: Result<UiAccount, Error>)
    requires
        !unencodable(pubkey@, account@, encoding),
    ensures
        match result {
            Ok(ui) => {
                &&& !base58_refused(account@, encoding)
                &&& ui@ == ui_account(pubkey@, account@, encoding, None, data_slice)
                &&& ui.lamports == account.lamports
                &&& ui.executable == account.executable
                &&& ui.rent_epoch == account.rent_epoch
            },
            Err(error) => base58_refused(account@, encoding) && error@ == base58_size_error(),
        },
{
    if (encoding == UiAccountEncoding::Binary || encoding == UiAccountEncoding::Base58)
        && account.data.len() > MAX_BASE58_BYTES {
        let message =
            "Encoded binary (base 58) data should be less than 128 bytes, please use Base64 encoding.".to_string();
        Err(Error { code: INVALID_REQUEST, message })
    } else {
        Ok(encode_ui_account(pubkey, account, encoding, None, data_slice))
    }
}

/// Reads eight bytes as a number, the least significant first.
fn read_le_u64(data: &[u8], at: usize) -> (value: u64)
    requires
        at + 8 <= data@.len(),
    ensures
        value == le_u64(data@, at as int),
{
    data[at] as u64 + 0x100 * data[at + 1] as u64 + 0x1_0000 * data[at + 2] as u64 + 0x100_0000
        * data[at + 3] as u64 + 0x1_0000_0000 * data[at + 4] as u64 + 0x100_0000_0000 * data[at
        + 5] as u64 + 0x1_0000_0000_0000 * data[at + 6] as u64 + 0x100_0000_0000_0000 * data[at
        + 7] as u64
}

/// Whether the data reads as a slot history that is too short.
fn is_short_slot_history(data: &[u8]) -> (short: bool)
    ensures
        short == short_slot_history(data@),
{
    if data.len() < 17 {
        return false;
    }
    let blocks: u64 = read_le_u64(data, 1);
    if data[0] == 0 {
        return blocks == 0;
    }
    if data[0] != 1 || blocks == 0 || data.len() < 25 || blocks > ((data.len() - 25) / 8) as u64 {
        return false;
    }
    let bits: u64 = read_le_u64(data, 9 + 8 * blocks as usize);
    bits as u128 <= 64 * (blocks as u128) && bits < SLOT_HISTORY_SLOTS
}

/// Whether the encoder panics on an account.
pub fn is_unencodable(
    pubkey: &Pubkey,
    account: &DbAccountInfo,
    encoding: UiAccountEncoding,
) -> (b: bool)
    ensures
        b == unencodable(pubkey@, account@, encoding),
{
    let sysvar = Pubkey {
        bytes: [
            6u8, 167, 213, 23, 24, 117, 247, 41, 199, 61, 147, 64, 143, 33, 97, 32,
            6, 126, 216, 140, 118, 224, 140, 40, 127, 193, 148, 96, 0, 0, 0, 0,
        ],
    };
    let slot_history = Pubkey {
        bytes: [
            6u8, 167, 213, 23, 25, 47, 10, 175, 200, 117, 226, 225, 132, 87, 124, 80,
            105, 207, 200, 70, 73, 227, 235, 146, 120, 47, 149, 141, 72, 0, 0, 0,
        ],
    };
    assert(sysvar@ =~= sysvar_id());
    assert(slot_history@ =~= slot_history_id());
    encoding == UiAccountEncoding::JsonParsed && account.owner.same(&sysvar) && pubkey.same(
        &slot_history,
    ) && is_short_slot_history(account.data.as_slice())
}

} // verus!
