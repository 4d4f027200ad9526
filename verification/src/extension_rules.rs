//! What Token-2022 asks of the extension types of a new mint or token
//! account: which mint extensions may be combined, and how long the account
//! data must be. Extension types are given by their `u16` type tags.
use vstd::prelude::*;
use spl_token_2022_interface::extension::ExtensionType as SplExtensionType;
use spl_token_2022_interface::state::{Account as SplAccount, Mint as SplMint};
use crate::error::ProgramError;
use crate::layout::{account_len, mint_len, multisig_len};

verus! {

/// The highest type tag of Token-2022's extension types (`PermissionedBurn`);
/// every tag from 0 up to it names an extension type.
pub open spec fn max_extension_code() -> u16 {
    28
}

/// Every tag of `kinds` names a Token-2022 extension type.
pub open spec fn all_extension_codes(kinds: Seq<u16>) -> bool {
    forall|i: int| 0 <= i < kinds.len() ==> kinds[i] <= max_extension_code()
}

/// The code of `TokenError::InvalidExtensionCombination` as a custom program
/// error.
pub open spec fn invalid_extension_combination_code() -> u32 {
    51
}

/// Whether the mint extension types `kinds` form a combination that
/// Token-2022 refuses: a confidential transfer fee config without both a
/// transfer fee config and a confidential transfer mint, those two without a
/// confidential transfer fee config, a confidential mint-burn without a
/// confidential transfer mint, a scaled UI amount together with an
/// interest-bearing config, or a non-transferable confidential mint without
/// confidential mint-burn.
pub open spec fn invalid_mint_extension_combination(kinds: Seq<u16>) -> bool {
    let transfer_fee_config = kinds.contains(1u16);
    let confidential_transfer_mint = kinds.contains(4u16);
    let non_transferable = kinds.contains(9u16);
    let interest_bearing = kinds.contains(10u16);
    let confidential_transfer_fee_config = kinds.contains(16u16);
    let confidential_mint_burn = kinds.contains(24u16);
    let scaled_ui_amount = kinds.contains(25u16);
    ||| confidential_transfer_fee_config && !(transfer_fee_config && confidential_transfer_mint)
    ||| transfer_fee_config && confidential_transfer_mint && !confidential_transfer_fee_config
    ||| confidential_mint_burn && !confidential_transfer_mint
    ||| scaled_ui_amount && interest_bearing
    ||| non_transferable && confidential_transfer_mint && !confidential_mint_burn
}

/// Token-2022's verdict on the mint extension types `kinds`: a tag that
/// names no extension type is invalid account data, a refused combination is
/// `InvalidExtensionCombination`.
pub open spec fn mint_extension_combination(kinds: Seq<u16>) -> Result<(), ProgramError> {
    if !all_extension_codes(kinds) {
        Err(ProgramError::InvalidAccountData)
    } else if invalid_mint_extension_combination(kinds) {
        Err(ProgramError::Custom(invalid_extension_combination_code()))
    } else {
        Ok(())
    }
}

/// Converts each tag with `ExtensionType::try_from` (a tag that names no
/// extension type gives `InvalidAccountData`, as Token-2022 reads an unknown
/// tag from account data) and calls
/// `ExtensionType::check_for_invalid_mint_extension_combinations`, whose
/// `TokenError` becomes the custom program error of the same number. The
/// contract restates that function's five rules.
#[verifier::external_body]
pub(crate) fn check_mint_extension_combination(kinds: &Vec<u16>) -> (r: Result<(), ProgramError>)
    ensures
        r == mint_extension_combination(kinds@),
{
    match kinds.iter().map(|k| SplExtensionType::try_from(*k)).collect::<Result<Vec<_>, _>>() {
        Ok(types) => SplExtensionType::check_for_invalid_mint_extension_combinations(&types).map_err(
            |e| ProgramError::Custom(e as u32),
        ),
        Err(_) => Err(ProgramError::InvalidAccountData),
    }
}

/// The size of the value of the extension type with tag `k`, as laid out by
/// Token-2022 (`size_of` of its `#[repr(C)]` Pod struct); `None` for
/// `TokenMetadata`, whose length varies, and for tags that name no type.
pub open spec fn extension_value_len(k: u16) -> Option<nat> {
    if k == 0 {
        Some(0)  // Uninitialized
    } else if k == 1 {
        Some(108)  // TransferFeeConfig
    } else if k == 2 {
        Some(8)  // TransferFeeAmount
    } else if k == 3 {
        Some(32)  // MintCloseAuthority
    } else if k == 4 {
        Some(65)  // ConfidentialTransferMint
    } else if k == 5 {
        Some(295)  // ConfidentialTransferAccount
    } else if k == 6 {
        Some(1)  // DefaultAccountState
    } else if k == 7 {
        Some(0)  // ImmutableOwner
    } else if k == 8 {
        Some(1)  // MemoTransfer
    } else if k == 9 {
        Some(0)  // NonTransferable
    } else if k == 10 {
        Some(52)  // InterestBearingConfig
    } else if k == 11 {
        Some(1)  // CpiGuard
    } else if k == 12 {
        Some(32)  // PermanentDelegate
    } else if k == 13 {
        Some(0)  // NonTransferableAccount
    } else if k == 14 {
        Some(64)  // TransferHook
    } else if k == 15 {
        Some(1)  // TransferHookAccount
    } else if k == 16 {
        Some(129)  // ConfidentialTransferFeeConfig
    } else if k == 17 {
        Some(64)  // ConfidentialTransferFeeAmount
    } else if k == 18 {
        Some(64)  // MetadataPointer
    } else if k == 19 {
        None  // TokenMetadata
    } else if k == 20 {
        Some(64)  // GroupPointer
    } else if k == 21 {
        Some(80)  // TokenGroup
    } else if k == 22 {
        Some(64)  // GroupMemberPointer
    } else if k == 23 {
        Some(72)  // TokenGroupMember
    } else if k == 24 {
        Some(196)  // ConfidentialMintBurn
    } else if k == 25 {
        Some(56)  // ScaledUiAmount
    } else if k == 26 {
        Some(33)  // Pausable
    } else if k == 27 {
        Some(0)  // PausableAccount
    } else if k == 28 {
        Some(32)  // PermissionedBurn
    } else {
        None
    }
}

/// The TLV bytes of the distinct extension types of `kinds`: a 4-byte
/// header and the value for each type, a repeated type counted once; `None`
/// when one of them has no fixed length.
pub open spec fn distinct_tlv_len(kinds: Seq<u16>) -> Option<nat>
    decreases kinds.len(),
{
    if kinds.len() == 0 {
        Some(0)
    } else {
        let rest = kinds.drop_last();
        match distinct_tlv_len(rest) {
            None => None,
            Some(n) => if rest.contains(kinds.last()) {
                Some(n)
            } else {
                match extension_value_len(kinds.last()) {
                    None => None,
                    Some(v) => Some(n + 4 + v),
                }
            },
        }
    }
}

/// The account data length Token-2022 computes for the extension types
/// `kinds` over a base state of `base_len` bytes: an unknown tag is invalid
/// account data; no types give the base state alone; a variable-length type
/// is an invalid argument; otherwise the 165-byte base account, the
/// account-type byte and the distinct TLV entries (the sum saturating at
/// `usize::MAX`), two bytes more where that would equal the multisig length.
pub open spec fn token_2022_account_len(kinds: Seq<u16>, base_len: nat) -> Result<
    usize,
    ProgramError,
> {
    if !all_extension_codes(kinds) {
        Err(ProgramError::InvalidAccountData)
    } else if kinds.len() == 0 {
        Ok(base_len as usize)
    } else {
        match distinct_tlv_len(kinds) {
            None => Err(ProgramError::InvalidArgument),
            Some(n) => {
                let total = if account_len() + 1 + n > usize::MAX {
                    usize::MAX as int
                } else {
                    (account_len() + 1 + n) as int
                };
                if total == multisig_len() {
                    Ok((total + 2) as usize)
                } else {
                    Ok(total as usize)
                }
            },
        }
    }
}

/// Converts each tag with `ExtensionType::try_from` (an unknown tag gives
/// `InvalidAccountData`) and calls
/// `ExtensionType::try_calculate_account_len::<Mint>`, which accumulates the
/// TLV length of each distinct type (`TlvLenAccumulator`) and refuses a
/// variable-length type with `InvalidArgument`.
#[verifier::external_body]
pub(crate) fn token_2022_mint_account_len(kinds: &Vec<u16>) -> (r: Result<usize, ProgramError>)
    ensures
        r == token_2022_account_len(kinds@, mint_len()),
{
    match kinds.iter().map(|k| SplExtensionType::try_from(*k)).collect::<Result<Vec<_>, _>>() {
        Ok(types) => SplExtensionType::try_calculate_account_len::<SplMint>(&types).map_err(
            |e| ProgramError::from_code(u64::from(e)),
        ),
        Err(_) => Err(ProgramError::InvalidAccountData),
    }
}

/// Converts each tag with `ExtensionType::try_from` (an unknown tag gives
/// `InvalidAccountData`) and calls
/// `ExtensionType::try_calculate_account_len::<Account>`, as for mints.
#[verifier::external_body]
pub(crate) fn token_2022_token_account_len(kinds: &Vec<u16>) -> (r: Result<usize, ProgramError>)
    ensures
        r == token_2022_account_len(kinds@, account_len()),
{
    match kinds.iter().map(|k| SplExtensionType::try_from(*k)).collect::<Result<Vec<_>, _>>() {
        Ok(types) => SplExtensionType::try_calculate_account_len::<SplAccount>(&types).map_err(
            |e| ProgramError::from_code(u64::from(e)),
        ),
        Err(_) => Err(ProgramError::InvalidAccountData),
    }
}

} // verus!
