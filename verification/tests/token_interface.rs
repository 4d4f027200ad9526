use pinocchio_token_interface::account::{AccountView, Mint, TokenAccount};
use pinocchio_token_interface::error::ProgramError;
use pinocchio_token_interface::extension::{
    get_all_extensions, ExtensionType, T22_ACCOUNT_TYPE_MINT, T22_ACCOUNT_TYPE_TOKEN_ACCOUNT,
};

const T22_BASE_LEN: usize = pinocchio_token_2022::state::Account::BASE_LEN;

fn make_account(owner: [u8; 32], data: Vec<u8>) -> AccountView {
    AccountView { owner, data, borrow_error: None }
}

fn t22_id() -> [u8; 32] {
    pinocchio_token_2022::ID.to_bytes()
}

fn token_id() -> [u8; 32] {
    pinocchio_token::ID.to_bytes()
}

// ── TokenAccount ──────────────────────────────────────────────────────────

#[test]
fn token_account_t22_base_len() {
    let data = vec![0u8; T22_BASE_LEN];
    let view = make_account(t22_id(), data);
    assert!(TokenAccount::from_account_view(&view).is_ok());
}

#[test]
fn token_account_t22_with_extensions() {
    let mut data = vec![0u8; T22_BASE_LEN + 2];
    data[T22_BASE_LEN] = T22_ACCOUNT_TYPE_TOKEN_ACCOUNT;
    let view = make_account(t22_id(), data);
    assert!(TokenAccount::from_account_view(&view).is_ok());
}

#[test]
fn token_account_t22_wrong_type() {
    let mut data = vec![0u8; T22_BASE_LEN + 2];
    data[T22_BASE_LEN] = T22_ACCOUNT_TYPE_MINT; // wrong for token account
    let view = make_account(t22_id(), data);
    assert_eq!(
        TokenAccount::from_account_view(&view).err().unwrap(),
        ProgramError::InvalidAccountData,
    );
}

#[test]
fn token_account_t22_multisig_length() {
    let mut data = vec![0u8; pinocchio_token_2022::state::Multisig::LEN];
    data[T22_BASE_LEN] = T22_ACCOUNT_TYPE_TOKEN_ACCOUNT;
    let view = make_account(t22_id(), data);
    assert_eq!(
        TokenAccount::from_account_view(&view).err().unwrap(),
        ProgramError::InvalidAccountData,
    );
}

#[test]
fn token_account_legacy_success() {
    let data = vec![0u8; pinocchio_token::state::Account::LEN];
    let view = make_account(token_id(), data);
    assert!(TokenAccount::from_account_view(&view).is_ok());
}

#[test]
fn token_account_legacy_wrong_length() {
    let data = vec![0u8; 100];
    let view = make_account(token_id(), data);
    assert_eq!(
        TokenAccount::from_account_view(&view).err().unwrap(),
        ProgramError::InvalidAccountData,
    );
}

#[test]
fn token_account_wrong_owner() {
    let data = vec![0u8; T22_BASE_LEN];
    let view = make_account([0u8; 32], data);
    assert_eq!(
        TokenAccount::from_account_view(&view).err().unwrap(),
        ProgramError::InvalidAccountOwner,
    );
}

// ── Mint ──────────────────────────────────────────────────────────────────

#[test]
fn mint_t22_base_len() {
    let data = vec![0u8; pinocchio_token_2022::state::Mint::BASE_LEN];
    let view = make_account(t22_id(), data);
    assert!(Mint::from_account_view(&view).is_ok());
}

#[test]
fn mint_t22_with_extensions() {
    let mut data = vec![0u8; T22_BASE_LEN + 2];
    data[T22_BASE_LEN] = T22_ACCOUNT_TYPE_MINT;
    let view = make_account(t22_id(), data);
    assert!(Mint::from_account_view(&view).is_ok());
}

#[test]
fn mint_t22_wrong_type() {
    let mut data = vec![0u8; T22_BASE_LEN + 2];
    data[T22_BASE_LEN] = T22_ACCOUNT_TYPE_TOKEN_ACCOUNT; // wrong for mint
    let view = make_account(t22_id(), data);
    assert_eq!(
        Mint::from_account_view(&view).err().unwrap(),
        ProgramError::InvalidAccountData,
    );
}

#[test]
fn mint_legacy_success() {
    let data = vec![0u8; pinocchio_token::state::Mint::LEN];
    let view = make_account(token_id(), data);
    assert!(Mint::from_account_view(&view).is_ok());
}

#[test]
fn mint_legacy_wrong_length() {
    let data = vec![0u8; 100];
    let view = make_account(token_id(), data);
    assert_eq!(
        Mint::from_account_view(&view).err().unwrap(),
        ProgramError::InvalidAccountData,
    );
}

#[test]
fn mint_wrong_owner() {
    let data = vec![0u8; pinocchio_token_2022::state::Mint::BASE_LEN];
    let view = make_account([0u8; 32], data);
    assert_eq!(
        Mint::from_account_view(&view).err().unwrap(),
        ProgramError::InvalidAccountOwner,
    );
}

// ── Extensions ────────────────────────────────────────────────────────────

pub const TEST_MINT_WITH_EXTENSIONS_SLICE: &[u8] = &[
    1, 0, 0, 0, 221, 76, 72, 108, 144, 248, 182, 240, 7, 195, 4, 239, 36, 129, 248, 5, 24, 107,
    232, 253, 95, 82, 172, 209, 2, 92, 183, 155, 159, 103, 255, 33, 133, 204, 6, 44, 35, 140,
    0, 0, 6, 1, 1, 0, 0, 0, 23, 133, 50, 97, 239, 106, 184, 83, 42, 103, 240, 83, 134, 90, 173,
    49, 41, 63, 207, 7, 207, 18, 10, 181, 185, 161, 87, 6, 84, 141, 192, 43, 0, 0, 0, 0, 0, 0,
    0, 0, 0, 0, 0, 0, 0, 0, 0, 0, 0, 0, 0, 0, 0, 0, 0, 0, 0, 0, 0, 0, 0, 0, 0, 0, 0, 0, 0, 0,
    0, 0, 0, 0, 0, 0, 0, 0, 0, 0, 0, 0, 0, 0, 0, 0, 0, 0, 0, 0, 0, 0, 0, 0, 0, 0, 0, 0, 0, 0,
    0, 0, 0, 0, 0, 0, 0, 0, 0, 0, 0, 0, 0, 0, 0, 0, 0, 1,
    /*                  MintCloseAuthority Extension                                      */
    3, 0, 32, 0, 23, 133, 50, 97, 239, 106, 184, 83, 42, 103, 240, 83, 134, 90, 173, 49, 41, 63,
    207, 7, 207, 18, 10, 181, 185, 161, 87, 6, 84, 141, 192, 43,
    /*                  PermanentDelegate Extension                                      */
    12, 0, 32, 0, 23, 133, 50, 97, 239, 106, 184, 83, 42, 103, 240, 83, 134, 90, 173, 49, 41,
    63, 207, 7, 207, 18, 10, 181, 185, 161, 87, 6, 84, 141, 192, 43,
    /*                  TransferFeeConfig Extension                                      */
    1, 0, 108, 0, 23, 133, 50, 97, 239, 106, 184, 83, 42, 103, 240, 83, 134, 90, 173, 49, 41,
    63, 207, 7, 207, 18, 10, 181, 185, 161, 87, 6, 84, 141, 192, 43, 23, 133, 50, 97, 239, 106,
    184, 83, 42, 103, 240, 83, 134, 90, 173, 49, 41, 63, 207, 7, 207, 18, 10, 181, 185, 161,
    87, 6, 84, 141, 192, 43, 0, 0, 0, 0, 0, 0, 0, 0, 93, 2, 0, 0, 0, 0, 0, 0, 0, 0, 0, 0, 0, 0,
    0, 0, 0, 0, 93, 2, 0, 0, 0, 0, 0, 0, 0, 0, 0, 0, 0, 0, 0, 0, 0, 0,
    /*                  ConfidentialTransferMint Extension                                      */
    4, 0, 65, 0, 23, 133, 50, 97, 239, 106, 184, 83, 42, 103, 240, 83, 134, 90, 173, 49, 41, 63,
    207, 7, 207, 18, 10, 181, 185, 161, 87, 6, 84, 141, 192, 43, 0, 0, 0, 0, 0, 0, 0, 0, 0, 0,
    0, 0, 0, 0, 0, 0, 0, 0, 0, 0, 0, 0, 0, 0, 0, 0, 0, 0, 0, 0, 0, 0, 0,
    /*                  ConfidentialTransferFeeConfig Extension                                      */
    16, 0, 129, 0, 23, 133, 50, 97, 239, 106, 184, 83, 42, 103, 240, 83, 134, 90, 173, 49, 41,
    63, 207, 7, 207, 18, 10, 181, 185, 161, 87, 6, 84, 141, 192, 43, 28, 55, 230, 67, 59, 115,
    4, 221, 130, 115, 122, 228, 13, 155, 139, 243, 196, 159, 91, 14, 108, 73, 168, 213, 51, 40,
    179, 229, 6, 144, 28, 87, 1, 0, 0, 0, 0, 0, 0, 0, 0, 0, 0, 0, 0, 0, 0, 0, 0, 0, 0, 0, 0, 0,
    0, 0, 0, 0, 0, 0, 0, 0, 0, 0, 0, 0, 0, 0, 0, 0, 0, 0, 0, 0, 0, 0, 0, 0, 0, 0, 0, 0, 0, 0,
    0, 0, 0, 0, 0, 0, 0, 0, 0, 0, 0, 0, 0,
    /*                  TransferHook Extension                                      */
    14, 0, 64, 0, 23, 133, 50, 97, 239, 106, 184, 83, 42, 103, 240, 83, 134, 90, 173, 49, 41,
    63, 207, 7, 207, 18, 10, 181, 185, 161, 87, 6, 84, 141, 192, 43, 0, 0, 0, 0, 0, 0, 0, 0, 0,
    0, 0, 0, 0, 0, 0, 0, 0, 0, 0, 0, 0, 0, 0, 0, 0, 0, 0, 0, 0, 0, 0, 0,
    /*                  MetadataPointer Extension                                      */
    18, 0, 64, 0, 23, 133, 50, 97, 239, 106, 184, 83, 42, 103, 240, 83, 134, 90, 173, 49, 41,
    63, 207, 7, 207, 18, 10, 181, 185, 161, 87, 6, 84, 141, 192, 43, 23, 146, 72, 59, 108, 138,
    42, 135, 183, 71, 29, 129, 79, 149, 145, 249, 57, 92, 132, 10, 156, 227, 217, 244, 213,
    186, 125, 58, 75, 138, 116, 158,
    /*                  TokenMetadata Extension                                      */
    19, 0, 174, 0, 23, 133, 50, 97, 239, 106, 184, 83, 42, 103, 240, 83, 134, 90, 173, 49, 41,
    63, 207, 7, 207, 18, 10, 181, 185, 161, 87, 6, 84, 141, 192, 43, 23, 146, 72, 59, 108, 138,
    42, 135, 183, 71, 29, 129, 79, 149, 145, 249, 57, 92, 132, 10, 156, 227, 217, 244, 213,
    186, 125, 58, 75, 138, 116, 158, 10, 0, 0, 0, 80, 97, 121, 80, 97, 108, 32, 85, 83, 68, 5,
    0, 0, 0, 80, 89, 85, 83, 68, 79, 0, 0, 0, 104, 116, 116, 112, 115, 58, 47, 47, 116, 111,
    107, 101, 110, 45, 109, 101, 116, 97, 100, 97, 116, 97, 46, 112, 97, 120, 111, 115, 46, 99,
    111, 109, 47, 112, 121, 117, 115, 100, 95, 109, 101, 116, 97, 100, 97, 116, 97, 47, 112,
    114, 111, 100, 47, 115, 111, 108, 97, 110, 97, 47, 112, 121, 117, 115, 100, 95, 109, 101,
    116, 97, 100, 97, 116, 97, 46, 106, 115, 111, 110, 0, 0, 0, 0,
    /*                  GroupPointer Extension                                      */
    20, 0, 64, 0, 1, 1, 1, 1, 1, 1, 1, 1, 1, 1, 1, 1, 1, 1, 1, 1, 1, 1, 1, 1, 1, 1, 1, 1, 1, 1,
    1, 1, 1, 1, 1, 1, 2, 2, 2, 2, 2, 2, 2, 2, 2, 2, 2, 2, 2, 2, 2, 2, 2, 2, 2, 2, 2, 2, 2, 2,
    2, 2, 2, 2, 2, 2, 2, 2,
    /*                  TokenGroup Extension                                      */
    21, 0, 80, 0, 1, 1, 1, 1, 1, 1, 1, 1, 1, 1, 1, 1, 1, 1, 1, 1, 1, 1, 1, 1, 1, 1, 1, 1, 1, 1,
    1, 1, 1, 1, 1, 1, 2, 2, 2, 2, 2, 2, 2, 2, 2, 2, 2, 2, 2, 2, 2, 2, 2, 2, 2, 2, 2, 2, 2, 2,
    2, 2, 2, 2, 2, 2, 2, 2, 1, 0, 0, 0, 0, 0, 0, 0, 2, 0, 0, 0, 0, 0, 0, 0,
];

#[test]
fn test_get_all_extensions_for_mint() {
    let extension_types = get_all_extensions(TEST_MINT_WITH_EXTENSIONS_SLICE).unwrap();
    assert_eq!(
        extension_types,
        vec![
            ExtensionType::MintCloseAuthority,
            ExtensionType::PermanentDelegate,
            ExtensionType::TransferFeeConfig,
            ExtensionType::ConfidentialTransferMint,
            ExtensionType::ConfidentialTransferFeeConfig,
            ExtensionType::TransferHook,
            ExtensionType::MetadataPointer,
            ExtensionType::TokenMetadata,
            ExtensionType::GroupPointer,
            ExtensionType::TokenGroup,
        ]
    );
}

#[test]
fn test_get_all_extensions_no_extensions() {
    let data = vec![0u8; T22_BASE_LEN + 1];
    assert_eq!(get_all_extensions(&data).unwrap(), vec![]);
}

#[test]
fn test_get_all_extensions_wrong_account_type() {
    let base = T22_BASE_LEN;
    let mut data = vec![0u8; base + 2];
    data[base] = 0; // Uninitialized AccountType
    assert_eq!(
        get_all_extensions(&data).err().unwrap(),
        ProgramError::InvalidAccountData,
    );
}
