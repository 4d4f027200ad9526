//! Sizes and program addresses that the token programs define, read from
//! their crates.
use vstd::prelude::*;

verus! {

/// Length of the base state of a token account (SPL Token and Token-2022).
pub open spec fn account_len() -> nat {
    165
}

/// Length of the base state of a mint (SPL Token and Token-2022).
pub open spec fn mint_len() -> nat {
    82
}

/// Length of a multisig account (SPL Token and Token-2022).
pub open spec fn multisig_len() -> nat {
    355
}

/// Address of the Token-2022 program, `TokenzQdBNbLqP5VEhdkAS6EPFLC1PHnBqCXEpPxuEb`.
pub open spec fn token_2022_program_id() -> Seq<u8> {
    seq![
        6u8, 221, 246, 225, 238, 117, 143, 222, 24, 66, 93, 188, 228, 108, 205, 218, 182, 26, 252,
        77, 131, 185, 13, 39, 254, 189, 249, 40, 216, 161, 139, 252,
    ]
}

/// Address of the SPL Token program, `TokenkegQfeZyiNwAJbNbGKPFXCWuBvf9Ss623VQ5DA`.
pub open spec fn token_program_id() -> Seq<u8> {
    seq![
        6u8, 221, 246, 225, 215, 101, 161, 147, 217, 203, 225, 70, 206, 235, 121, 172, 28, 180, 133,
        237, 95, 91, 55, 145, 58, 140, 245, 133, 126, 255, 0, 169,
    ]
}

/// `pinocchio_token_2022::state::Account::BASE_LEN`: the size of the
/// `#[repr(C)]` base account struct, 32 + 32 + 8 + 4 + 32 + 1 + 4 + 8 + 8 + 4 + 32 bytes.
#[verifier::external_body]
pub(crate) fn t22_account_base_len() -> (n: usize)
    ensures
        n == account_len(),
{
    pinocchio_token_2022::state::Account::BASE_LEN
}

/// `pinocchio_token_2022::state::Mint::BASE_LEN`: the size of the `#[repr(C)]`
/// base mint struct, 4 + 32 + 8 + 1 + 1 + 4 + 32 bytes.
#[verifier::external_body]
pub(crate) fn t22_mint_base_len() -> (n: usize)
    ensures
        n == mint_len(),
{
    pinocchio_token_2022::state::Mint::BASE_LEN
}

/// `pinocchio_token_2022::state::Multisig::LEN`: 3 bytes of counters and flag,
/// then 11 signer addresses of 32 bytes.
#[verifier::external_body]
pub(crate) fn t22_multisig_len() -> (n: usize)
    ensures
        n == multisig_len(),
{
    pinocchio_token_2022::state::Multisig::LEN
}

/// `pinocchio_token::state::Account::LEN`: the size of the legacy token
/// account struct, the same 165-byte layout.
#[verifier::external_body]
pub(crate) fn legacy_account_len() -> (n: usize)
    ensures
        n == account_len(),
{
    pinocchio_token::state::Account::LEN
}

/// `pinocchio_token::state::Mint::LEN`: the size of the legacy mint struct,
/// the same 82-byte layout.
#[verifier::external_body]
pub(crate) fn legacy_mint_len() -> (n: usize)
    ensures
        n == mint_len(),
{
    pinocchio_token::state::Mint::LEN
}

/// The bytes of `pinocchio_token_2022::ID`, declared in that crate from the
/// base58 string `TokenzQdBNbLqP5VEhdkAS6EPFLC1PHnBqCXEpPxuEb`.
#[verifier::external_body]
pub(crate) fn t22_program_id() -> (id: [u8; 32])
    ensures
        id@ == token_2022_program_id(),
{
    pinocchio_token_2022::ID.to_bytes()
}

/// The bytes of `pinocchio_token::ID`, declared in that crate from the
/// base58 string `TokenkegQfeZyiNwAJbNbGKPFXCWuBvf9Ss623VQ5DA`.
#[verifier::external_body]
pub(crate) fn legacy_program_id() -> (id: [u8; 32])
    ensures
        id@ == token_program_id(),
{
    pinocchio_token::ID.to_bytes()
}

} // verus!
