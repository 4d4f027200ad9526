//! The packed byte layouts of token accounts and mints, written and read
//! through the Token-2022 interface crate's `Pack` implementations.
use vstd::prelude::*;
use vstd::bytes::{lemma_auto_spec_u64_to_from_le_bytes, spec_u64_to_le_bytes};
use pinocchio::Address;
use solana_program_pack::Pack;
use spl_token_2022_interface::state::{Account as SplAccount, AccountState as SplAccountState, Mint as SplMint};
use crate::account::{AccountState, account_state_byte};
use crate::error::ProgramError;
use crate::layout::{account_len, mint_len};

verus! {

/// The fields of a token account.
#[derive(Clone, Copy, Debug)]
pub struct TokenAccountState {
    pub mint: [u8; 32],
    pub owner: [u8; 32],
    pub amount: u64,
    pub delegate: Option<[u8; 32]>,
    pub state: AccountState,
    pub is_native: Option<u64>,
    pub delegated_amount: u64,
    pub close_authority: Option<[u8; 32]>,
}

/// The fields of a mint.
#[derive(Clone, Copy, Debug)]
pub struct MintState {
    pub mint_authority: Option<[u8; 32]>,
    pub supply: u64,
    pub decimals: u8,
    pub is_initialized: bool,
    pub freeze_authority: Option<[u8; 32]>,
}

/// An optional address as 36 bytes: a 4-byte tag `[1, 0, 0, 0]` and the
/// address, or the tag `[0, 0, 0, 0]` with the previous 32 bytes `old`
/// left as they were.
pub open spec fn coption_key_bytes(k: Option<[u8; 32]>, old: Seq<u8>) -> Seq<u8> {
    match k {
        Some(k) => seq![1u8, 0, 0, 0] + k@,
        None => seq![0u8, 0, 0, 0] + old,
    }
}

/// An optional `u64` as 12 bytes: a 4-byte tag `[1, 0, 0, 0]` and the
/// little-endian value, or the tag `[0, 0, 0, 0]` with the previous 8 bytes
/// `old` left as they were.
pub open spec fn coption_u64_bytes(v: Option<u64>, old: Seq<u8>) -> Seq<u8> {
    match v {
        Some(v) => seq![1u8, 0, 0, 0] + spec_u64_to_le_bytes(v),
        None => seq![0u8, 0, 0, 0] + old,
    }
}

/// The 165 bytes that packing `s` over the bytes `old` writes: mint, owner,
/// amount, delegate, state, native reserve, delegated amount and close
/// authority, where absent optional fields keep the bodies found in `old`.
pub open spec fn token_account_layout(s: TokenAccountState, old: Seq<u8>) -> Seq<u8> {
    s.mint@ + s.owner@ + spec_u64_to_le_bytes(s.amount) + coption_key_bytes(
        s.delegate,
        old.subrange(76, 108),
    ) + seq![account_state_byte(s.state)] + coption_u64_bytes(s.is_native, old.subrange(113, 121))
        + spec_u64_to_le_bytes(s.delegated_amount) + coption_key_bytes(
        s.close_authority,
        old.subrange(133, 165),
    )
}

/// The 82 bytes that packing `m` over the bytes `old` writes: mint
/// authority, supply, decimals, initialized flag and freeze authority, where
/// absent optional fields keep the bodies found in `old`.
pub open spec fn mint_layout(m: MintState, old: Seq<u8>) -> Seq<u8> {
    coption_key_bytes(m.mint_authority, old.subrange(4, 36)) + spec_u64_to_le_bytes(m.supply)
        + seq![m.decimals] + seq![if m.is_initialized { 1u8 } else { 0u8 }] + coption_key_bytes(
        m.freeze_authority,
        old.subrange(50, 82),
    )
}

/// A token account packs into exactly 165 bytes and a mint into exactly 82.
pub proof fn lemma_layout_lengths(s: TokenAccountState, m: MintState, old: Seq<u8>)
    requires
        old.len() >= account_len(),
    ensures
        token_account_layout(s, old).len() == account_len(),
        mint_layout(m, old).len() == mint_len(),
{
    lemma_auto_spec_u64_to_from_le_bytes();
    assert(s.mint@.len() == 32);
    assert(s.owner@.len() == 32);
    assert(spec_u64_to_le_bytes(s.amount).len() == 8);
    assert(spec_u64_to_le_bytes(s.delegated_amount).len() == 8);
    assert(spec_u64_to_le_bytes(m.supply).len() == 8);
    match s.delegate {
        Some(k) => assert(k@.len() == 32),
        None => {},
    }
    match s.close_authority {
        Some(k) => assert(k@.len() == 32),
        None => {},
    }
    match s.is_native {
        Some(v) => assert(spec_u64_to_le_bytes(v).len() == 8),
        None => {},
    }
    match m.mint_authority {
        Some(k) => assert(k@.len() == 32),
        None => {},
    }
    match m.freeze_authority {
        Some(k) => assert(k@.len() == 32),
        None => {},
    }
}

/// Whether the first 165 bytes of `d` are a token account that unpacks.
pub open spec fn token_account_unpacks(d: Seq<u8>) -> bool {
    exists|s: TokenAccountState| token_account_layout(s, d) == d.subrange(0, 165)
}

/// `spl_token_2022_interface::state::Account::LEN`, the packed length of a
/// token account.
#[verifier::external_body]
pub(crate) fn spl_account_len() -> (n: usize)
    ensures
        n == account_len(),
{
    SplAccount::LEN
}

/// `spl_token_2022_interface::state::Mint::LEN`, the packed length of a mint.
#[verifier::external_body]
pub(crate) fn spl_mint_len() -> (n: usize)
    ensures
        n == mint_len(),
{
    SplMint::LEN
}

/// Packs `s` into the first 165 bytes of `dst` with the `Pack`
/// implementation of `spl_token_2022_interface::state::Account`
/// (`pack_into_slice`): each field is written in order, an absent optional
/// field writes only its zero tag, and the bytes after the first 165 are not
/// touched.
#[verifier::external_body]
pub(crate) fn pack_token_account(s: &TokenAccountState, dst: &mut Vec<u8>)
    requires
        old(dst)@.len() >= account_len(),
    ensures
        final(dst)@ == token_account_layout(*s, old(dst)@) + old(dst)@.subrange(
            account_len() as int,
            old(dst)@.len() as int,
        ),
{
    let account = SplAccount {
        mint: Address::new_from_array(s.mint),
        owner: Address::new_from_array(s.owner),
        amount: s.amount,
        delegate: s.delegate.map(Address::new_from_array).into(),
        state: match s.state { AccountState::Uninitialized => SplAccountState::Uninitialized,
            AccountState::Initialized => SplAccountState::Initialized,
            AccountState::Frozen => SplAccountState::Frozen },
        is_native: s.is_native.into(),
        delegated_amount: s.delegated_amount,
        close_authority: s.close_authority.map(Address::new_from_array).into(),
    };
    account.pack_into_slice(&mut dst[..SplAccount::LEN]);
}

/// Unpacks the first 165 bytes of `data` with the `Pack` implementation of
/// `spl_token_2022_interface::state::Account` (`unpack_from_slice`). It fails
/// with `InvalidAccountData`, and only then, when an optional field's tag is
/// neither `[0, 0, 0, 0]` nor `[1, 0, 0, 0]` or the state byte is above 2;
/// otherwise packing the result over `data` gives the same 165 bytes back.
#[verifier::external_body]
pub(crate) fn unpack_token_account(data: &[u8]) -> (r: Result<TokenAccountState, ProgramError>)
    requires
        data@.len() >= account_len(),
    ensures
        r is Ok <==> token_account_unpacks(data@),
        r matches Ok(s) ==> token_account_layout(s, data@) == data@.subrange(0, 165),
        r matches Err(e) ==> e == ProgramError::InvalidAccountData,
{
    SplAccount::unpack_from_slice(data).map(|a| TokenAccountState {
        mint: a.mint.to_bytes(), owner: a.owner.to_bytes(), amount: a.amount,
        delegate: Option::from(a.delegate).map(|k: Address| k.to_bytes()),
        state: match a.state { SplAccountState::Uninitialized => AccountState::Uninitialized,
            SplAccountState::Initialized => AccountState::Initialized,
            SplAccountState::Frozen => AccountState::Frozen },
        is_native: a.is_native.into(), delegated_amount: a.delegated_amount,
        close_authority: Option::from(a.close_authority).map(|k: Address| k.to_bytes()),
    }).map_err(|e| ProgramError::from_code(u64::from(e)))
}

/// Packs `m` into the first 82 bytes of `dst` with the `Pack` implementation
/// of `spl_token_2022_interface::state::Mint` (`pack_into_slice`); the bytes
/// after the first 82 are not touched.
#[verifier::external_body]
pub(crate) fn pack_mint(m: &MintState, dst: &mut Vec<u8>)
    requires
        old(dst)@.len() >= mint_len(),
    ensures
        final(dst)@ == mint_layout(*m, old(dst)@) + old(dst)@.subrange(
            mint_len() as int,
            old(dst)@.len() as int,
        ),
{
    let mint = SplMint {
        mint_authority: m.mint_authority.map(Address::new_from_array).into(),
        supply: m.supply,
        decimals: m.decimals,
        is_initialized: m.is_initialized,
        freeze_authority: m.freeze_authority.map(Address::new_from_array).into(),
    };
    mint.pack_into_slice(&mut dst[..SplMint::LEN]);
}

/// Reads the token-account state from the first 165 bytes of `data`; data
/// shorter than that, a malformed optional-field tag or an unknown state byte
/// is invalid account data.
pub fn unpack_token_account_data(data: &[u8]) -> (r: Result<TokenAccountState, ProgramError>)
    ensures
        r is Ok <==> data@.len() >= account_len() && token_account_unpacks(data@),
        r matches Ok(s) ==> token_account_layout(s, data@) == data@.subrange(0, 165),
        r matches Err(e) ==> e == ProgramError::InvalidAccountData,
{
    if data.len() < spl_account_len() {
        return Err(ProgramError::InvalidAccountData);
    }
    unpack_token_account(data)
}

} // verus!
