//! The account records that a test validator is seeded with: token accounts
//! and mints written directly, rent top-ups, and direct balance changes.
use vstd::prelude::*;
use vstd::bytes::{lemma_auto_spec_u64_to_from_le_bytes, spec_u64_from_le_bytes, spec_u64_to_le_bytes};
use crate::account::{AccountState, address_eq, bytes_at, spec_token_account_check, account_state_byte};
use crate::error::ProgramError;
use crate::layout::{account_len, mint_len, token_program_id, token_2022_program_id};
use crate::pack::{
    MintState, TokenAccountState, mint_layout, pack_mint, pack_token_account, spl_account_len,
    spl_mint_len, token_account_layout, token_account_unpacks, unpack_token_account,
};

verus! {

/// `n` zero bytes.
pub open spec fn zeros(n: nat) -> Seq<u8> {
    Seq::new(n, |i: int| 0u8)
}

/// The token account that is staged for `mint`, `owner` and `amount`: no
/// delegate, initialized, the given native reserve, nothing delegated and no
/// close authority.
pub open spec fn staged_token_account(
    mint: [u8; 32],
    owner: [u8; 32],
    amount: u64,
    is_native: Option<u64>,
) -> TokenAccountState {
    TokenAccountState {
        mint,
        owner,
        amount,
        delegate: None,
        state: AccountState::Initialized,
        is_native,
        delegated_amount: 0,
        close_authority: None,
    }
}

/// The mint that is staged with `decimals` and `mint_authority`: no supply,
/// initialized, no freeze authority.
pub open spec fn staged_mint(decimals: u8, mint_authority: [u8; 32]) -> MintState {
    MintState {
        mint_authority: Some(mint_authority),
        supply: 0,
        decimals,
        is_initialized: true,
        freeze_authority: None,
    }
}

/// Writes the base state of a staged token account over the first 165
/// bytes of `data`; bytes after the base state are kept.
pub fn write_staged_token_account(
    data: &mut Vec<u8>,
    mint: &[u8; 32],
    owner: &[u8; 32],
    amount: u64,
    is_native: Option<u64>,
)
    requires
        old(data)@.len() >= account_len(),
    ensures
        final(data)@ == token_account_layout(
            staged_token_account(*mint, *owner, amount, is_native),
            old(data)@,
        ) + old(data)@.subrange(account_len() as int, old(data)@.len() as int),
{
    let token_account = TokenAccountState {
        mint: *mint,
        owner: *owner,
        amount,
        delegate: None,
        state: AccountState::Initialized,
        is_native,
        delegated_amount: 0,
        close_authority: None,
    };
    pack_token_account(&token_account, data);
}

/// The data of a token account staged directly into the validator; the
/// Token-2022 layout is wire-compatible with classic SPL token accounts.
pub fn token_account_data(mint: &[u8; 32], owner: &[u8; 32], amount: u64, is_native: Option<u64>) -> (data: Vec<u8>)
    ensures
        data@ == token_account_layout(
            staged_token_account(*mint, *owner, amount, is_native),
            zeros(account_len()),
        ),
{
    let space = spl_account_len();
    let mut data: Vec<u8> = vec![0u8; space];
    let ghost zero = data@;
    write_staged_token_account(&mut data, mint, owner, amount, is_native);
    proof {
        assert(zero =~= zeros(account_len()));
        assert(zero.subrange(account_len() as int, zero.len() as int) =~= Seq::<u8>::empty());
        assert(data@ =~= token_account_layout(
            staged_token_account(*mint, *owner, amount, is_native),
            zero,
        ));
    }
    data
}

/// The lamports of a staged token account: the rent-exempt minimum, plus
/// the token amount for a native (wrapped SOL) account.
pub fn token_account_lamports(rent: u64, amount: u64, is_native: Option<u64>) -> (lamports: u64)
    requires
        is_native is Some ==> rent + amount <= u64::MAX,
    ensures
        lamports == if is_native is Some { rent + amount } else { rent as int },
{
    let mut lamports = rent;
    if is_native.is_some() {
        lamports += amount;
    }
    lamports
}

/// Writes the base state of a staged mint over the first 82 bytes of
/// `data`; bytes after the base state are kept.
pub fn write_staged_mint(data: &mut Vec<u8>, decimals: u8, mint_authority: &[u8; 32])
    requires
        old(data)@.len() >= mint_len(),
    ensures
        final(data)@ == mint_layout(staged_mint(decimals, *mint_authority), old(data)@)
            + old(data)@.subrange(mint_len() as int, old(data)@.len() as int),
{
    let mint = MintState {
        mint_authority: Some(*mint_authority),
        supply: 0,
        decimals,
        is_initialized: true,
        freeze_authority: None,
    };
    pack_mint(&mint, data);
}

/// The data of a mint staged directly into the validator.
pub fn mint_data(decimals: u8, mint_authority: &[u8; 32]) -> (data: Vec<u8>)
    ensures
        data@ == mint_layout(staged_mint(decimals, *mint_authority), zeros(mint_len())),
{
    let space = spl_mint_len();
    let mut data: Vec<u8> = vec![0u8; space];
    let ghost zero = data@;
    write_staged_mint(&mut data, decimals, mint_authority);
    proof {
        assert(zero =~= zeros(mint_len()));
        assert(zero.subrange(mint_len() as int, zero.len() as int) =~= Seq::<u8>::empty());
        assert(data@ =~= mint_layout(staged_mint(decimals, *mint_authority), zero));
    }
    data
}

/// The lamports an account is stored with: at least the rent-exempt minimum.
pub fn rent_exempt_lamports(lamports: u64, rent: u64) -> (r: u64)
    ensures
        r == if lamports < rent { rent } else { lamports },
{
    if lamports < rent {
        rent
    } else {
        lamports
    }
}

/// The bytes of `spl_token_2022_interface::id()`, the Token-2022 program
/// address `TokenzQdBNbLqP5VEhdkAS6EPFLC1PHnBqCXEpPxuEb` declared in that crate.
#[verifier::external_body]
fn spl_token_2022_id() -> (id: [u8; 32])
    ensures
        id@ == token_2022_program_id(),
{
    spl_token_2022_interface::id().to_bytes()
}

/// Extensions can only be added to accounts owned by Token-2022.
pub fn check_token_2022_owner(owner: &[u8; 32]) -> (r: Result<(), ProgramError>)
    ensures
        r == if owner@ == token_2022_program_id() {
            Ok::<(), ProgramError>(())
        } else {
            Err(ProgramError::IncorrectProgramId)
        },
{
    if address_eq(owner, &spl_token_2022_id()) {
        Ok(())
    } else {
        Err(ProgramError::IncorrectProgramId)
    }
}

/// The data length of an account that must hold `required_len` bytes once
/// an extension is added: data is grown, never shrunk.
pub fn extended_data_len(current_len: usize, required_len: usize) -> (r: usize)
    ensures
        r == if current_len < required_len { required_len } else { current_len },
        r >= current_len,
        r >= required_len,
{
    if current_len < required_len {
        required_len
    } else {
        current_len
    }
}

/// What adding an extension to a stored account comes to: an account not
/// owned by Token-2022 is refused, then one whose state does not unpack;
/// when the extension is already there nothing is written (`None`);
/// otherwise the new data length, never shorter than the current one, or why
/// the required length could not be computed.
pub open spec fn spec_extension_append_len(
    owner: Seq<u8>,
    present: Result<bool, ProgramError>,
    current_len: usize,
    required_len: Result<usize, ProgramError>,
) -> Result<Option<usize>, ProgramError> {
    if owner != token_2022_program_id() {
        Err(ProgramError::IncorrectProgramId)
    } else {
        match present {
            Err(e) => Err(e),
            Ok(true) => Ok(None),
            Ok(false) => match required_len {
                Err(e) => Err(e),
                Ok(n) => Ok(Some(if current_len < n { n } else { current_len })),
            },
        }
    }
}

/// Decides how adding an extension to the account owned by `owner` goes,
/// given whether the extension is already present (or why the account's
/// state does not unpack), its current data length and the length Token-2022
/// requires with the extension (or why it cannot say).
pub fn extension_append_len(
    owner: &[u8; 32],
    present: Result<bool, ProgramError>,
    current_len: usize,
    required_len: Result<usize, ProgramError>,
) -> (r: Result<Option<usize>, ProgramError>)
    ensures
        r == spec_extension_append_len(owner@, present, current_len, required_len),
{
    match check_token_2022_owner(owner) {
        Ok(()) => {},
        Err(e) => {
            return Err(e);
        },
    }
    match present {
        Err(e) => Err(e),
        Ok(true) => Ok(None),
        Ok(false) => match required_len {
            Err(e) => Err(e),
            Ok(n) => Ok(Some(extended_data_len(current_len, n))),
        },
    }
}

/// Adding an extension that is already present writes nothing, and
/// otherwise never shrinks the account's data.
pub proof fn lemma_extension_append_keeps_data(
    owner: Seq<u8>,
    present: Result<bool, ProgramError>,
    current_len: usize,
    required_len: Result<usize, ProgramError>,
)
    ensures
        owner == token_2022_program_id() && present == Ok::<bool, ProgramError>(true)
            ==> spec_extension_append_len(owner, present, current_len, required_len) == Ok::<
            Option<usize>,
            ProgramError,
        >(None),
        spec_extension_append_len(owner, present, current_len, required_len) matches Ok(
            Some(n),
        ) ==> n >= current_len,
{
}

/// The token amount stored in token-account data `d`.
pub open spec fn stored_amount(d: Seq<u8>) -> u64 {
    spec_u64_from_le_bytes(bytes_at(d, 64, 8))
}

/// Adds `amount` tokens to the token-account data `data` by unpacking its
/// base state, raising the amount and packing it back; only the 8 amount
/// bytes change, so extensions after the base state are preserved.
pub fn add_tokens_to_token_account_data(data: &mut Vec<u8>, amount: u64)
    requires
        old(data)@.len() >= account_len(),
        token_account_unpacks(old(data)@),
        stored_amount(old(data)@) + amount <= u64::MAX,
    ensures
        final(data)@ == old(data)@.subrange(0, 64) + spec_u64_to_le_bytes(
            (stored_amount(old(data)@) + amount) as u64,
        ) + old(data)@.subrange(72, old(data)@.len() as int),
{
    let ghost d = data@;
    let mut token_account = match unpack_token_account(data.as_slice()) {
        Ok(s) => s,
        Err(_) => {
            proof {
                assert(false);
            }
            return;
        },
    };
    proof {
        lemma_auto_spec_u64_to_from_le_bytes();
        let layout = token_account_layout(token_account, d);
        assert(layout.subrange(64, 72) =~= spec_u64_to_le_bytes(token_account.amount));
        assert(d.subrange(0, 165).subrange(64, 72) =~= bytes_at(d, 64, 8));
        assert(token_account.amount == stored_amount(d));
    }
    let ghost before = token_account;
    token_account.amount = token_account.amount + amount;
    pack_token_account(&token_account, data);
    proof {
        lemma_auto_spec_u64_to_from_le_bytes();
        lemma_token_account_layout_amount(before, token_account, d);
        assert(data@ =~= d.subrange(0, 64) + spec_u64_to_le_bytes(token_account.amount)
            + d.subrange(72, d.len() as int));
    }
}

/// Packing two token-account states that differ only in the amount gives
/// bytes that differ only in the 8 amount bytes.
proof fn lemma_token_account_layout_amount(s: TokenAccountState, t: TokenAccountState, d: Seq<u8>)
    requires
        d.len() >= account_len(),
        t == (TokenAccountState { amount: t.amount, ..s }),
    ensures
        token_account_layout(s, d).len() == 165,
        token_account_layout(t, d) == token_account_layout(s, d).subrange(0, 64)
            + spec_u64_to_le_bytes(t.amount) + token_account_layout(s, d).subrange(72, 165),
{
    lemma_auto_spec_u64_to_from_le_bytes();
    assert(s.mint@.len() == 32);
    assert(s.owner@.len() == 32);
    assert(spec_u64_to_le_bytes(s.amount).len() == 8);
    assert(spec_u64_to_le_bytes(t.amount).len() == 8);
    assert(spec_u64_to_le_bytes(s.delegated_amount).len() == 8);
    match s.delegate {
        Some(k) => assert(k@.len() == 32),
        None => {},
    }
    match s.close_authority {
        Some(k) => assert(k@.len() == 32),
        None => {},
    }
    match s.is_native {
        Some(v) => assert(spec_u64_to_le_bytes(v).len() == 8),
        None => {},
    }
    let a = token_account_layout(s, d);
    let b = token_account_layout(t, d);
    assert(a.len() == 165);
    assert(b =~= a.subrange(0, 64) + spec_u64_to_le_bytes(t.amount) + a.subrange(72, 165));
}

/// A token account staged for the SPL Token program is accepted as a token
/// account and reads back the mint, owner and amount it was staged with; it
/// is initialized, with no delegate or close authority.
pub proof fn lemma_staged_token_account_reads_back(
    mint: [u8; 32],
    owner: [u8; 32],
    amount: u64,
    is_native: Option<u64>,
)
    ensures
        ({
            let d = token_account_layout(
                staged_token_account(mint, owner, amount, is_native),
                zeros(account_len()),
            );
            &&& d.len() == account_len()
            &&& spec_token_account_check(token_program_id(), d, None) is Ok
            &&& spec_token_account_check(token_2022_program_id(), d, None) is Ok
            &&& bytes_at(d, 0, 32) == mint@
            &&& bytes_at(d, 32, 32) == owner@
            &&& stored_amount(d) == amount
            &&& d[72] == 0
            &&& d[108] == account_state_byte(AccountState::Initialized)
            &&& d[129] == 0
        }),
{
    lemma_auto_spec_u64_to_from_le_bytes();
    let s = staged_token_account(mint, owner, amount, is_native);
    let d = token_account_layout(s, zeros(account_len()));
    assert(spec_u64_to_le_bytes(amount).len() == 8);
    assert(spec_u64_to_le_bytes(0).len() == 8);
    match is_native {
        Some(v) => assert(spec_u64_to_le_bytes(v).len() == 8),
        None => {},
    }
    assert(d.len() == 165);
    assert(bytes_at(d, 0, 32) =~= mint@);
    assert(bytes_at(d, 32, 32) =~= owner@);
    assert(bytes_at(d, 64, 8) =~= spec_u64_to_le_bytes(amount));
    assert(token_program_id() != token_2022_program_id()) by {
        assert(token_program_id()[4] != token_2022_program_id()[4]);
    }
}

/// Staging a token account over any data writes no delegate, nothing
/// delegated, no close authority and an initialized state; the native flag
/// and reserve are exactly those asked for, whether or not the account is
/// native and whatever amount it holds.
pub proof fn lemma_staged_token_account_fields(
    mint: [u8; 32],
    owner: [u8; 32],
    amount: u64,
    is_native: Option<u64>,
    old: Seq<u8>,
)
    requires
        old.len() >= account_len(),
    ensures
        ({
            let d = token_account_layout(staged_token_account(mint, owner, amount, is_native), old);
            &&& d.len() == account_len()
            &&& stored_amount(d) == amount
            &&& d[72] == 0
            &&& d[108] == 1
            &&& spec_u64_from_le_bytes(bytes_at(d, 121, 8)) == 0
            &&& bytes_at(d, 121, 8) == zeros(8)
            &&& d[129] == 0
            &&& d[109] == (if is_native is Some { 1u8 } else { 0u8 })
            &&& (is_native matches Some(v) ==> spec_u64_from_le_bytes(bytes_at(d, 113, 8)) == v)
        }),
{
    lemma_auto_spec_u64_to_from_le_bytes();
    let s = staged_token_account(mint, owner, amount, is_native);
    let d = token_account_layout(s, old);
    assert(spec_u64_to_le_bytes(amount).len() == 8);
    assert(spec_u64_to_le_bytes(0).len() == 8);
    match is_native {
        Some(v) => assert(spec_u64_to_le_bytes(v).len() == 8),
        None => {},
    }
    assert(d.len() == 165);
    assert(bytes_at(d, 64, 8) =~= spec_u64_to_le_bytes(amount));
    assert(bytes_at(d, 121, 8) =~= spec_u64_to_le_bytes(0));
    assert(spec_u64_to_le_bytes(0) =~= zeros(8)) by {
        vstd::bytes::spec_u64_to_le_bytes_to_open(0);
        let z: u64 = 0;
        assert((z & 0xff) == 0 && ((z >> 8) & 0xff) == 0 && ((z >> 16) & 0xff) == 0 && ((z
            >> 24) & 0xff) == 0 && ((z >> 32) & 0xff) == 0 && ((z >> 40) & 0xff) == 0 && ((z
            >> 48) & 0xff) == 0 && ((z >> 56) & 0xff) == 0) by (bit_vector)
            requires
                z == 0,
        ;
    }
    match is_native {
        Some(v) => {
            assert(bytes_at(d, 113, 8) =~= spec_u64_to_le_bytes(v));
        },
        None => {},
    }
}

/// Adding tokens to staged token-account data raises the stored amount by
/// exactly that many tokens and keeps the data's length.
pub proof fn lemma_add_tokens_reads_back(old_data: Seq<u8>, new_data: Seq<u8>, amount: u64)
    requires
        old_data.len() >= account_len(),
        stored_amount(old_data) + amount <= u64::MAX,
        new_data == old_data.subrange(0, 64) + spec_u64_to_le_bytes(
            (stored_amount(old_data) + amount) as u64,
        ) + old_data.subrange(72, old_data.len() as int),
    ensures
        new_data.len() == old_data.len(),
        stored_amount(new_data) == stored_amount(old_data) + amount,
        new_data.subrange(account_len() as int, new_data.len() as int) == old_data.subrange(
            account_len() as int,
            old_data.len() as int,
        ),
{
    lemma_auto_spec_u64_to_from_le_bytes();
    let v = (stored_amount(old_data) + amount) as u64;
    assert(spec_u64_to_le_bytes(v).len() == 8);
    assert(bytes_at(new_data, 64, 8) =~= spec_u64_to_le_bytes(v));
    assert(new_data.subrange(165, new_data.len() as int) =~= old_data.subrange(
        165,
        old_data.len() as int,
    ));
}

} // verus!
