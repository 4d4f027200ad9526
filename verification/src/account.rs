//! Typed, validated views over the data of SPL Token and Token-2022 token
//! accounts and mints.
use vstd::prelude::*;
use vstd::bytes::{spec_u64_from_le_bytes, u64_from_le_bytes};
use vstd::slice::slice_subrange;
use crate::error::ProgramError;
use crate::extension::{T22_ACCOUNT_TYPE_MINT, T22_ACCOUNT_TYPE_TOKEN_ACCOUNT};
use crate::layout::{
    account_len, legacy_account_len, legacy_mint_len, legacy_program_id, mint_len, multisig_len,
    t22_account_base_len, t22_mint_base_len, t22_multisig_len, t22_program_id,
    token_2022_program_id, token_program_id,
};

verus! {

/// An account as the runtime hands it to a program: the address of the
/// program that owns it, its data, and the error that borrowing the data
/// fails with while it is mutably borrowed elsewhere (`None` when it can be
/// borrowed).
pub struct AccountView {
    pub owner: [u8; 32],
    pub data: Vec<u8>,
    pub borrow_error: Option<ProgramError>,
}

/// State of a token account.
#[derive(Clone, Copy, Debug, PartialEq, Eq, Structural)]
pub enum AccountState {
    /// Account is not yet initialized.
    Uninitialized,
    /// Account is initialized; the owner and/or delegate may operate on it.
    Initialized,
    /// Account has been frozen by the mint freeze authority.
    Frozen,
}

/// The state stored as byte `b`, if `b` is a valid state.
pub open spec fn account_state_from_byte(b: u8) -> Option<AccountState> {
    if b == 0 {
        Some(AccountState::Uninitialized)
    } else if b == 1 {
        Some(AccountState::Initialized)
    } else if b == 2 {
        Some(AccountState::Frozen)
    } else {
        None
    }
}

/// The byte that stores state `s`.
pub open spec fn account_state_byte(s: AccountState) -> u8 {
    match s {
        AccountState::Uninitialized => 0,
        AccountState::Initialized => 1,
        AccountState::Frozen => 2,
    }
}

/// How Token-2022 checks the data of an account of the given kind: data of
/// exactly the base length is plain base state; longer data (but never of
/// multisig length) must carry the kind's account-type byte right after the
/// 165-byte token-account base.
pub open spec fn validate_account_type(
    bytes: Seq<u8>,
    account_type: u8,
    expected_base_len: nat,
) -> Result<(), ProgramError> {
    if bytes.len() == expected_base_len {
        Ok(())
    } else if bytes.len() != multisig_len() && bytes.len() > account_len() && bytes[account_len()
        as int] == account_type {
        Ok(())
    } else {
        Err(ProgramError::InvalidAccountData)
    }
}

/// Whether an account with this owner, data and borrow state is a token
/// account, and why not: the owner is checked first, then (for Token-2022)
/// the borrow and the data, or (for SPL Token) the length and the borrow.
pub open spec fn spec_token_account_check(
    owner: Seq<u8>,
    data: Seq<u8>,
    borrow_error: Option<ProgramError>,
) -> Result<(), ProgramError> {
    if owner == token_2022_program_id() {
        match borrow_error {
            Some(e) => Err(e),
            None => validate_account_type(data, T22_ACCOUNT_TYPE_TOKEN_ACCOUNT, account_len()),
        }
    } else if owner == token_program_id() {
        if data.len() != account_len() {
            Err(ProgramError::InvalidAccountData)
        } else {
            match borrow_error {
                Some(e) => Err(e),
                None => Ok(()),
            }
        }
    } else {
        Err(ProgramError::InvalidAccountOwner)
    }
}

/// Whether an account with this owner, data and borrow state is a mint, and
/// why not, checked in the same order as for token accounts.
pub open spec fn spec_mint_check(
    owner: Seq<u8>,
    data: Seq<u8>,
    borrow_error: Option<ProgramError>,
) -> Result<(), ProgramError> {
    if owner == token_2022_program_id() {
        match borrow_error {
            Some(e) => Err(e),
            None => validate_account_type(data, T22_ACCOUNT_TYPE_MINT, mint_len()),
        }
    } else if owner == token_program_id() {
        if data.len() != mint_len() {
            Err(ProgramError::InvalidAccountData)
        } else {
            match borrow_error {
                Some(e) => Err(e),
                None => Ok(()),
            }
        }
    } else {
        Err(ProgramError::InvalidAccountOwner)
    }
}

/// Whether two addresses are equal, byte for byte.
pub fn address_eq(a: &[u8; 32], b: &[u8; 32]) -> (r: bool)
    ensures
        r == (a@ == b@),
{
    let mut i: usize = 0;
    while i < 32
        invariant
            0 <= i <= 32,
            a@.len() == 32,
            b@.len() == 32,
            forall|j: int| 0 <= j < i ==> a@[j] == b@[j],
        decreases 32 - i,
    {
        if a[i] != b[i] {
            assert(a@[i as int] != b@[i as int]);
            return false;
        }
        i = i + 1;
    }
    assert(a@ =~= b@);
    true
}

/// Token-2022's account-data check for an account of the given kind.
fn check_account_type(bytes: &[u8], account_type: u8, expected_base_len: usize) -> (r: Result<
    (),
    ProgramError,
>)
    ensures
        r == validate_account_type(bytes@, account_type, expected_base_len as nat),
{
    let len = bytes.len();
    if len == expected_base_len {
        return Ok(());
    }
    let base_len = t22_account_base_len();
    if len != t22_multisig_len() && len > base_len && bytes[base_len] == account_type {
        return Ok(());
    }
    Err(ProgramError::InvalidAccountData)
}

/// A token account: data validated as the base state of a token account of
/// SPL Token or Token-2022, possibly followed by Token-2022 extensions.
pub struct TokenAccount<'info> {
    data: &'info [u8],
}

/// A mint: data validated as the base state of a mint of SPL Token or
/// Token-2022, possibly followed by Token-2022 extensions.
pub struct Mint<'info> {
    data: &'info [u8],
}

/// The `n` bytes of `s` from offset `i` on.
pub open spec fn bytes_at(s: Seq<u8>, i: int, n: int) -> Seq<u8> {
    s.subrange(i, i + n)
}

/// The optional address of a flag-prefixed field: the address when the
/// 4-byte flag at `i` starts with 1.
pub open spec fn optional_address_at(s: Seq<u8>, i: int) -> Option<Seq<u8>> {
    if s[i] == 1 {
        Some(bytes_at(s, i + 4, 32))
    } else {
        None
    }
}

impl<'info> TokenAccount<'info> {
    #[verifier::type_invariant]
    spec fn long_enough(self) -> bool {
        self.data@.len() >= account_len()
    }

    /// The data of the account.
    pub closed spec fn view(self) -> Seq<u8> {
        self.data@
    }

    /// Validates `account_view` as a token account. Token-2022 accounts are
    /// checked as Token-2022 does; legacy SPL Token accounts must be exactly
    /// 165 bytes long; any other owner is refused.
    pub fn from_account_view(account_view: &'info AccountView) -> (r: Result<Self, ProgramError>)
        ensures
            r is Ok <==> spec_token_account_check(
                account_view.owner@,
                account_view.data@,
                account_view.borrow_error,
            ) is Ok,
            r matches Err(e) ==> spec_token_account_check(
                account_view.owner@,
                account_view.data@,
                account_view.borrow_error,
            ) == Err::<(), ProgramError>(e),
            r matches Ok(t) ==> t.view() == account_view.data@,
    {
        let data = account_view.data.as_slice();
        if address_eq(&account_view.owner, &t22_program_id()) {
            if let Some(e) = account_view.borrow_error {
                return Err(e);
            }
            match check_account_type(data, T22_ACCOUNT_TYPE_TOKEN_ACCOUNT, t22_account_base_len()) {
                Ok(()) => Ok(TokenAccount { data }),
                Err(e) => Err(e),
            }
        } else if address_eq(&account_view.owner, &legacy_program_id()) {
            if data.len() != legacy_account_len() {
                return Err(ProgramError::InvalidAccountData);
            }
            if let Some(e) = account_view.borrow_error {
                return Err(e);
            }
            Ok(TokenAccount { data })
        } else {
            Err(ProgramError::InvalidAccountOwner)
        }
    }

    /// The mint associated with this account.
    pub fn mint(&self) -> (r: &'info [u8])
        ensures
            r@ == bytes_at(self.view(), 0, 32),
    {
        proof {
            use_type_invariant(self);
        }
        slice_subrange(self.data, 0, 32)
    }

    /// The owner of this account.
    pub fn owner(&self) -> (r: &'info [u8])
        ensures
            r@ == bytes_at(self.view(), 32, 32),
    {
        proof {
            use_type_invariant(self);
        }
        slice_subrange(self.data, 32, 64)
    }

    /// The amount of tokens this account holds.
    pub fn amount(&self) -> (r: u64)
        ensures
            r == spec_u64_from_le_bytes(bytes_at(self.view(), 64, 8)),
    {
        proof {
            use_type_invariant(self);
        }
        u64_from_le_bytes(slice_subrange(self.data, 64, 72))
    }

    /// Whether the delegate is set: the flag of its optional field is 1.
    pub fn has_delegate(&self) -> (r: bool)
        ensures
            r == (self.view()[72] == 1),
    {
        proof {
            use_type_invariant(self);
        }
        self.data[72] == 1
    }

    /// The address stored for the delegate, whether or not its flag is set.
    pub fn delegate_unchecked(&self) -> (r: &'info [u8])
        ensures
            r@ == bytes_at(self.view(), 76, 32),
    {
        proof {
            use_type_invariant(self);
        }
        slice_subrange(self.data, 76, 108)
    }

    /// The delegate, when one is set.
    pub fn delegate(&self) -> (r: Option<&'info [u8]>)
        ensures
            r matches Some(d) ==> optional_address_at(self.view(), 72) == Some(d@),
            r is None ==> optional_address_at(self.view(), 72) is None,
    {
        proof {
            use_type_invariant(self);
        }
        if self.data[72] == 1 {
            Some(slice_subrange(self.data, 76, 108))
        } else {
            None
        }
    }

    /// The account's state; an unknown state byte is invalid account data.
    pub fn state(&self) -> (r: Result<AccountState, ProgramError>)
        ensures
            r == (match account_state_from_byte(self.view()[108]) {
                Some(s) => Ok(s),
                None => Err(ProgramError::InvalidAccountData),
            }),
    {
        proof {
            use_type_invariant(self);
        }
        match self.data[108] {
            0 => Ok(AccountState::Uninitialized),
            1 => Ok(AccountState::Initialized),
            2 => Ok(AccountState::Frozen),
            _ => Err(ProgramError::InvalidAccountData),
        }
    }

    /// Whether this account holds wrapped native tokens.
    pub fn is_native(&self) -> (r: bool)
        ensures
            r == (self.view()[109] == 1),
    {
        proof {
            use_type_invariant(self);
        }
        self.data[109] == 1
    }

    /// The native reserve field, whether or not the account is native.
    pub fn native_amount_unchecked(&self) -> (r: u64)
        ensures
            r == spec_u64_from_le_bytes(bytes_at(self.view(), 113, 8)),
    {
        proof {
            use_type_invariant(self);
        }
        u64_from_le_bytes(slice_subrange(self.data, 113, 121))
    }

    /// The rent-exempt reserve of a native account.
    pub fn native_amount(&self) -> (r: Option<u64>)
        ensures
            r == (if self.view()[109] == 1 {
                Some(spec_u64_from_le_bytes(bytes_at(self.view(), 113, 8)))
            } else {
                None
            }),
    {
        proof {
            use_type_invariant(self);
        }
        if self.data[109] == 1 {
            Some(u64_from_le_bytes(slice_subrange(self.data, 113, 121)))
        } else {
            None
        }
    }

    /// The amount delegated.
    pub fn delegated_amount(&self) -> (r: u64)
        ensures
            r == spec_u64_from_le_bytes(bytes_at(self.view(), 121, 8)),
    {
        proof {
            use_type_invariant(self);
        }
        u64_from_le_bytes(slice_subrange(self.data, 121, 129))
    }

    /// Whether the close authority is set: the flag of its optional field is 1.
    pub fn has_close_authority(&self) -> (r: bool)
        ensures
            r == (self.view()[129] == 1),
    {
        proof {
            use_type_invariant(self);
        }
        self.data[129] == 1
    }

    /// The address stored for the close authority, whether or not its flag is set.
    pub fn close_authority_unchecked(&self) -> (r: &'info [u8])
        ensures
            r@ == bytes_at(self.view(), 133, 32),
    {
        proof {
            use_type_invariant(self);
        }
        slice_subrange(self.data, 133, 165)
    }

    /// The authority allowed to close the account, when one is set.
    pub fn close_authority(&self) -> (r: Option<&'info [u8]>)
        ensures
            r matches Some(d) ==> optional_address_at(self.view(), 129) == Some(d@),
            r is None ==> optional_address_at(self.view(), 129) is None,
    {
        proof {
            use_type_invariant(self);
        }
        if self.data[129] == 1 {
            Some(slice_subrange(self.data, 133, 165))
        } else {
            None
        }
    }

    /// Whether the account has been initialized.
    pub fn is_initialized(&self) -> (r: bool)
        ensures
            r == (self.view()[108] != 0),
    {
        proof {
            use_type_invariant(self);
        }
        self.data[108] != 0
    }

    /// Whether the account is frozen.
    pub fn is_frozen(&self) -> (r: bool)
        ensures
            r == (self.view()[108] == 2),
    {
        proof {
            use_type_invariant(self);
        }
        self.data[108] == 2
    }
}

impl<'info> Mint<'info> {
    #[verifier::type_invariant]
    spec fn long_enough(self) -> bool {
        self.data@.len() >= mint_len()
    }

    /// The data of the mint.
    pub closed spec fn view(self) -> Seq<u8> {
        self.data@
    }

    /// Validates `account_view` as a mint. Token-2022 mints are checked as
    /// Token-2022 does; legacy SPL Token mints must be exactly 82 bytes long;
    /// any other owner is refused.
    pub fn from_account_view(account_view: &'info AccountView) -> (r: Result<Self, ProgramError>)
        ensures
            r is Ok <==> spec_mint_check(
                account_view.owner@,
                account_view.data@,
                account_view.borrow_error,
            ) is Ok,
            r matches Err(e) ==> spec_mint_check(
                account_view.owner@,
                account_view.data@,
                account_view.borrow_error,
            ) == Err::<
                (),
                ProgramError,
            >(e),
            r matches Ok(m) ==> m.view() == account_view.data@,
    {
        let data = account_view.data.as_slice();
        if address_eq(&account_view.owner, &t22_program_id()) {
            if let Some(e) = account_view.borrow_error {
                return Err(e);
            }
            match check_account_type(data, T22_ACCOUNT_TYPE_MINT, t22_mint_base_len()) {
                Ok(()) => Ok(Mint { data }),
                Err(e) => Err(e),
            }
        } else if address_eq(&account_view.owner, &legacy_program_id()) {
            if data.len() != legacy_mint_len() {
                return Err(ProgramError::InvalidAccountData);
            }
            if let Some(e) = account_view.borrow_error {
                return Err(e);
            }
            Ok(Mint { data })
        } else {
            Err(ProgramError::InvalidAccountOwner)
        }
    }

    /// Whether the mint authority is set: the flag of its optional field is 1.
    pub fn has_mint_authority(&self) -> (r: bool)
        ensures
            r == (self.view()[0] == 1),
    {
        proof {
            use_type_invariant(self);
        }
        self.data[0] == 1
    }

    /// The address stored for the mint authority, whether or not its flag is set.
    pub fn mint_authority_unchecked(&self) -> (r: &'info [u8])
        ensures
            r@ == bytes_at(self.view(), 4, 32),
    {
        proof {
            use_type_invariant(self);
        }
        slice_subrange(self.data, 4, 36)
    }

    /// The authority allowed to mint new tokens, when one is set.
    pub fn mint_authority(&self) -> (r: Option<&'info [u8]>)
        ensures
            r matches Some(d) ==> optional_address_at(self.view(), 0) == Some(d@),
            r is None ==> optional_address_at(self.view(), 0) is None,
    {
        proof {
            use_type_invariant(self);
        }
        if self.data[0] == 1 {
            Some(slice_subrange(self.data, 4, 36))
        } else {
            None
        }
    }

    /// Total supply of tokens.
    pub fn supply(&self) -> (r: u64)
        ensures
            r == spec_u64_from_le_bytes(bytes_at(self.view(), 36, 8)),
    {
        proof {
            use_type_invariant(self);
        }
        u64_from_le_bytes(slice_subrange(self.data, 36, 44))
    }

    /// Number of base-10 digits to the right of the decimal point.
    pub fn decimals(&self) -> (r: u8)
        ensures
            r == self.view()[44],
    {
        proof {
            use_type_invariant(self);
        }
        self.data[44]
    }

    /// Whether the mint has been initialized.
    pub fn is_initialized(&self) -> (r: bool)
        ensures
            r == (self.view()[45] == 1),
    {
        proof {
            use_type_invariant(self);
        }
        self.data[45] == 1
    }

    /// Whether the freeze authority is set: the flag of its optional field is 1.
    pub fn has_freeze_authority(&self) -> (r: bool)
        ensures
            r == (self.view()[46] == 1),
    {
        proof {
            use_type_invariant(self);
        }
        self.data[46] == 1
    }

    /// The address stored for the freeze authority, whether or not its flag is set.
    pub fn freeze_authority_unchecked(&self) -> (r: &'info [u8])
        ensures
            r@ == bytes_at(self.view(), 50, 32),
    {
        proof {
            use_type_invariant(self);
        }
        slice_subrange(self.data, 50, 82)
    }

    /// The authority allowed to freeze token accounts, when one is set.
    pub fn freeze_authority(&self) -> (r: Option<&'info [u8]>)
        ensures
            r matches Some(d) ==> optional_address_at(self.view(), 46) == Some(d@),
            r is None ==> optional_address_at(self.view(), 46) is None,
    {
        proof {
            use_type_invariant(self);
        }
        if self.data[46] == 1 {
            Some(slice_subrange(self.data, 50, 82))
        } else {
            None
        }
    }
}

/// Token-2022 accepts, from a borrowable account it owns, data of exactly the
/// base length, and data longer than the 165-byte token-account base (but
/// not of multisig length) whose byte 165 is the account-type byte: 1 for a
/// mint, 2 for a token account. Such data is refused as the other kind.
pub proof fn lemma_token_2022_accepts_typed_data(data: Seq<u8>)
    ensures
        data.len() == 82 ==> spec_mint_check(token_2022_program_id(), data, None) == Ok::<
            (),
            ProgramError,
        >(()),
        data.len() == 165 ==> spec_token_account_check(token_2022_program_id(), data, None)
            == Ok::<(), ProgramError>(()),
        data.len() > 165 && data.len() != 355 && data[165] == 1 ==> spec_mint_check(
            token_2022_program_id(),
            data,
            None,
        ) == Ok::<(), ProgramError>(()),
        data.len() > 165 && data.len() != 355 && data[165] == 2 ==> spec_token_account_check(
            token_2022_program_id(),
            data,
            None,
        ) == Ok::<(), ProgramError>(()),
        data.len() > 165 && data[165] == 1 ==> spec_token_account_check(
            token_2022_program_id(),
            data,
            None,
        ) == Err::<(), ProgramError>(ProgramError::InvalidAccountData),
        data.len() == 355 ==> spec_mint_check(token_2022_program_id(), data, None) == Err::<
            (),
            ProgramError,
        >(ProgramError::InvalidAccountData),
{
}

/// The state byte of a token account reads as: 0 uninitialized, 1
/// initialized, 2 frozen, anything else invalid. So the state is
/// uninitialized exactly when the account is not initialized (byte 0), and
/// every state is read back from the byte that stores it.
pub proof fn lemma_account_state_bytes(b: u8, s: AccountState)
    ensures
        (account_state_from_byte(b) == Some(AccountState::Uninitialized)) <==> b == 0,
        (account_state_from_byte(b) == Some(AccountState::Initialized)) <==> b == 1,
        (account_state_from_byte(b) == Some(AccountState::Frozen)) <==> b == 2,
        account_state_from_byte(b) is None <==> b > 2,
        account_state_from_byte(account_state_byte(s)) == Some(s),
        (s == AccountState::Uninitialized) <==> account_state_byte(s) == 0,
{
}

/// Data longer than a token account's base state (and not of multisig
/// length) that Token-2022 accepts as a token account is never accepted as a
/// mint, and the other way round: the account-type byte tells them apart.
pub proof fn lemma_extended_account_kinds_exclusive(data: Seq<u8>)
    requires
        data.len() > account_len(),
    ensures
        !(spec_token_account_check(token_2022_program_id(), data, None) is Ok && spec_mint_check(
            token_2022_program_id(),
            data,
            None,
        ) is Ok),
{
}

/// An account owned by neither token program is refused as a token account
/// and as a mint, with `InvalidAccountOwner`, whatever its data and borrow
/// state.
pub proof fn lemma_foreign_owner_refused(
    owner: Seq<u8>,
    data: Seq<u8>,
    borrow_error: Option<ProgramError>,
)
    requires
        owner != token_2022_program_id(),
        owner != token_program_id(),
    ensures
        spec_token_account_check(owner, data, borrow_error) == Err::<(), ProgramError>(
            ProgramError::InvalidAccountOwner,
        ),
        spec_mint_check(owner, data, borrow_error) == Err::<(), ProgramError>(
            ProgramError::InvalidAccountOwner,
        ),
{
}

} // verus!
