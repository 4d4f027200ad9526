use vstd::prelude::*;

verus! {

/// Reasons a token operation may fail: the builtin program errors of the
/// Solana runtime, plus program-specific `Custom` codes.
#[derive(Clone, Copy, Debug, PartialEq, Eq, Structural)]
pub enum ProgramError {
    Custom(u32),
    InvalidArgument,
    InvalidInstructionData,
    InvalidAccountData,
    AccountDataTooSmall,
    InsufficientFunds,
    IncorrectProgramId,
    MissingRequiredSignature,
    AccountAlreadyInitialized,
    UninitializedAccount,
    NotEnoughAccountKeys,
    AccountBorrowFailed,
    MaxSeedLengthExceeded,
    InvalidSeeds,
    BorshIoError,
    AccountNotRentExempt,
    UnsupportedSysvar,
    IllegalOwner,
    MaxAccountsDataAllocationsExceeded,
    InvalidRealloc,
    MaxInstructionTraceLengthExceeded,
    BuiltinProgramsMustConsumeComputeUnits,
    InvalidAccountOwner,
    ArithmeticOverflow,
    Immutable,
    IncorrectAuthority,
}

/// The builtin error codes occupy the upper 32 bits of the runtime's `u64`
/// error value; `builtin_code(n)` is the code of the `n`-th builtin error.
pub open spec fn builtin_code(n: u64) -> u64 {
    (n * 0x1_0000_0000) as u64
}

/// The error that the runtime's `u64` error value `code` stands for.
pub open spec fn program_error_from_code(code: u64) -> ProgramError {
    if code == builtin_code(1) {
        ProgramError::Custom(0)
    } else if code == builtin_code(2) {
        ProgramError::InvalidArgument
    } else if code == builtin_code(3) {
        ProgramError::InvalidInstructionData
    } else if code == builtin_code(4) {
        ProgramError::InvalidAccountData
    } else if code == builtin_code(5) {
        ProgramError::AccountDataTooSmall
    } else if code == builtin_code(6) {
        ProgramError::InsufficientFunds
    } else if code == builtin_code(7) {
        ProgramError::IncorrectProgramId
    } else if code == builtin_code(8) {
        ProgramError::MissingRequiredSignature
    } else if code == builtin_code(9) {
        ProgramError::AccountAlreadyInitialized
    } else if code == builtin_code(10) {
        ProgramError::UninitializedAccount
    } else if code == builtin_code(11) {
        ProgramError::NotEnoughAccountKeys
    } else if code == builtin_code(12) {
        ProgramError::AccountBorrowFailed
    } else if code == builtin_code(13) {
        ProgramError::MaxSeedLengthExceeded
    } else if code == builtin_code(14) {
        ProgramError::InvalidSeeds
    } else if code == builtin_code(15) {
        ProgramError::BorshIoError
    } else if code == builtin_code(16) {
        ProgramError::AccountNotRentExempt
    } else if code == builtin_code(17) {
        ProgramError::UnsupportedSysvar
    } else if code == builtin_code(18) {
        ProgramError::IllegalOwner
    } else if code == builtin_code(19) {
        ProgramError::MaxAccountsDataAllocationsExceeded
    } else if code == builtin_code(20) {
        ProgramError::InvalidRealloc
    } else if code == builtin_code(21) {
        ProgramError::MaxInstructionTraceLengthExceeded
    } else if code == builtin_code(22) {
        ProgramError::BuiltinProgramsMustConsumeComputeUnits
    } else if code == builtin_code(23) {
        ProgramError::InvalidAccountOwner
    } else if code == builtin_code(24) {
        ProgramError::ArithmeticOverflow
    } else if code == builtin_code(25) {
        ProgramError::Immutable
    } else if code == builtin_code(26) {
        ProgramError::IncorrectAuthority
    } else {
        ProgramError::Custom(code as u32)
    }
}

/// The runtime's `u64` error value of `e`.
pub open spec fn program_error_code(e: ProgramError) -> u64 {
    match e {
        ProgramError::Custom(n) => if n == 0 { builtin_code(1) } else { n as u64 },
        ProgramError::InvalidArgument => builtin_code(2),
        ProgramError::InvalidInstructionData => builtin_code(3),
        ProgramError::InvalidAccountData => builtin_code(4),
        ProgramError::AccountDataTooSmall => builtin_code(5),
        ProgramError::InsufficientFunds => builtin_code(6),
        ProgramError::IncorrectProgramId => builtin_code(7),
        ProgramError::MissingRequiredSignature => builtin_code(8),
        ProgramError::AccountAlreadyInitialized => builtin_code(9),
        ProgramError::UninitializedAccount => builtin_code(10),
        ProgramError::NotEnoughAccountKeys => builtin_code(11),
        ProgramError::AccountBorrowFailed => builtin_code(12),
        ProgramError::MaxSeedLengthExceeded => builtin_code(13),
        ProgramError::InvalidSeeds => builtin_code(14),
        ProgramError::BorshIoError => builtin_code(15),
        ProgramError::AccountNotRentExempt => builtin_code(16),
        ProgramError::UnsupportedSysvar => builtin_code(17),
        ProgramError::IllegalOwner => builtin_code(18),
        ProgramError::MaxAccountsDataAllocationsExceeded => builtin_code(19),
        ProgramError::InvalidRealloc => builtin_code(20),
        ProgramError::MaxInstructionTraceLengthExceeded => builtin_code(21),
        ProgramError::BuiltinProgramsMustConsumeComputeUnits => builtin_code(22),
        ProgramError::InvalidAccountOwner => builtin_code(23),
        ProgramError::ArithmeticOverflow => builtin_code(24),
        ProgramError::Immutable => builtin_code(25),
        ProgramError::IncorrectAuthority => builtin_code(26),
    }
}

impl ProgramError {
    /// Decodes the runtime's `u64` error value.
    pub fn from_code(code: u64) -> (e: ProgramError)
        ensures
            e == program_error_from_code(code),
    {
        if code == 0x1_0000_0000 {
            ProgramError::Custom(0)
        } else if code == 0x2_0000_0000 {
            ProgramError::InvalidArgument
        } else if code == 0x3_0000_0000 {
            ProgramError::InvalidInstructionData
        } else if code == 0x4_0000_0000 {
            ProgramError::InvalidAccountData
        } else if code == 0x5_0000_0000 {
            ProgramError::AccountDataTooSmall
        } else if code == 0x6_0000_0000 {
            ProgramError::InsufficientFunds
        } else if code == 0x7_0000_0000 {
            ProgramError::IncorrectProgramId
        } else if code == 0x8_0000_0000 {
            ProgramError::MissingRequiredSignature
        } else if code == 0x9_0000_0000 {
            ProgramError::AccountAlreadyInitialized
        } else if code == 0xa_0000_0000 {
            ProgramError::UninitializedAccount
        } else if code == 0xb_0000_0000 {
            ProgramError::NotEnoughAccountKeys
        } else if code == 0xc_0000_0000 {
            ProgramError::AccountBorrowFailed
        } else if code == 0xd_0000_0000 {
            ProgramError::MaxSeedLengthExceeded
        } else if code == 0xe_0000_0000 {
            ProgramError::InvalidSeeds
        } else if code == 0xf_0000_0000 {
            ProgramError::BorshIoError
        } else if code == 0x10_0000_0000 {
            ProgramError::AccountNotRentExempt
        } else if code == 0x11_0000_0000 {
            ProgramError::UnsupportedSysvar
        } else if code == 0x12_0000_0000 {
            ProgramError::IllegalOwner
        } else if code == 0x13_0000_0000 {
            ProgramError::MaxAccountsDataAllocationsExceeded
        } else if code == 0x14_0000_0000 {
            ProgramError::InvalidRealloc
        } else if code == 0x15_0000_0000 {
            ProgramError::MaxInstructionTraceLengthExceeded
        } else if code == 0x16_0000_0000 {
            ProgramError::BuiltinProgramsMustConsumeComputeUnits
        } else if code == 0x17_0000_0000 {
            ProgramError::InvalidAccountOwner
        } else if code == 0x18_0000_0000 {
            ProgramError::ArithmeticOverflow
        } else if code == 0x19_0000_0000 {
            ProgramError::Immutable
        } else if code == 0x1a_0000_0000 {
            ProgramError::IncorrectAuthority
        } else {
            ProgramError::Custom(code as u32)
        }
    }

    /// Encodes the error as the runtime's `u64` error value.
    pub fn to_code(&self) -> (code: u64)
        ensures
            code == program_error_code(*self),
    {
        match *self {
            ProgramError::Custom(n) => if n == 0 { 0x1_0000_0000 } else { n as u64 },
            ProgramError::InvalidArgument => 0x2_0000_0000,
            ProgramError::InvalidInstructionData => 0x3_0000_0000,
            ProgramError::InvalidAccountData => 0x4_0000_0000,
            ProgramError::AccountDataTooSmall => 0x5_0000_0000,
            ProgramError::InsufficientFunds => 0x6_0000_0000,
            ProgramError::IncorrectProgramId => 0x7_0000_0000,
            ProgramError::MissingRequiredSignature => 0x8_0000_0000,
            ProgramError::AccountAlreadyInitialized => 0x9_0000_0000,
            ProgramError::UninitializedAccount => 0xa_0000_0000,
            ProgramError::NotEnoughAccountKeys => 0xb_0000_0000,
            ProgramError::AccountBorrowFailed => 0xc_0000_0000,
            ProgramError::MaxSeedLengthExceeded => 0xd_0000_0000,
            ProgramError::InvalidSeeds => 0xe_0000_0000,
            ProgramError::BorshIoError => 0xf_0000_0000,
            ProgramError::AccountNotRentExempt => 0x10_0000_0000,
            ProgramError::UnsupportedSysvar => 0x11_0000_0000,
            ProgramError::IllegalOwner => 0x12_0000_0000,
            ProgramError::MaxAccountsDataAllocationsExceeded => 0x13_0000_0000,
            ProgramError::InvalidRealloc => 0x14_0000_0000,
            ProgramError::MaxInstructionTraceLengthExceeded => 0x15_0000_0000,
            ProgramError::BuiltinProgramsMustConsumeComputeUnits => 0x16_0000_0000,
            ProgramError::InvalidAccountOwner => 0x17_0000_0000,
            ProgramError::ArithmeticOverflow => 0x18_0000_0000,
            ProgramError::Immutable => 0x19_0000_0000,
            ProgramError::IncorrectAuthority => 0x1a_0000_0000,
        }
    }
}

/// Encoding an error as the runtime's `u64` value and decoding it again gives
/// the same error back.
pub proof fn lemma_program_error_code_round_trip(e: ProgramError)
    ensures
        program_error_from_code(program_error_code(e)) == e,
{
    match e {
        ProgramError::Custom(n) => {
            if n != 0 {
                assert(n < 0x1_0000_0000);
                assert((n as u64) as u32 == n);
            }
        },
        _ => {},
    }
}

} // verus!
