//! Failure reasons of the token ledger and their numeric codes.

use vstd::prelude::*;
use vstd::std_specs::convert::FromSpecImpl;

verus! {

/// Reasons for which a token instruction is refused.
#[derive(Clone, Copy, Debug, PartialEq, Eq, Structural)]
pub enum TokenError {
    /// Lamport balance below rent-exempt threshold.
    NotRentExempt,
    /// Insufficient funds for the operation requested.
    InsufficientFunds,
    /// Invalid Mint.
    InvalidMint,
    /// Account not associated with this Mint.
    MintMismatch,
    /// Owner does not match.
    OwnerMismatch,
    /// Instruction does not support native tokens.
    NativeNotSupported,
    /// Non-native account can only be closed if its balance is zero.
    NonNativeHashBalance,
    /// Invalid instruction.
    InvalidInstruction,
    /// Operation overflowed.
    Overflow,
    /// Account does not support specified authority type.
    AuthorityTypeNotSupported,
    /// Account is frozen; all account operations will fail.
    AccountFrozen,
    /// Mint decimals mismatch between the client and mint.
    MintDecimalsMismatch,
    /// The mint has no mint authority: its supply is fixed.
    FixedSupply,
    /// The mint has no freeze authority.
    MintCannotFreeze,
    /// The record to initialize is already in use.
    AlreadyInUse,
    /// Invalid number of provided signers.
    InvalidNumberOfProvidedSigners,
    /// Invalid number of required signers.
    InvalidNumberOfRequiredSigners,
}

/// Failures in the host's generic error space.
#[derive(Clone, Copy, Debug, PartialEq, Eq, Structural)]
pub enum ProgramError {
    /// A failure of this program, by its numeric code.
    Custom(u32),
    /// The arguments provided to an instruction were invalid.
    InvalidArgument,
    /// An account's data contents was invalid.
    InvalidAccountData,
    /// The account did not have the expected program id.
    IncorrectProgramId,
    /// A signature was required but not found.
    MissingRequiredSignature,
    /// An attempt to operate on an account that has not been initialized.
    UninitializedAccount,
    /// The instruction expected additional account keys.
    NotEnoughAccountKeys,
}

impl TokenError {
    /// The numeric code of a failure: its position in the enumeration.
    pub open spec fn spec_code(self) -> u32 {
        match self {
            TokenError::NotRentExempt => 0,
            TokenError::InsufficientFunds => 1,
            TokenError::InvalidMint => 2,
            TokenError::MintMismatch => 3,
            TokenError::OwnerMismatch => 4,
            TokenError::NativeNotSupported => 5,
            TokenError::NonNativeHashBalance => 6,
            TokenError::InvalidInstruction => 7,
            TokenError::Overflow => 8,
            TokenError::AuthorityTypeNotSupported => 9,
            TokenError::AccountFrozen => 10,
            TokenError::MintDecimalsMismatch => 11,
            TokenError::FixedSupply => 12,
            TokenError::MintCannotFreeze => 13,
            TokenError::AlreadyInUse => 14,
            TokenError::InvalidNumberOfProvidedSigners => 15,
            TokenError::InvalidNumberOfRequiredSigners => 16,
        }
    }

    /// The failure with a given code, if there is one.
    pub open spec fn spec_from_u32(code: u32) -> Option<TokenError> {
        match code {
            0 => Some(TokenError::NotRentExempt),
            1 => Some(TokenError::InsufficientFunds),
            2 => Some(TokenError::InvalidMint),
            3 => Some(TokenError::MintMismatch),
            4 => Some(TokenError::OwnerMismatch),
            5 => Some(TokenError::NativeNotSupported),
            6 => Some(TokenError::NonNativeHashBalance),
            7 => Some(TokenError::InvalidInstruction),
            8 => Some(TokenError::Overflow),
            9 => Some(TokenError::AuthorityTypeNotSupported),
            10 => Some(TokenError::AccountFrozen),
            11 => Some(TokenError::MintDecimalsMismatch),
            12 => Some(TokenError::FixedSupply),
            13 => Some(TokenError::MintCannotFreeze),
            14 => Some(TokenError::AlreadyInUse),
            15 => Some(TokenError::InvalidNumberOfProvidedSigners),
            16 => Some(TokenError::InvalidNumberOfRequiredSigners),
            _ => None,
        }
    }

    /// The failure as the host sees it.
    pub open spec fn spec_program_error(self) -> ProgramError {
        ProgramError::Custom(self.spec_code())
    }

    /// The human-readable label of a failure.
    pub open spec fn spec_message(self) -> Seq<char> {
        match self {
            TokenError::NotRentExempt => "Lamport balance below rent-exempt threshold"@,
            TokenError::InsufficientFunds => "Insufficient funds"@,
            TokenError::InvalidMint => "Invalid Mint"@,
            TokenError::MintMismatch => "Account not associated with this Mint"@,
            TokenError::OwnerMismatch => "Owner does not match"@,
            TokenError::NativeNotSupported => "Instruction does not support native tokens"@,
            TokenError::NonNativeHashBalance => "Non-native account can only be closed if its balance is zero"@,
            TokenError::InvalidInstruction => "Invalid instruction"@,
            TokenError::Overflow => "Operation overflowed"@,
            TokenError::AuthorityTypeNotSupported => "Account does not support specified authority type"@,
            TokenError::AccountFrozen => "Account is frozen"@,
            TokenError::MintDecimalsMismatch => "The provided decimals value different from the Mint decimals"@,
            TokenError::FixedSupply => "Fixed supply"@,
            TokenError::MintCannotFreeze => "This token mint cannot freeze accounts"@,
            TokenError::AlreadyInUse => "Already in use"@,
            TokenError::InvalidNumberOfProvidedSigners => "Invalid number of provided signers"@,
            TokenError::InvalidNumberOfRequiredSigners => "Invalid number of required signers"@,
        }
    }

    /// The numeric code under which the host reports this failure.
    pub fn code(&self) -> (code: u32)
        ensures
            code == self.spec_code(),
            code <= 16,
    {
        match self {
            TokenError::NotRentExempt => 0,
            TokenError::InsufficientFunds => 1,
            TokenError::InvalidMint => 2,
            TokenError::MintMismatch => 3,
            TokenError::OwnerMismatch => 4,
            TokenError::NativeNotSupported => 5,
            TokenError::NonNativeHashBalance => 6,
            TokenError::InvalidInstruction => 7,
            TokenError::Overflow => 8,
            TokenError::AuthorityTypeNotSupported => 9,
            TokenError::AccountFrozen => 10,
            TokenError::MintDecimalsMismatch => 11,
            TokenError::FixedSupply => 12,
            TokenError::MintCannotFreeze => 13,
            TokenError::AlreadyInUse => 14,
            TokenError::InvalidNumberOfProvidedSigners => 15,
            TokenError::InvalidNumberOfRequiredSigners => 16,
        }
    }

    /// Decodes a numeric code; `None` for a code that names no failure.
    pub fn from_u32(code: u32) -> (error: Option<TokenError>)
        ensures
            error == TokenError::spec_from_u32(code),
            error is Some <==> code <= 16,
            error matches Some(e) ==> e.spec_code() == code,
    {
        match code {
            0 => Some(TokenError::NotRentExempt),
            1 => Some(TokenError::InsufficientFunds),
            2 => Some(TokenError::InvalidMint),
            3 => Some(TokenError::MintMismatch),
            4 => Some(TokenError::OwnerMismatch),
            5 => Some(TokenError::NativeNotSupported),
            6 => Some(TokenError::NonNativeHashBalance),
            7 => Some(TokenError::InvalidInstruction),
            8 => Some(TokenError::Overflow),
            9 => Some(TokenError::AuthorityTypeNotSupported),
            10 => Some(TokenError::AccountFrozen),
            11 => Some(TokenError::MintDecimalsMismatch),
            12 => Some(TokenError::FixedSupply),
            13 => Some(TokenError::MintCannotFreeze),
            14 => Some(TokenError::AlreadyInUse),
            15 => Some(TokenError::InvalidNumberOfProvidedSigners),
            16 => Some(TokenError::InvalidNumberOfRequiredSigners),
            _ => None,
        }
    }

    /// Codes and failures correspond one to one.
    pub proof fn lemma_code_round_trip(self)
        ensures
            TokenError::spec_from_u32(self.spec_code()) == Some(self),
    {
    }

    /// The label that accompanies the failure when it is reported.
    pub fn message(&self) -> (text: &'static str)
        ensures
            text@ == self.spec_message(),
    {
        match self {
            TokenError::NotRentExempt => "Lamport balance below rent-exempt threshold",
            TokenError::InsufficientFunds => "Insufficient funds",
            TokenError::InvalidMint => "Invalid Mint",
            TokenError::MintMismatch => "Account not associated with this Mint",
            TokenError::OwnerMismatch => "Owner does not match",
            TokenError::NativeNotSupported => "Instruction does not support native tokens",
            TokenError::NonNativeHashBalance => "Non-native account can only be closed if its balance is zero",
            TokenError::InvalidInstruction => "Invalid instruction",
            TokenError::Overflow => "Operation overflowed",
            TokenError::AuthorityTypeNotSupported => "Account does not support specified authority type",
            TokenError::AccountFrozen => "Account is frozen",
            TokenError::MintDecimalsMismatch => "The provided decimals value different from the Mint decimals",
            TokenError::FixedSupply => "Fixed supply",
            TokenError::MintCannotFreeze => "This token mint cannot freeze accounts",
            TokenError::AlreadyInUse => "Already in use",
            TokenError::InvalidNumberOfProvidedSigners => "Invalid number of provided signers",
            TokenError::InvalidNumberOfRequiredSigners => "Invalid number of required signers",
        }
    }

    /// The name under which the host files these failures.
    pub fn type_of() -> (name: &'static str)
        ensures
            name@ == "TokenError"@,
    {
        "TokenError"
    }
}

impl From<TokenError> for ProgramError {
    fn from(e: TokenError) -> (error: ProgramError) {
        ProgramError::Custom(e.code())
    }
}

impl FromSpecImpl<TokenError> for ProgramError {
    open spec fn obeys_from_spec() -> bool {
        true
    }

    open spec fn from_spec(e: TokenError) -> ProgramError {
        e.spec_program_error()
    }
}

} // verus!
