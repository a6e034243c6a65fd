use token::error::{ProgramError, TokenError};

const ALL: [TokenError; 17] = [
    TokenError::NotRentExempt,
    TokenError::InsufficientFunds,
    TokenError::InvalidMint,
    TokenError::MintMismatch,
    TokenError::OwnerMismatch,
    TokenError::NativeNotSupported,
    TokenError::NonNativeHashBalance,
    TokenError::InvalidInstruction,
    TokenError::Overflow,
    TokenError::AuthorityTypeNotSupported,
    TokenError::AccountFrozen,
    TokenError::MintDecimalsMismatch,
    TokenError::FixedSupply,
    TokenError::MintCannotFreeze,
    TokenError::AlreadyInUse,
    TokenError::InvalidNumberOfProvidedSigners,
    TokenError::InvalidNumberOfRequiredSigners,
];

#[test]
fn codes_follow_the_enumeration() {
    for (position, error) in ALL.iter().enumerate() {
        assert_eq!(error.code() as usize, position);
    }
    assert_eq!(TokenError::NotRentExempt.code(), 0);
    assert_eq!(TokenError::InvalidInstruction.code(), 7);
    assert_eq!(TokenError::Overflow.code(), 8);
    assert_eq!(TokenError::AccountFrozen.code(), 10);
    assert_eq!(TokenError::FixedSupply.code(), 12);
}

#[test]
fn codes_decode_to_their_errors() {
    for error in ALL.iter() {
        assert_eq!(TokenError::from_u32(error.code()), Some(*error));
    }
    assert_eq!(TokenError::from_u32(17), None);
    assert_eq!(TokenError::from_u32(u32::MAX), None);
}

#[test]
fn token_errors_become_custom_program_errors() {
    assert_eq!(ProgramError::from(TokenError::InsufficientFunds), ProgramError::Custom(1));
    assert_eq!(ProgramError::from(TokenError::MintDecimalsMismatch), ProgramError::Custom(11));
    let converted: ProgramError = TokenError::OwnerMismatch.into();
    assert_eq!(converted, ProgramError::Custom(4));
}

#[test]
fn messages_name_the_failure() {
    assert_eq!(TokenError::InsufficientFunds.message(), "Insufficient funds");
    assert_eq!(TokenError::AccountFrozen.message(), "Account is frozen");
    assert_eq!(
        TokenError::NonNativeHashBalance.message(),
        "Non-native account can only be closed if its balance is zero"
    );
    assert_eq!(
        TokenError::MintDecimalsMismatch.message(),
        "The provided decimals value different from the Mint decimals"
    );
    for error in ALL.iter() {
        assert!(!error.message().is_empty());
    }
    assert_eq!(TokenError::type_of(), "TokenError");
}
