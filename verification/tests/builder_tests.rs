use token::error::ProgramError;
use token::instruction::{
    initialize_account, initialize_mint, tranfer, AccountMeta, TokenInstruction,
};
use token::pubkey::Pubkey;
use token::{check_id, check_program_account, id};

fn key(n: u8) -> Pubkey {
    Pubkey([n; 32])
}

fn rent_id() -> Pubkey {
    Pubkey(solana_program::sysvar::rent::id().to_bytes())
}

#[test]
fn program_identifier() {
    let expected: solana_program::pubkey::Pubkey =
        "TokenkegQfeZyiNwAJbNbGKPFXCWuBvf9Ss623VQ5DA".parse().unwrap();
    assert_eq!(id().to_bytes(), expected.to_bytes());
    assert!(check_id(&id()));
    assert!(!check_id(&key(6)));
}

#[test]
fn check_program_account_accepts_only_the_token_program() {
    assert_eq!(check_program_account(&id()), Ok(()));
    assert_eq!(check_program_account(&key(1)), Err(ProgramError::IncorrectProgramId));
    assert_eq!(check_program_account(&Pubkey::default()), Err(ProgramError::IncorrectProgramId));
}

#[test]
fn rent_identifier_is_that_of_the_host() {
    let instruction = initialize_mint(&id(), &key(1), &key(2), None, 0).unwrap();
    assert_eq!(instruction.accounts[1].pubkey, rent_id());
    assert_eq!(
        instruction.accounts[1].pubkey.to_bytes(),
        [
            6, 167, 213, 23, 25, 44, 92, 81, 33, 140, 201, 76, 61, 74, 241, 127, 88, 218, 238, 8,
            155, 161, 253, 68, 227, 219, 217, 138, 0, 0, 0, 0
        ]
    );
    assert_ne!(instruction.accounts[1].pubkey, Pubkey::default());
}

#[test]
fn initialize_mint_instruction() {
    let instruction = initialize_mint(&id(), &key(1), &key(2), Some(&key(3)), 6).unwrap();
    assert_eq!(instruction.program_id, id());
    assert_eq!(
        instruction.accounts,
        vec![AccountMeta::new(key(1), false), AccountMeta::new_readonly(rent_id(), false)]
    );
    assert_eq!(
        TokenInstruction::unpack(&instruction.data),
        Ok(TokenInstruction::InitializeMint {
            decimals: 6,
            mint_authority: key(2),
            freeze_authority: Some(key(3)),
        })
    );
    assert_eq!(instruction.data.len(), 67);
    let without = initialize_mint(&id(), &key(1), &key(2), None, 6).unwrap();
    assert_eq!(
        TokenInstruction::unpack(&without.data),
        Ok(TokenInstruction::InitializeMint {
            decimals: 6,
            mint_authority: key(2),
            freeze_authority: None,
        })
    );
}

#[test]
fn initialize_account_instruction() {
    let instruction = initialize_account(&id(), &key(1), &key(2), &key(3)).unwrap();
    assert_eq!(instruction.program_id, id());
    assert_eq!(
        instruction.accounts,
        vec![
            AccountMeta { pubkey: key(1), is_signer: false, is_writable: true },
            AccountMeta { pubkey: key(2), is_signer: false, is_writable: false },
            AccountMeta { pubkey: key(3), is_signer: false, is_writable: false },
            AccountMeta { pubkey: rent_id(), is_signer: false, is_writable: true },
        ]
    );
    assert_eq!(instruction.data, vec![1u8]);
}

#[test]
fn transfer_instruction_with_a_single_authority() {
    let instruction = tranfer(&id(), &key(1), &key(2), &key(3), &[], 400).unwrap();
    assert_eq!(instruction.program_id, id());
    assert_eq!(
        instruction.accounts,
        vec![
            AccountMeta { pubkey: key(1), is_signer: false, is_writable: true },
            AccountMeta { pubkey: key(2), is_signer: false, is_writable: true },
            AccountMeta { pubkey: key(3), is_signer: true, is_writable: false },
        ]
    );
    assert_eq!(instruction.data, vec![3u8, 0x90, 0x01, 0, 0, 0, 0, 0, 0]);
}

#[test]
fn transfer_instruction_with_signers() {
    let first = key(4);
    let second = key(5);
    let instruction = tranfer(&id(), &key(1), &key(2), &key(3), &[&first, &second], 1).unwrap();
    assert_eq!(
        instruction.accounts,
        vec![
            AccountMeta { pubkey: key(1), is_signer: false, is_writable: true },
            AccountMeta { pubkey: key(2), is_signer: false, is_writable: true },
            AccountMeta { pubkey: key(3), is_signer: false, is_writable: false },
            AccountMeta { pubkey: key(4), is_signer: true, is_writable: false },
            AccountMeta { pubkey: key(5), is_signer: true, is_writable: false },
        ]
    );
}

#[test]
fn builders_refuse_another_program() {
    let other = key(9);
    assert_eq!(
        initialize_mint(&other, &key(1), &key(2), None, 0),
        Err(ProgramError::IncorrectProgramId)
    );
    assert_eq!(
        initialize_account(&other, &key(1), &key(2), &key(3)),
        Err(ProgramError::IncorrectProgramId)
    );
    assert_eq!(
        tranfer(&other, &key(1), &key(2), &key(3), &[], 1),
        Err(ProgramError::IncorrectProgramId)
    );
}

#[test]
fn account_meta_constructors() {
    assert_eq!(
        AccountMeta::new(key(1), true),
        AccountMeta { pubkey: key(1), is_signer: true, is_writable: true }
    );
    assert_eq!(
        AccountMeta::new_readonly(key(1), false),
        AccountMeta { pubkey: key(1), is_signer: false, is_writable: false }
    );
}
