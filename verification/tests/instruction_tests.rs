use token::error::ProgramError;
use token::instruction::{AuthorityType, TokenInstruction, MAX_SIGNERS, MID_SIGNERS};
use token::pubkey::Pubkey;

fn key(n: u8) -> Pubkey {
    Pubkey([n; 32])
}

fn invalid() -> ProgramError {
    ProgramError::Custom(7)
}

fn every_variant() -> Vec<TokenInstruction> {
    vec![
        TokenInstruction::InitializeMint {
            decimals: 2,
            mint_authority: key(1),
            freeze_authority: None,
        },
        TokenInstruction::InitializeMint {
            decimals: 9,
            mint_authority: key(2),
            freeze_authority: Some(key(3)),
        },
        TokenInstruction::InitializeAccount,
        TokenInstruction::InitializeMultisig { m: 1 },
        TokenInstruction::Transfer { amount: 1 },
        TokenInstruction::Approve { amount: u64::MAX },
        TokenInstruction::Revoke,
        TokenInstruction::SetAuthority {
            authority_type: AuthorityType::MintTokens,
            new_authority: None,
        },
        TokenInstruction::SetAuthority {
            authority_type: AuthorityType::FreezeAccount,
            new_authority: Some(key(4)),
        },
        TokenInstruction::SetAuthority {
            authority_type: AuthorityType::AccountOwner,
            new_authority: Some(key(5)),
        },
        TokenInstruction::SetAuthority {
            authority_type: AuthorityType::CloseAccount,
            new_authority: None,
        },
        TokenInstruction::MintTo { amount: 0x0102_0304_0506_0708 },
        TokenInstruction::Burn { amount: 0 },
        TokenInstruction::CloseAccount,
        TokenInstruction::InitializeAccount2 { owner: key(6) },
        TokenInstruction::InitializeMultisig2 { m: 11 },
        TokenInstruction::InitializeMint2 {
            decimals: 0,
            mint_authority: key(7),
            freeze_authority: Some(key(8)),
        },
    ]
}

#[test]
fn signer_bounds() {
    assert_eq!(MID_SIGNERS, 1);
    assert_eq!(MAX_SIGNERS, 11);
}

#[test]
fn unpack_undoes_pack_for_every_variant() {
    for instruction in every_variant() {
        let packed = instruction.pack();
        assert_eq!(TokenInstruction::unpack(&packed), Ok(instruction));
    }
}

#[test]
fn packed_length_is_the_width_of_the_variant() {
    let widths = [67, 67, 1, 2, 9, 9, 1, 35, 35, 35, 35, 9, 9, 1, 33, 2, 67];
    for (instruction, width) in every_variant().iter().zip(widths.iter()) {
        assert_eq!(instruction.pack().len(), *width);
    }
}

#[test]
fn pack_initialize_mint_without_freeze_authority() {
    let packed = TokenInstruction::InitializeMint {
        decimals: 2,
        mint_authority: key(1),
        freeze_authority: None,
    }
    .pack();
    let mut expected = vec![0u8, 2];
    expected.extend_from_slice(&[1u8; 32]);
    expected.push(0);
    expected.extend_from_slice(&[0u8; 32]);
    assert_eq!(packed, expected);
}

#[test]
fn pack_initialize_mint_with_freeze_authority() {
    let packed = TokenInstruction::InitializeMint2 {
        decimals: 6,
        mint_authority: key(2),
        freeze_authority: Some(key(3)),
    }
    .pack();
    let mut expected = vec![12u8, 6];
    expected.extend_from_slice(&[2u8; 32]);
    expected.push(1);
    expected.extend_from_slice(&[3u8; 32]);
    assert_eq!(packed, expected);
}

#[test]
fn pack_instructions_without_fields() {
    assert_eq!(TokenInstruction::InitializeAccount.pack(), vec![1u8]);
    assert_eq!(TokenInstruction::Revoke.pack(), vec![5u8]);
    assert_eq!(TokenInstruction::CloseAccount.pack(), vec![9u8]);
}

#[test]
fn pack_amounts_little_endian() {
    assert_eq!(
        TokenInstruction::Transfer { amount: 1 }.pack(),
        vec![3u8, 1, 0, 0, 0, 0, 0, 0, 0]
    );
    assert_eq!(
        TokenInstruction::Approve { amount: 0x0102_0304_0506_0708 }.pack(),
        vec![4u8, 8, 7, 6, 5, 4, 3, 2, 1]
    );
    assert_eq!(
        TokenInstruction::MintTo { amount: 1000 }.pack(),
        vec![7u8, 0xe8, 0x03, 0, 0, 0, 0, 0, 0]
    );
    assert_eq!(
        TokenInstruction::Burn { amount: u64::MAX }.pack(),
        vec![8u8, 255, 255, 255, 255, 255, 255, 255, 255]
    );
}

#[test]
fn pack_multisig_thresholds() {
    assert_eq!(TokenInstruction::InitializeMultisig { m: 3 }.pack(), vec![2u8, 3]);
    assert_eq!(TokenInstruction::InitializeMultisig2 { m: 7 }.pack(), vec![11u8, 7]);
}

#[test]
fn pack_set_authority() {
    let packed = TokenInstruction::SetAuthority {
        authority_type: AuthorityType::CloseAccount,
        new_authority: Some(key(9)),
    }
    .pack();
    let mut expected = vec![6u8, 3, 1];
    expected.extend_from_slice(&[9u8; 32]);
    assert_eq!(packed, expected);

    let packed = TokenInstruction::SetAuthority {
        authority_type: AuthorityType::MintTokens,
        new_authority: None,
    }
    .pack();
    let mut expected = vec![6u8, 0, 0];
    expected.extend_from_slice(&[0u8; 32]);
    assert_eq!(packed, expected);
}

#[test]
fn pack_initialize_account2() {
    let packed = TokenInstruction::InitializeAccount2 { owner: key(6) }.pack();
    let mut expected = vec![10u8];
    expected.extend_from_slice(&[6u8; 32]);
    assert_eq!(packed, expected);
}

#[test]
fn unpack_rejects_empty_input() {
    assert_eq!(TokenInstruction::unpack(&[]), Err(invalid()));
}

#[test]
fn unpack_rejects_unknown_opcodes() {
    for tag in 13u8..=255 {
        assert_eq!(TokenInstruction::unpack(&[tag; 80]), Err(invalid()));
    }
}

#[test]
fn unpack_rejects_input_shorter_than_the_variant() {
    for instruction in every_variant() {
        let packed = instruction.pack();
        for cut in 0..packed.len() {
            assert_eq!(TokenInstruction::unpack(&packed[..cut]), Err(invalid()));
        }
    }
}

#[test]
fn unpack_ignores_bytes_after_the_variant() {
    for instruction in every_variant() {
        let mut packed = instruction.pack();
        packed.extend_from_slice(&[0xAB, 0xCD]);
        assert_eq!(TokenInstruction::unpack(&packed), Ok(instruction));
    }
}

#[test]
fn unpack_absent_key_does_not_read_the_filler() {
    let mut input = vec![6u8, 2, 0];
    input.extend_from_slice(&[0x55u8; 32]);
    assert_eq!(
        TokenInstruction::unpack(&input),
        Ok(TokenInstruction::SetAuthority {
            authority_type: AuthorityType::AccountOwner,
            new_authority: None,
        })
    );
}

#[test]
fn unpack_rejects_bad_presence_flag() {
    let mut input = vec![6u8, 0, 2];
    input.extend_from_slice(&[0u8; 32]);
    assert_eq!(TokenInstruction::unpack(&input), Err(invalid()));

    let mut input = vec![0u8, 2];
    input.extend_from_slice(&[1u8; 32]);
    input.push(7);
    input.extend_from_slice(&[0u8; 32]);
    assert_eq!(TokenInstruction::unpack(&input), Err(invalid()));
}

#[test]
fn unpack_rejects_bad_authority_type() {
    let mut input = vec![6u8, 4, 0];
    input.extend_from_slice(&[0u8; 32]);
    assert_eq!(TokenInstruction::unpack(&input), Err(invalid()));
}

#[test]
fn authority_type_bytes() {
    assert_eq!(AuthorityType::into(&AuthorityType::MintTokens), 0);
    assert_eq!(AuthorityType::into(&AuthorityType::FreezeAccount), 1);
    assert_eq!(AuthorityType::into(&AuthorityType::AccountOwner), 2);
    assert_eq!(AuthorityType::into(&AuthorityType::CloseAccount), 3);
    assert_eq!(AuthorityType::from(0), Ok(AuthorityType::MintTokens));
    assert_eq!(AuthorityType::from(1), Ok(AuthorityType::FreezeAccount));
    assert_eq!(AuthorityType::from(2), Ok(AuthorityType::AccountOwner));
    assert_eq!(AuthorityType::from(3), Ok(AuthorityType::CloseAccount));
    for index in 4u8..=255 {
        assert_eq!(AuthorityType::from(index), Err(invalid()));
    }
}
