use token::account_info::AccountInfo;
use token::error::ProgramError;
use token::instruction::AuthorityType;
use token::processor::Processor;
use token::pubkey::Pubkey;
use token::state::{Account, AccountState, Mint, ACCOUNT_LEN, MINT_LEN};

const MINT: u8 = 50;
const OWNER: u8 = 60;
const CLOSER: u8 = 62;
const MINTER: u8 = 70;
const FREEZER: u8 = 71;

fn key(n: u8) -> Pubkey {
    Pubkey([n; 32])
}

fn program() -> Pubkey {
    token::id()
}

fn token_account() -> Account {
    Account {
        mint: key(MINT),
        owner: key(OWNER),
        amount: 10,
        delegate: Some(key(61)),
        state: AccountState::Initialized,
        is_native: None,
        delegated_amount: 4,
        close_authority: Some(key(CLOSER)),
    }
}

fn mint() -> Mint {
    Mint {
        mint_authority: Some(key(MINTER)),
        supply: 1000,
        decimals: 2,
        is_initialized: true,
        freeze_authority: Some(key(FREEZER)),
    }
}

fn holding(account: Account) -> AccountInfo {
    let mut data = vec![0u8; ACCOUNT_LEN];
    Account::pack(account, &mut data).unwrap();
    AccountInfo::new(key(1), false, 9, data, program())
}

fn minting(mint: Mint) -> AccountInfo {
    let mut data = vec![0u8; MINT_LEN];
    Mint::pack(mint, &mut data).unwrap();
    AccountInfo::new(key(MINT), false, 3, data, program())
}

fn wallet(n: u8, is_signer: bool) -> AccountInfo {
    AccountInfo::new(key(n), is_signer, 0, Vec::new(), key(200))
}

fn custom(code: u32) -> Result<(), ProgramError> {
    Err(ProgramError::Custom(code))
}

fn set(
    accounts: &mut Vec<AccountInfo>,
    authority_type: AuthorityType,
    new_authority: Option<Pubkey>,
) -> Result<(), ProgramError> {
    Processor::process_set_authority(&program(), accounts, authority_type, new_authority)
}

#[test]
fn new_owner_ends_the_delegation() {
    let mut accounts = vec![holding(token_account()), wallet(OWNER, true)];
    assert_eq!(set(&mut accounts, AuthorityType::AccountOwner, Some(key(5))), Ok(()));
    assert_eq!(
        Account::unpack(&accounts[0].data),
        Ok(Account { owner: key(5), delegate: None, delegated_amount: 0, ..token_account() })
    );
}

#[test]
fn new_owner_of_a_native_account_ends_the_close_authority() {
    let native = Account { is_native: Some(3), ..token_account() };
    let mut accounts = vec![holding(native), wallet(OWNER, true)];
    assert_eq!(set(&mut accounts, AuthorityType::AccountOwner, Some(key(5))), Ok(()));
    assert_eq!(
        Account::unpack(&accounts[0].data),
        Ok(Account {
            owner: key(5),
            delegate: None,
            delegated_amount: 0,
            close_authority: None,
            ..native
        })
    );
}

#[test]
fn new_owner_must_be_present() {
    let mut accounts = vec![holding(token_account()), wallet(OWNER, true)];
    let before = accounts.clone();
    assert_eq!(set(&mut accounts, AuthorityType::AccountOwner, None), custom(7));
    assert_eq!(accounts, before);
}

#[test]
fn new_owner_needs_the_owner() {
    let mut accounts = vec![holding(token_account()), wallet(CLOSER, true)];
    assert_eq!(set(&mut accounts, AuthorityType::AccountOwner, Some(key(5))), custom(4));
    let mut accounts = vec![holding(token_account()), wallet(OWNER, false)];
    assert_eq!(
        set(&mut accounts, AuthorityType::AccountOwner, Some(key(5))),
        Err(ProgramError::MissingRequiredSignature)
    );
}

#[test]
fn close_authority_is_replaced_by_itself() {
    let mut accounts = vec![holding(token_account()), wallet(CLOSER, true)];
    assert_eq!(set(&mut accounts, AuthorityType::CloseAccount, Some(key(5))), Ok(()));
    assert_eq!(
        Account::unpack(&accounts[0].data),
        Ok(Account { close_authority: Some(key(5)), ..token_account() })
    );
    let mut accounts = vec![holding(token_account()), wallet(OWNER, true)];
    assert_eq!(set(&mut accounts, AuthorityType::CloseAccount, None), custom(4));
}

#[test]
fn close_authority_falls_back_to_the_owner() {
    let plain = Account { close_authority: None, ..token_account() };
    let mut accounts = vec![holding(plain), wallet(OWNER, true)];
    assert_eq!(set(&mut accounts, AuthorityType::CloseAccount, Some(key(CLOSER))), Ok(()));
    assert_eq!(Account::unpack(&accounts[0].data), Ok(token_account()));
    assert_eq!(set(&mut accounts, AuthorityType::CloseAccount, None), custom(4));
    accounts[1] = wallet(CLOSER, true);
    assert_eq!(set(&mut accounts, AuthorityType::CloseAccount, None), Ok(()));
    assert_eq!(Account::unpack(&accounts[0].data), Ok(plain));
}

#[test]
fn account_has_no_mint_or_freeze_authority() {
    for authority_type in [AuthorityType::MintTokens, AuthorityType::FreezeAccount] {
        let mut accounts = vec![holding(token_account()), wallet(OWNER, true)];
        assert_eq!(set(&mut accounts, authority_type, Some(key(5))), custom(9));
    }
}

#[test]
fn frozen_account_keeps_its_authorities() {
    let frozen = Account { state: AccountState::Frozen, ..token_account() };
    for authority_type in [
        AuthorityType::AccountOwner,
        AuthorityType::CloseAccount,
        AuthorityType::MintTokens,
        AuthorityType::FreezeAccount,
    ] {
        let mut accounts = vec![holding(frozen), wallet(OWNER, true)];
        let before = accounts.clone();
        assert_eq!(set(&mut accounts, authority_type, Some(key(5))), custom(10));
        assert_eq!(accounts, before);
    }
}

#[test]
fn mint_authority_is_replaced_by_itself() {
    let mut accounts = vec![minting(mint()), wallet(MINTER, true)];
    assert_eq!(set(&mut accounts, AuthorityType::MintTokens, Some(key(5))), Ok(()));
    assert_eq!(
        Mint::unpack(&accounts[0].data),
        Ok(Mint { mint_authority: Some(key(5)), ..mint() })
    );
    assert_eq!(set(&mut accounts, AuthorityType::MintTokens, Some(key(6))), custom(4));
    let mut accounts = vec![minting(mint()), wallet(MINTER, false)];
    assert_eq!(
        set(&mut accounts, AuthorityType::MintTokens, Some(key(5))),
        Err(ProgramError::MissingRequiredSignature)
    );
}

#[test]
fn freeze_authority_is_replaced_by_itself() {
    let mut accounts = vec![minting(mint()), wallet(FREEZER, true)];
    assert_eq!(set(&mut accounts, AuthorityType::FreezeAccount, None), Ok(()));
    assert_eq!(Mint::unpack(&accounts[0].data), Ok(Mint { freeze_authority: None, ..mint() }));
    assert_eq!(set(&mut accounts, AuthorityType::FreezeAccount, Some(key(FREEZER))), custom(13));
    let mut accounts = vec![minting(mint()), wallet(MINTER, true)];
    assert_eq!(set(&mut accounts, AuthorityType::FreezeAccount, None), custom(4));
}

#[test]
fn mint_has_no_owner_or_close_authority() {
    for authority_type in [AuthorityType::AccountOwner, AuthorityType::CloseAccount] {
        let mut accounts = vec![minting(mint()), wallet(MINTER, true)];
        assert_eq!(set(&mut accounts, authority_type, Some(key(5))), custom(9));
    }
}

#[test]
fn record_of_another_width_is_an_invalid_argument() {
    for len in [0usize, 75, 77, 155, 157, 355] {
        let record = AccountInfo::new(key(1), false, 0, vec![1u8; len], program());
        let mut accounts = vec![record, wallet(OWNER, true)];
        assert_eq!(
            set(&mut accounts, AuthorityType::AccountOwner, Some(key(5))),
            Err(ProgramError::InvalidArgument)
        );
    }
}

#[test]
fn set_authority_needs_two_accounts_and_an_initialized_record() {
    let mut accounts = vec![holding(token_account())];
    assert_eq!(
        set(&mut accounts, AuthorityType::AccountOwner, Some(key(5))),
        Err(ProgramError::NotEnoughAccountKeys)
    );
    let blank = AccountInfo::new(key(1), false, 0, vec![0u8; MINT_LEN], program());
    let mut accounts = vec![blank, wallet(OWNER, true)];
    assert_eq!(
        set(&mut accounts, AuthorityType::MintTokens, Some(key(5))),
        Err(ProgramError::UninitializedAccount)
    );
}

#[test]
fn authority_changes_on_their_own() {
    assert_eq!(
        Processor::set_mint_authority(
            &program(),
            mint(),
            AuthorityType::MintTokens,
            None,
            &wallet(MINTER, true),
            &[]
        ),
        Ok(Mint { mint_authority: None, ..mint() })
    );
    assert_eq!(
        Processor::set_account_authority(
            &program(),
            token_account(),
            AuthorityType::CloseAccount,
            None,
            &wallet(CLOSER, true),
            &[]
        ),
        Ok(Account { close_authority: None, ..token_account() })
    );
}
