use token::account_info::AccountInfo;
use token::error::ProgramError;
use token::processor::Processor;
use token::pubkey::Pubkey;
use token::state::{Account, AccountState, Mint, Multisig, ACCOUNT_LEN, MINT_LEN, MULTISIG_LEN};

const MINT: u8 = 50;
const OWNER: u8 = 60;
const DELEGATE: u8 = 61;

fn key(n: u8) -> Pubkey {
    Pubkey([n; 32])
}

fn program() -> Pubkey {
    token::id()
}

fn token_account(amount: u64) -> Account {
    Account {
        mint: key(MINT),
        owner: key(OWNER),
        amount,
        delegate: None,
        state: AccountState::Initialized,
        is_native: None,
        delegated_amount: 0,
        close_authority: None,
    }
}

fn holding(n: u8, lamports: u64, account: Account) -> AccountInfo {
    let mut data = vec![0u8; ACCOUNT_LEN];
    Account::pack(account, &mut data).unwrap();
    AccountInfo::new(key(n), false, lamports, data, program())
}

fn mint_info(decimals: u8) -> AccountInfo {
    let mut data = vec![0u8; MINT_LEN];
    let mint = Mint {
        mint_authority: Some(key(70)),
        supply: 5000,
        decimals,
        is_initialized: true,
        freeze_authority: None,
    };
    Mint::pack(mint, &mut data).unwrap();
    AccountInfo::new(key(MINT), false, 0, data, program())
}

fn wallet(n: u8, is_signer: bool) -> AccountInfo {
    AccountInfo::new(key(n), is_signer, 0, Vec::new(), key(200))
}

fn read(info: &AccountInfo) -> Account {
    Account::unpack(&info.data).unwrap()
}

fn custom(code: u32) -> Result<(), ProgramError> {
    Err(ProgramError::Custom(code))
}

#[test]
fn transfer_moves_the_amount() {
    let mut accounts = vec![
        holding(1, 10, token_account(1000)),
        holding(2, 20, token_account(5)),
        wallet(OWNER, true),
    ];
    assert_eq!(Processor::process_transfer(&program(), &mut accounts, 400, None), Ok(()));
    assert_eq!(read(&accounts[0]), token_account(600));
    assert_eq!(read(&accounts[1]), token_account(405));
    assert_eq!(accounts[0].lamports, 10);
    assert_eq!(accounts[1].lamports, 20);
    assert_eq!(accounts[2], wallet(OWNER, true));
}

#[test]
fn transfer_keeps_the_sum_of_the_two_balances() {
    for (source, dest, amount) in [(1000u64, 0u64, 1000u64), (7, 9, 0), (u64::MAX, 0, 1), (5, 5, 3)] {
        let mut accounts = vec![
            holding(1, 0, token_account(source)),
            holding(2, 0, token_account(dest)),
            wallet(OWNER, true),
        ];
        assert_eq!(Processor::process_transfer(&program(), &mut accounts, amount, None), Ok(()));
        let after_source = read(&accounts[0]).amount;
        let after_dest = read(&accounts[1]).amount;
        assert_eq!(after_source, source - amount);
        assert_eq!(after_dest, dest + amount);
        assert_eq!(after_source as u128 + after_dest as u128, source as u128 + dest as u128);
    }
}

#[test]
fn transfer_needs_three_accounts() {
    let mut accounts = vec![holding(1, 0, token_account(10)), holding(2, 0, token_account(0))];
    assert_eq!(
        Processor::process_transfer(&program(), &mut accounts, 1, None),
        Err(ProgramError::NotEnoughAccountKeys)
    );
    let mut accounts = vec![
        holding(1, 0, token_account(10)),
        mint_info(2),
        holding(2, 0, token_account(0)),
    ];
    assert_eq!(
        Processor::process_transfer(&program(), &mut accounts, 1, Some(2)),
        Err(ProgramError::NotEnoughAccountKeys)
    );
}

#[test]
fn transfer_needs_initialized_accounts() {
    let blank = AccountInfo::new(key(2), false, 0, vec![0u8; ACCOUNT_LEN], program());
    let mut accounts = vec![holding(1, 0, token_account(10)), blank.clone(), wallet(OWNER, true)];
    assert_eq!(
        Processor::process_transfer(&program(), &mut accounts, 1, None),
        Err(ProgramError::UninitializedAccount)
    );
    let short = AccountInfo::new(key(1), false, 0, vec![0u8; 10], program());
    let mut accounts = vec![short, holding(2, 0, token_account(10)), wallet(OWNER, true)];
    assert_eq!(
        Processor::process_transfer(&program(), &mut accounts, 1, None),
        Err(ProgramError::InvalidAccountData)
    );
}

#[test]
fn transfer_refuses_frozen_accounts() {
    let frozen = Account { state: AccountState::Frozen, ..token_account(10) };
    let mut accounts =
        vec![holding(1, 0, frozen), holding(2, 0, token_account(0)), wallet(OWNER, true)];
    let before = accounts.clone();
    assert_eq!(Processor::process_transfer(&program(), &mut accounts, 1, None), custom(10));
    assert_eq!(accounts, before);

    let mut accounts =
        vec![holding(1, 0, token_account(10)), holding(2, 0, frozen), wallet(OWNER, true)];
    let before = accounts.clone();
    assert_eq!(Processor::process_transfer(&program(), &mut accounts, 1, None), custom(10));
    assert_eq!(accounts, before);
}

#[test]
fn transfer_refuses_more_than_the_balance() {
    let mut accounts = vec![
        holding(1, 0, token_account(10)),
        holding(2, 0, token_account(0)),
        wallet(OWNER, true),
    ];
    let before = accounts.clone();
    assert_eq!(Processor::process_transfer(&program(), &mut accounts, 11, None), custom(1));
    assert_eq!(accounts, before);
}

#[test]
fn transfer_refuses_another_mint() {
    let other = Account { mint: key(51), ..token_account(0) };
    let mut accounts =
        vec![holding(1, 0, token_account(10)), holding(2, 0, other), wallet(OWNER, true)];
    assert_eq!(Processor::process_transfer(&program(), &mut accounts, 1, None), custom(3));
}

#[test]
fn transfer_checks_stated_decimals() {
    let mut accounts = vec![
        holding(1, 0, token_account(10)),
        mint_info(2),
        holding(2, 0, token_account(0)),
        wallet(OWNER, true),
    ];
    assert_eq!(Processor::process_transfer(&program(), &mut accounts, 4, Some(3)), custom(11));
    assert_eq!(read(&accounts[0]).amount, 10);
    assert_eq!(Processor::process_transfer(&program(), &mut accounts, 4, Some(2)), Ok(()));
    assert_eq!(read(&accounts[0]).amount, 6);
    assert_eq!(read(&accounts[2]).amount, 4);

    let mut wrong_mint = mint_info(2);
    wrong_mint.key = key(51);
    let mut accounts = vec![
        holding(1, 0, token_account(10)),
        wrong_mint,
        holding(2, 0, token_account(0)),
        wallet(OWNER, true),
    ];
    assert_eq!(Processor::process_transfer(&program(), &mut accounts, 4, Some(2)), custom(3));
}

#[test]
fn transfer_needs_the_owner() {
    let mut accounts = vec![
        holding(1, 0, token_account(10)),
        holding(2, 0, token_account(0)),
        wallet(OWNER, false),
    ];
    assert_eq!(
        Processor::process_transfer(&program(), &mut accounts, 1, None),
        Err(ProgramError::MissingRequiredSignature)
    );
    let mut accounts = vec![
        holding(1, 0, token_account(10)),
        holding(2, 0, token_account(0)),
        wallet(99, true),
    ];
    assert_eq!(Processor::process_transfer(&program(), &mut accounts, 1, None), custom(4));
}

#[test]
fn transfer_by_delegate_draws_on_the_delegation() {
    let delegated =
        Account { delegate: Some(key(DELEGATE)), delegated_amount: 100, ..token_account(1000) };
    let mut accounts =
        vec![holding(1, 0, delegated), holding(2, 0, token_account(0)), wallet(DELEGATE, true)];
    assert_eq!(Processor::process_transfer(&program(), &mut accounts, 60, None), Ok(()));
    let source = read(&accounts[0]);
    assert_eq!(source.amount, 940);
    assert_eq!(source.delegated_amount, 40);
    assert_eq!(source.delegate, Some(key(DELEGATE)));

    assert_eq!(Processor::process_transfer(&program(), &mut accounts, 41, None), custom(1));
    assert_eq!(read(&accounts[0]), source);

    assert_eq!(Processor::process_transfer(&program(), &mut accounts, 40, None), Ok(()));
    let source = read(&accounts[0]);
    assert_eq!(source.amount, 900);
    assert_eq!(source.delegated_amount, 0);
    assert_eq!(source.delegate, None);
    assert_eq!(read(&accounts[1]).amount, 100);

    assert_eq!(Processor::process_transfer(&program(), &mut accounts, 1, None), custom(4));
}

#[test]
fn transfer_by_unsigned_delegate_is_refused() {
    let delegated =
        Account { delegate: Some(key(DELEGATE)), delegated_amount: 100, ..token_account(1000) };
    let mut accounts =
        vec![holding(1, 0, delegated), holding(2, 0, token_account(0)), wallet(DELEGATE, false)];
    assert_eq!(
        Processor::process_transfer(&program(), &mut accounts, 60, None),
        Err(ProgramError::MissingRequiredSignature)
    );
}

#[test]
fn transfer_to_itself_changes_nothing() {
    let delegated =
        Account { delegate: Some(key(DELEGATE)), delegated_amount: 100, ..token_account(1000) };
    for (authority, amount) in
        [(OWNER, 0u64), (OWNER, 1), (OWNER, 1000), (DELEGATE, 1), (DELEGATE, 100)]
    {
        let mut accounts =
            vec![holding(1, 7, delegated), holding(1, 7, delegated), wallet(authority, true)];
        let before = accounts.clone();
        assert_eq!(Processor::process_transfer(&program(), &mut accounts, amount, None), Ok(()));
        assert_eq!(accounts, before);
        assert_eq!(read(&accounts[0]), delegated);
    }
}

#[test]
fn transfer_to_itself_still_runs_the_checks() {
    let delegated =
        Account { delegate: Some(key(DELEGATE)), delegated_amount: 100, ..token_account(1000) };
    let cases = [
        (OWNER, true, 1001u64, custom(1)),
        (DELEGATE, true, 101, custom(1)),
        (OWNER, false, 1, Err(ProgramError::MissingRequiredSignature)),
        (99, true, 1, custom(4)),
    ];
    for (authority, signed, amount, expected) in cases {
        let mut accounts =
            vec![holding(1, 7, delegated), holding(1, 7, delegated), wallet(authority, signed)];
        let before = accounts.clone();
        assert_eq!(Processor::process_transfer(&program(), &mut accounts, amount, None), expected);
        assert_eq!(accounts, before);
    }
}

#[test]
fn transfer_that_overflows_the_destination_is_refused() {
    let mut accounts = vec![
        holding(1, 0, token_account(10)),
        holding(2, 0, token_account(u64::MAX - 5)),
        wallet(OWNER, true),
    ];
    let before = accounts.clone();
    assert_eq!(Processor::process_transfer(&program(), &mut accounts, 6, None), custom(8));
    assert_eq!(accounts, before);
    assert_eq!(Processor::process_transfer(&program(), &mut accounts, 5, None), Ok(()));
    assert_eq!(read(&accounts[1]).amount, u64::MAX);
}

#[test]
fn transfer_between_native_accounts_moves_the_balance() {
    let native = |amount: u64| Account { is_native: Some(100), ..token_account(amount) };
    let mut accounts =
        vec![holding(1, 1100, native(1000)), holding(2, 100, native(0)), wallet(OWNER, true)];
    assert_eq!(Processor::process_transfer(&program(), &mut accounts, 400, None), Ok(()));
    assert_eq!(read(&accounts[0]).amount, 600);
    assert_eq!(read(&accounts[1]).amount, 400);
    assert_eq!(accounts[0].lamports, 700);
    assert_eq!(accounts[1].lamports, 500);
}

#[test]
fn transfer_between_native_accounts_checks_the_balance() {
    let native = |amount: u64| Account { is_native: Some(100), ..token_account(amount) };
    let mut accounts =
        vec![holding(1, 399, native(1000)), holding(2, 100, native(0)), wallet(OWNER, true)];
    let before = accounts.clone();
    assert_eq!(Processor::process_transfer(&program(), &mut accounts, 400, None), custom(8));
    assert_eq!(accounts, before);

    let mut accounts =
        vec![holding(1, 1100, native(1000)), holding(2, u64::MAX, native(0)), wallet(OWNER, true)];
    let before = accounts.clone();
    assert_eq!(Processor::process_transfer(&program(), &mut accounts, 1, None), custom(8));
    assert_eq!(accounts, before);
}

#[test]
fn transfer_with_a_multisig_owner() {
    let mut signers = [Pubkey::default(); 11];
    signers[0] = key(81);
    signers[1] = key(82);
    let mut data = vec![0u8; MULTISIG_LEN];
    Multisig::pack(Multisig { m: 2, n: 2, is_initialized: true, signers }, &mut data).unwrap();
    let authority = AccountInfo::new(key(OWNER), false, 0, data, program());
    let mut accounts = vec![
        holding(1, 0, token_account(10)),
        holding(2, 0, token_account(0)),
        authority.clone(),
        wallet(81, true),
        wallet(82, true),
    ];
    assert_eq!(Processor::process_transfer(&program(), &mut accounts, 3, None), Ok(()));
    assert_eq!(read(&accounts[1]).amount, 3);

    let mut accounts = vec![
        holding(1, 0, token_account(10)),
        holding(2, 0, token_account(0)),
        authority,
        wallet(81, true),
        wallet(81, true),
    ];
    assert_eq!(
        Processor::process_transfer(&program(), &mut accounts, 3, None),
        Err(ProgramError::MissingRequiredSignature)
    );
}

#[test]
fn check_mint_and_authorize_spend() {
    assert_eq!(Processor::check_mint(&key(MINT), &mint_info(4), 4), Ok(()));
    assert_eq!(Processor::check_mint(&key(MINT), &mint_info(4), 5), custom(11));
    assert_eq!(Processor::check_mint(&key(51), &mint_info(4), 4), custom(3));
    let blank = AccountInfo::new(key(MINT), false, 0, vec![0u8; MINT_LEN], program());
    assert_eq!(Processor::check_mint(&key(MINT), &blank, 0), Err(ProgramError::UninitializedAccount));

    let delegated =
        Account { delegate: Some(key(DELEGATE)), delegated_amount: 100, ..token_account(1000) };
    let spend = |authority: u8, amount: u64, draw: bool| {
        Processor::authorize_spend(&program(), delegated, &wallet(authority, true), &[], amount, draw)
    };
    assert_eq!(spend(OWNER, 5000, true), Ok(delegated));
    assert_eq!(spend(DELEGATE, 30, false), Ok(delegated));
    assert_eq!(spend(DELEGATE, 30, true), Ok(Account { delegated_amount: 70, ..delegated }));
    assert_eq!(
        spend(DELEGATE, 100, true),
        Ok(Account { delegated_amount: 0, delegate: None, ..delegated })
    );
    assert_eq!(spend(DELEGATE, 101, true), Err(ProgramError::Custom(1)));
    assert_eq!(spend(99, 1, true), Err(ProgramError::Custom(4)));
}
