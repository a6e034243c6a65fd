use token::account_info::AccountInfo;
use token::error::ProgramError;
use token::native_mint;
use token::processor::Processor;
use token::pubkey::Pubkey;
use token::rent::rent_check;
use token::state::{
    Account, AccountState, Mint, Multisig, ACCOUNT_LEN, MINT_LEN, MULTISIG_LEN,
};

const MINT: u8 = 50;
const OWNER: u8 = 60;
const MINTER: u8 = 70;
const MINT_RENT: u64 = 1_419_840;
const ACCOUNT_RENT: u64 = 1_976_640;
const MULTISIG_RENT: u64 = 3_361_680;

fn key(n: u8) -> Pubkey {
    Pubkey([n; 32])
}

fn program() -> Pubkey {
    token::id()
}

fn rent_key() -> Pubkey {
    Pubkey(solana_program::sysvar::rent::id().to_bytes())
}

fn rent_data(lamports_per_byte_year: u64, exemption_threshold: f64) -> Vec<u8> {
    let mut data = Vec::new();
    data.extend_from_slice(&lamports_per_byte_year.to_le_bytes());
    data.extend_from_slice(&exemption_threshold.to_le_bytes());
    data.push(50);
    data
}

fn rent_info() -> AccountInfo {
    AccountInfo::new(rent_key(), false, 1, rent_data(3480, 2.0), key(201))
}

fn blank(n: u8, lamports: u64, len: usize) -> AccountInfo {
    AccountInfo::new(key(n), false, lamports, vec![0u8; len], program())
}

fn mint_info() -> AccountInfo {
    let mut data = vec![0u8; MINT_LEN];
    let mint = Mint {
        mint_authority: Some(key(MINTER)),
        supply: 0,
        decimals: 2,
        is_initialized: true,
        freeze_authority: None,
    };
    Mint::pack(mint, &mut data).unwrap();
    AccountInfo::new(key(MINT), false, MINT_RENT, data, program())
}

fn wallet(n: u8) -> AccountInfo {
    AccountInfo::new(key(n), false, 0, Vec::new(), key(200))
}

fn custom(code: u32) -> Result<(), ProgramError> {
    Err(ProgramError::Custom(code))
}

fn new_account(mint: Pubkey, owner: u8, is_native: Option<u64>) -> Account {
    Account {
        mint,
        owner: key(owner),
        amount: 0,
        delegate: None,
        state: AccountState::Initialized,
        is_native,
        delegated_amount: 0,
        close_authority: None,
    }
}

#[test]
fn rent_thresholds_are_those_of_the_host() {
    let rent = solana_program::rent::Rent::default();
    assert_eq!(rent.lamports_per_byte_year, 3480);
    assert_eq!(rent.minimum_balance(MINT_LEN), MINT_RENT);
    assert_eq!(rent.minimum_balance(ACCOUNT_LEN), ACCOUNT_RENT);
    assert_eq!(rent.minimum_balance(MULTISIG_LEN), MULTISIG_RENT);
}

#[test]
fn rent_check_compares_with_the_minimum_balance() {
    assert_eq!(rent_check(&rent_info(), MINT_RENT, MINT_LEN), Ok(true));
    assert_eq!(rent_check(&rent_info(), MINT_RENT - 1, MINT_LEN), Ok(false));
    assert_eq!(rent_check(&rent_info(), u64::MAX, MINT_LEN), Ok(true));
    assert_eq!(rent_check(&rent_info(), 0, 0), Ok(false));
    assert_eq!(rent_check(&rent_info(), 128 * 3480 * 2, 0), Ok(true));
    let mut free = rent_info();
    free.data = rent_data(0, 2.0);
    assert_eq!(rent_check(&free, 0, 1_000_000), Ok(true));
    let mut halved = rent_info();
    halved.data = rent_data(3480, 0.5);
    assert_eq!(rent_check(&halved, 354_960 - 1, MINT_LEN), Ok(false));
    assert_eq!(rent_check(&halved, 354_960, MINT_LEN), Ok(true));
}

#[test]
fn rent_check_needs_the_rent_account() {
    let mut other = rent_info();
    other.key = key(9);
    assert_eq!(rent_check(&other, u64::MAX, MINT_LEN), Err(ProgramError::InvalidArgument));
    let mut short = rent_info();
    short.data.truncate(16);
    assert_eq!(rent_check(&short, u64::MAX, MINT_LEN), Err(ProgramError::InvalidArgument));
    let mut empty = rent_info();
    empty.data.clear();
    assert_eq!(rent_check(&empty, u64::MAX, MINT_LEN), Err(ProgramError::InvalidArgument));
    let mut longer = rent_info();
    longer.data.extend_from_slice(&[9, 9, 9]);
    assert_eq!(rent_check(&longer, MINT_RENT, MINT_LEN), Ok(true));
}

#[test]
fn rent_check_refuses_a_price_beyond_64_bits() {
    let mut steep = rent_info();
    steep.data = rent_data(u64::MAX, 2.0);
    assert_eq!(rent_check(&steep, u64::MAX, MINT_LEN), Err(ProgramError::InvalidArgument));
    steep.data = rent_data(u64::MAX / 204 + 1, 2.0);
    assert_eq!(rent_check(&steep, u64::MAX, MINT_LEN), Err(ProgramError::InvalidArgument));
    steep.data = rent_data(u64::MAX / 204, 2.0);
    assert_eq!(rent_check(&steep, u64::MAX, MINT_LEN), Ok(true));
    assert_eq!(rent_check(&steep, u64::MAX - 1, MINT_LEN), Ok(false));
}

#[test]
fn initialize_mint_writes_the_mint() {
    let mut accounts = vec![blank(MINT, MINT_RENT, MINT_LEN), rent_info()];
    assert_eq!(
        Processor::process_initialize_mint(&mut accounts, 2, key(MINTER), Some(key(71))),
        Ok(())
    );
    assert_eq!(
        Mint::unpack(&accounts[0].data),
        Ok(Mint {
            mint_authority: Some(key(MINTER)),
            supply: 0,
            decimals: 2,
            is_initialized: true,
            freeze_authority: Some(key(71)),
        })
    );
    assert_eq!(accounts[0].lamports, MINT_RENT);
    assert_eq!(accounts[1], rent_info());
}

#[test]
fn initialize_mint_checks_rent() {
    let mut accounts = vec![blank(MINT, MINT_RENT - 1, MINT_LEN), rent_info()];
    let before = accounts.clone();
    assert_eq!(Processor::process_initialize_mint(&mut accounts, 2, key(MINTER), None), custom(0));
    assert_eq!(accounts, before);

    let mut accounts = vec![blank(MINT, MINT_RENT - 1, MINT_LEN)];
    assert_eq!(
        Processor::process_initialize_mint(&mut accounts, 2, key(MINTER), None),
        Err(ProgramError::NotEnoughAccountKeys)
    );
    let mut accounts = vec![blank(MINT, MINT_RENT, MINT_LEN), wallet(9)];
    assert_eq!(
        Processor::process_initialize_mint(&mut accounts, 2, key(MINTER), None),
        Err(ProgramError::InvalidArgument)
    );
}

#[test]
fn initialize_mint2_makes_no_rent_check() {
    let mut accounts = vec![blank(MINT, 0, MINT_LEN)];
    assert_eq!(Processor::process_initialize_mint2(&mut accounts, 9, key(MINTER), None), Ok(()));
    let mint = Mint::unpack(&accounts[0].data).unwrap();
    assert_eq!(mint.decimals, 9);
    assert_eq!(mint.supply, 0);
    assert_eq!(mint.mint_authority, Some(key(MINTER)));
    assert_eq!(mint.freeze_authority, None);
}

#[test]
fn initialize_mint_refuses_a_mint_in_use() {
    let mut accounts = vec![mint_info(), rent_info()];
    let before = accounts.clone();
    assert_eq!(Processor::process_initialize_mint(&mut accounts, 2, key(1), None), custom(14));
    assert_eq!(accounts, before);
    assert_eq!(Processor::process_initialize_mint2(&mut accounts, 2, key(1), None), custom(14));
}

#[test]
fn initialize_mint_needs_a_buffer_of_the_right_width() {
    let mut accounts = vec![blank(MINT, u64::MAX, MINT_LEN + 1), rent_info()];
    assert_eq!(
        Processor::process_initialize_mint(&mut accounts, 2, key(1), None),
        Err(ProgramError::InvalidAccountData)
    );
    let mut accounts: Vec<AccountInfo> = Vec::new();
    assert_eq!(
        Processor::process_initialize_mint2(&mut accounts, 2, key(1), None),
        Err(ProgramError::NotEnoughAccountKeys)
    );
}

#[test]
fn initialize_mint_record_takes_the_rent_verdict() {
    let mut accounts = vec![blank(MINT, 0, MINT_LEN)];
    assert_eq!(Processor::initialize_mint_record(&mut accounts, 2, key(1), None, false), custom(0));
    assert_eq!(accounts, vec![blank(MINT, 0, MINT_LEN)]);
    assert_eq!(Processor::initialize_mint_record(&mut accounts, 2, key(1), None, true), Ok(()));
    assert_eq!(Processor::initialize_mint_record(&mut accounts, 2, key(1), None, true), custom(14));
}

#[test]
fn initialize_account_takes_the_owner_from_an_account() {
    let mut accounts =
        vec![blank(1, ACCOUNT_RENT, ACCOUNT_LEN), mint_info(), wallet(OWNER), rent_info()];
    assert_eq!(Processor::process_initialize_account(&mut accounts), Ok(()));
    assert_eq!(Account::unpack(&accounts[0].data), Ok(new_account(key(MINT), OWNER, None)));
    assert_eq!(accounts[0].lamports, ACCOUNT_RENT);
}

#[test]
fn initialize_account2_takes_the_owner_from_the_instruction() {
    let mut accounts = vec![blank(1, ACCOUNT_RENT, ACCOUNT_LEN), mint_info(), rent_info()];
    assert_eq!(Processor::process_initialize_account2(&mut accounts, key(OWNER)), Ok(()));
    assert_eq!(Account::unpack(&accounts[0].data), Ok(new_account(key(MINT), OWNER, None)));
}

#[test]
fn initialize_account3_makes_no_rent_check() {
    let mut accounts = vec![blank(1, 0, ACCOUNT_LEN), mint_info()];
    assert_eq!(Processor::process_initialize_account3(&mut accounts, key(OWNER)), Ok(()));
    assert_eq!(Account::unpack(&accounts[0].data), Ok(new_account(key(MINT), OWNER, None)));
}

#[test]
fn initialize_account_checks_rent() {
    let mut accounts =
        vec![blank(1, ACCOUNT_RENT - 1, ACCOUNT_LEN), mint_info(), wallet(OWNER), rent_info()];
    let before = accounts.clone();
    assert_eq!(Processor::process_initialize_account(&mut accounts), custom(0));
    assert_eq!(accounts, before);
    let mut accounts = vec![blank(1, ACCOUNT_RENT - 1, ACCOUNT_LEN), mint_info(), rent_info()];
    assert_eq!(Processor::process_initialize_account2(&mut accounts, key(OWNER)), custom(0));
}

#[test]
fn initialize_account_counts_its_accounts() {
    let mut accounts = vec![blank(1, ACCOUNT_RENT, ACCOUNT_LEN), mint_info(), wallet(OWNER)];
    assert_eq!(
        Processor::process_initialize_account(&mut accounts),
        Err(ProgramError::NotEnoughAccountKeys)
    );
    let mut accounts = vec![blank(1, ACCOUNT_RENT, ACCOUNT_LEN), mint_info()];
    assert_eq!(
        Processor::process_initialize_account(&mut accounts),
        Err(ProgramError::NotEnoughAccountKeys)
    );
    assert_eq!(
        Processor::process_initialize_account2(&mut accounts, key(OWNER)),
        Err(ProgramError::NotEnoughAccountKeys)
    );
    let mut accounts = vec![blank(1, ACCOUNT_RENT, ACCOUNT_LEN)];
    assert_eq!(
        Processor::process_initialize_account3(&mut accounts, key(OWNER)),
        Err(ProgramError::NotEnoughAccountKeys)
    );
}

#[test]
fn initialize_account_refuses_an_account_in_use() {
    let mut accounts = vec![blank(1, 0, ACCOUNT_LEN), mint_info()];
    assert_eq!(Processor::process_initialize_account3(&mut accounts, key(OWNER)), Ok(()));
    let before = accounts.clone();
    assert_eq!(Processor::process_initialize_account3(&mut accounts, key(OWNER)), custom(14));
    assert_eq!(accounts, before);
}

#[test]
fn initialize_account_needs_an_initialized_mint() {
    let mut accounts = vec![blank(1, 0, ACCOUNT_LEN), blank(MINT, 0, MINT_LEN)];
    assert_eq!(Processor::process_initialize_account3(&mut accounts, key(OWNER)), custom(2));
    let mut accounts = vec![blank(1, 0, ACCOUNT_LEN), wallet(MINT)];
    assert_eq!(Processor::process_initialize_account3(&mut accounts, key(OWNER)), custom(2));
}

#[test]
fn initialize_account_of_the_native_mint_mirrors_the_balance() {
    let native = AccountInfo::new(native_mint::id(), false, 0, Vec::new(), program());
    let mut accounts = vec![blank(1, 4242, ACCOUNT_LEN), native];
    assert_eq!(Processor::process_initialize_account3(&mut accounts, key(OWNER)), Ok(()));
    let account = Account::unpack(&accounts[0].data).unwrap();
    assert_eq!(account, new_account(native_mint::id(), OWNER, Some(4242)));
    assert!(account.is_native());
    assert_eq!(account.amount, 0);
}

#[test]
fn native_mint_identifier() {
    let expected: solana_program::pubkey::Pubkey =
        "So11111111111111111111111111111111111111112".parse().unwrap();
    assert_eq!(native_mint::id().to_bytes(), expected.to_bytes());
    assert!(native_mint::check_id(&native_mint::id()));
    assert!(!native_mint::check_id(&key(0)));
}

#[test]
fn initialize_multisig_stores_threshold_and_signers() {
    let mut accounts = vec![
        blank(100, MULTISIG_RENT, MULTISIG_LEN),
        rent_info(),
        wallet(1),
        wallet(2),
        wallet(3),
    ];
    assert_eq!(Processor::process_initialize_multisig(&mut accounts, 2), Ok(()));
    let multisig = Multisig::unpack(&accounts[0].data).unwrap();
    assert_eq!(multisig.m, 2);
    assert_eq!(multisig.n, 3);
    assert!(multisig.is_initialized());
    assert_eq!(&multisig.signers[..3], &[key(1), key(2), key(3)]);
    assert_eq!(&multisig.signers[3..], &[Pubkey::default(); 8]);
}

#[test]
fn initialize_multisig2_makes_no_rent_check() {
    let mut accounts = vec![blank(100, 0, MULTISIG_LEN), wallet(1)];
    assert_eq!(Processor::process_initialize_multisig2(&mut accounts, 1), Ok(()));
    let multisig = Multisig::unpack(&accounts[0].data).unwrap();
    assert_eq!((multisig.m, multisig.n), (1, 1));
    assert_eq!(multisig.signers[0], key(1));
}

#[test]
fn initialize_multisig_checks_rent() {
    let mut accounts = vec![blank(100, MULTISIG_RENT - 1, MULTISIG_LEN), rent_info(), wallet(1)];
    let before = accounts.clone();
    assert_eq!(Processor::process_initialize_multisig(&mut accounts, 1), custom(0));
    assert_eq!(accounts, before);
    let mut accounts = vec![blank(100, MULTISIG_RENT, MULTISIG_LEN), wallet(1), wallet(2)];
    assert_eq!(
        Processor::process_initialize_multisig(&mut accounts, 1),
        Err(ProgramError::InvalidArgument)
    );
}

#[test]
fn initialize_multisig_counts_the_signers() {
    let mut accounts = vec![blank(100, 0, MULTISIG_LEN)];
    assert_eq!(Processor::process_initialize_multisig2(&mut accounts, 1), custom(15));
    let mut accounts = vec![blank(100, 0, MULTISIG_LEN)];
    accounts.extend((1u8..=12).map(wallet));
    assert_eq!(Processor::process_initialize_multisig2(&mut accounts, 1), custom(15));
    accounts.pop();
    assert_eq!(Processor::process_initialize_multisig2(&mut accounts, 11), Ok(()));
    let multisig = Multisig::unpack(&accounts[0].data).unwrap();
    assert_eq!((multisig.m, multisig.n), (11, 11));
    for (i, signer) in multisig.signers.iter().enumerate() {
        assert_eq!(*signer, key(i as u8 + 1));
    }
}

#[test]
fn initialize_multisig_bounds_the_threshold() {
    let mut accounts = vec![blank(100, 0, MULTISIG_LEN), wallet(1), wallet(2)];
    assert_eq!(Processor::process_initialize_multisig2(&mut accounts, 0), custom(16));
    assert_eq!(Processor::process_initialize_multisig2(&mut accounts, 3), custom(16));
    assert_eq!(accounts[0], blank(100, 0, MULTISIG_LEN));
    assert_eq!(Processor::process_initialize_multisig2(&mut accounts, 2), Ok(()));
    assert_eq!(Processor::process_initialize_multisig2(&mut accounts, 2), custom(14));
}

#[test]
fn initialize_multisig_record_takes_the_rent_verdict() {
    let mut accounts = vec![blank(100, 0, MULTISIG_LEN), wallet(1), wallet(2)];
    assert_eq!(Processor::initialize_multisig_record(&mut accounts, 1, 1, false), custom(0));
    assert_eq!(
        Processor::initialize_multisig_record(&mut accounts, 1, 0, true),
        Err(ProgramError::NotEnoughAccountKeys)
    );
    assert_eq!(
        Processor::initialize_multisig_record(&mut accounts, 1, 4, true),
        Err(ProgramError::NotEnoughAccountKeys)
    );
    assert_eq!(Processor::initialize_multisig_record(&mut accounts, 1, 3, true), custom(15));
    assert_eq!(Processor::initialize_multisig_record(&mut accounts, 1, 2, true), Ok(()));
    let multisig = Multisig::unpack(&accounts[0].data).unwrap();
    assert_eq!((multisig.m, multisig.n), (1, 1));
    assert_eq!(multisig.signers[0], key(2));
}

#[test]
fn initialize_account_record_takes_the_rent_verdict() {
    let mut accounts = vec![blank(1, 0, ACCOUNT_LEN), mint_info()];
    assert_eq!(Processor::initialize_account_record(&mut accounts, key(OWNER), false), custom(0));
    assert_eq!(Processor::initialize_account_record(&mut accounts, key(OWNER), true), Ok(()));
    assert_eq!(Account::unpack(&accounts[0].data), Ok(new_account(key(MINT), OWNER, None)));
}
