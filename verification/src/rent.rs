//! The host's rent rules, as far as the ledger consults them.

use vstd::prelude::*;
use vstd::bytes::spec_u64_from_le_bytes;
use solana_program::sysvar::Sysvar;
use crate::account_info::{AccountInfo, AccountInfoView};
use crate::codec::read_u64;
use crate::error::ProgramError;
use crate::pubkey::Pubkey;

verus! {

/// Bytes that the host adds to the length of a record when it prices its
/// storage.
pub const ACCOUNT_STORAGE_OVERHEAD: u64 = 128;

/// The identifier of the account in which the host publishes its rent
/// configuration.
pub open spec fn spec_rent_sysvar_id() -> Pubkey {
    Pubkey(
        [
            6, 167, 213, 23, 25, 44, 92, 81, 33, 140, 201, 76, 61, 74, 241, 127,
            88, 218, 238, 8, 155, 161, 253, 68, 227, 219, 217, 138, 0, 0, 0, 0,
        ],
    )
}

/// What the host's rent rules say of a balance and a record length, read
/// from the rent account with identifier `rent_key` and contents
/// `rent_data`: `Some(true)` when the balance is exempt from rent,
/// `Some(false)` when it is not, `None` when the account does not hold a rent
/// configuration.
pub uninterp spec fn rent_exemption(
    rent_key: Seq<u8>,
    rent_data: Seq<u8>,
    balance: u64,
    data_len: nat,
) -> Option<bool>;

/// Whether the yearly price of a record of `data_len` bytes, at the rate
/// that `rent_data` starts with, fits in 64 bits.
pub open spec fn rent_price_fits(rent_data: Seq<u8>, data_len: nat) -> bool {
    rent_data.len() >= 8 ==> {
        &&& ACCOUNT_STORAGE_OVERHEAD + data_len <= u64::MAX
        &&& (ACCOUNT_STORAGE_OVERHEAD + data_len) * spec_u64_from_le_bytes(
            rent_data.subrange(0, 8),
        ) <= u64::MAX
    }
}

/// The outcome of the rent check: the exemption that the host's rules
/// give, or an invalid argument when the rent account holds no
/// configuration or one whose price does not fit in 64 bits.
pub open spec fn spec_rent_check(rent: AccountInfoView, balance: u64, data_len: nat) -> Result<
    bool,
    ProgramError,
> {
    if !rent_price_fits(rent.data, data_len) {
        Err(ProgramError::InvalidArgument)
    } else {
        match rent_exemption(rent.key@, rent.data, balance, data_len) {
            Some(exempt) => Ok(exempt),
            None => Err(ProgramError::InvalidArgument),
        }
    }
}

/// Calls `solana_program::sysvar::rent::id`. Trusted: the identifier of
/// the rent sysvar is the 32 bytes that `spec_rent_sysvar_id` lists, the
/// decoding of `SysvarRent111111111111111111111111111111111`.
#[verifier::external_body]
pub(crate) fn rent_sysvar_id() -> (id: Pubkey)
    ensures
        id == spec_rent_sysvar_id(),
{
    Pubkey(solana_program::sysvar::rent::id().to_bytes())
}

/// Calls `Rent::from_account_info` on the handle and, where that yields a
/// rent configuration, `Rent::is_exempt` on it. Trusted: the outcome
/// depends on the identifier and contents of the rent account, the
/// balance and the length alone, and there is none when the identifier is
/// not that of the rent sysvar. `is_exempt` multiplies the length plus the
/// storage overhead by the rate, which the configuration holds in its
/// first 8 bytes, little-endian; that product must fit in 64 bits.
#[verifier::external_body]
fn rent_exempt(rent_info: &AccountInfo, balance: u64, data_len: usize) -> (exempt: Option<bool>)
    requires
        rent_price_fits(rent_info@.data, data_len as nat),
    ensures
        exempt == rent_exemption(rent_info@.key@, rent_info@.data, balance, data_len as nat),
        rent_info@.key != spec_rent_sysvar_id() ==> exempt is None,
{
    let key = solana_program::pubkey::Pubkey::new_from_array(rent_info.key.0);
    let owner = solana_program::pubkey::Pubkey::new_from_array(rent_info.owner.0);
    let mut lamports = rent_info.lamports;
    let mut data = rent_info.data.clone();
    let info = solana_program::account_info::AccountInfo::new(
        &key, rent_info.is_signer, false, &mut lamports, &mut data, &owner, false, 0,
    );
    match solana_program::sysvar::rent::Rent::from_account_info(&info) {
        Ok(rent) => Some(rent.is_exempt(balance, data_len)),
        Err(_) => None,
    }
}

/// Whether `balance` exempts a record of `data_len` bytes from rent,
/// according to the configuration in the rent account.
pub fn rent_check(rent_info: &AccountInfo, balance: u64, data_len: usize) -> (r: Result<
    bool,
    ProgramError,
>)
    ensures
        r == spec_rent_check(rent_info@, balance, data_len as nat),
        rent_info@.key != spec_rent_sysvar_id() ==> r is Err,
{
    if rent_info.data.len() >= 8 {
        let rate = read_u64(rent_info.data.as_slice(), 0);
        let fits = match (data_len as u64).checked_add(ACCOUNT_STORAGE_OVERHEAD) {
            Some(bytes) => {
                assert(bytes * rate == (ACCOUNT_STORAGE_OVERHEAD + data_len) * rate)
                    by (nonlinear_arith)
                    requires
                        bytes == ACCOUNT_STORAGE_OVERHEAD + data_len,
                ;
                bytes.checked_mul(rate).is_some()
            },
            None => false,
        };
        if !fits {
            return Err(ProgramError::InvalidArgument);
        }
    }
    match rent_exempt(rent_info, balance, data_len) {
        Some(exempt) => Ok(exempt),
        None => Err(ProgramError::InvalidArgument),
    }
}

} // verus!
