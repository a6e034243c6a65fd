//! Account handles: what the host shows of each account that takes part in
//! a call.

use vstd::prelude::*;
use crate::pubkey::Pubkey;

verus! {

/// An account as the host hands it to one call: its identifier, whether that
/// identifier signed the call, the host-held balance, the record buffer and
/// the program that owns the account.
///
/// The processor works on these values and gives them back; two handles
/// with the same identifier stand for the same account.
#[derive(Clone, Debug, PartialEq, Eq)]
pub struct AccountInfo {
    /// Identifier of the account.
    pub key: Pubkey,
    /// Whether the call carries the authenticated signature of `key`.
    pub is_signer: bool,
    /// The host-held balance of the account.
    pub lamports: u64,
    /// The record buffer of the account.
    pub data: Vec<u8>,
    /// The program that owns the account.
    pub owner: Pubkey,
}

/// The mathematical content of an account handle.
pub struct AccountInfoView {
    /// Identifier of the account.
    pub key: Pubkey,
    /// Whether the call carries the authenticated signature of `key`.
    pub is_signer: bool,
    /// The host-held balance of the account.
    pub lamports: u64,
    /// The bytes of the record buffer.
    pub data: Seq<u8>,
    /// The program that owns the account.
    pub owner: Pubkey,
}

impl View for AccountInfo {
    type V = AccountInfoView;

    open spec fn view(&self) -> AccountInfoView {
        AccountInfoView {
            key: self.key,
            is_signer: self.is_signer,
            lamports: self.lamports,
            data: self.data@,
            owner: self.owner,
        }
    }
}

/// The contents of a list of account handles, in order.
pub open spec fn account_views(accounts: Seq<AccountInfo>) -> Seq<AccountInfoView> {
    Seq::new(accounts.len(), |i: int| accounts[i]@)
}

/// Taking a part of a list of handles and viewing it is viewing the list
/// and taking the part.
pub proof fn lemma_account_views_subrange(accounts: Seq<AccountInfo>, from: int, to: int)
    requires
        0 <= from <= to <= accounts.len(),
    ensures
        account_views(accounts.subrange(from, to)) == account_views(accounts).subrange(from, to),
{
    assert(account_views(accounts.subrange(from, to)) =~= account_views(accounts).subrange(
        from,
        to,
    ));
}

impl AccountInfo {
    /// A handle made of its parts.
    pub fn new(key: Pubkey, is_signer: bool, lamports: u64, data: Vec<u8>, owner: Pubkey) -> (info:
        AccountInfo)
        ensures
            info@ == (AccountInfoView { key, is_signer, lamports, data: data@, owner }),
    {
        AccountInfo { key, is_signer, lamports, data, owner }
    }

    /// The length of the record buffer.
    pub fn data_len(&self) -> (len: usize)
        ensures
            len == self@.data.len(),
    {
        self.data.len()
    }

    /// The host-held balance.
    pub fn lamports(&self) -> (lamports: u64)
        ensures
            lamports == self@.lamports,
    {
        self.lamports
    }
}

} // verus!
