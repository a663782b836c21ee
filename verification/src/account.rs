//! The dispatcher's view of one ledger account.

use vstd::prelude::*;
use crate::address::Address;

verus! {

/// One ledger account as it is presented to an invocation.
#[derive(Clone, Debug, PartialEq, Eq)]
pub struct AccountDescriptor {
    pub address: Address,
    pub owner: Address,
    pub data: Vec<u8>,
    pub balance: u64,
    pub is_signer: bool,
    pub is_writable: bool,
    pub is_executable: bool,
}

/// The mathematical content of an account descriptor.
pub struct AccountView {
    pub address: Seq<u8>,
    pub owner: Seq<u8>,
    pub data: Seq<u8>,
    pub balance: u64,
    pub is_signer: bool,
    pub is_writable: bool,
    pub is_executable: bool,
}

impl View for AccountDescriptor {
    type V = AccountView;

    open spec fn view(&self) -> AccountView {
        AccountView {
            address: self.address@,
            owner: self.owner@,
            data: self.data@,
            balance: self.balance,
            is_signer: self.is_signer,
            is_writable: self.is_writable,
            is_executable: self.is_executable,
        }
    }
}

/// The contents of a list of accounts, slot by slot.
pub open spec fn account_views(accounts: Seq<AccountDescriptor>) -> Seq<AccountView> {
    Seq::new(accounts.len(), |i: int| accounts[i]@)
}

impl AccountView {
    /// This account with another balance.
    pub open spec fn with_balance(self, balance: u64) -> AccountView {
        AccountView { balance, ..self }
    }

    /// This account with other data.
    pub open spec fn with_data(self, data: Seq<u8>) -> AccountView {
        AccountView { data, ..self }
    }

    /// Whether two accounts differ in nothing but data and balance, the
    /// two fields a handler may write.
    pub open spec fn same_identity(self, other: AccountView) -> bool {
        &&& self.address == other.address
        &&& self.owner == other.owner
        &&& self.is_signer == other.is_signer
        &&& self.is_writable == other.is_writable
        &&& self.is_executable == other.is_executable
    }
}

} // verus!
