//! Account context schemas: what a handler demands of each account slot.

use vstd::prelude::*;
use crate::address::Address;

verus! {

/// The part an account plays in a handler's account list.
#[derive(Clone, Debug, PartialEq, Eq)]
pub enum Role {
    /// The account must have signed the transaction.
    Signer,
    /// The account must be writable; the handler may change its data and
    /// balance.
    Writable,
    /// No demand beyond presence.
    ReadOnly,
    /// The account's address must be the one derived from the program
    /// identity and these seeds.
    ProgramDerived(Vec<Vec<u8>>),
}

/// The constraint on one slot of a handler's account list.
#[derive(Clone, Debug, PartialEq, Eq)]
pub struct SlotConstraint {
    pub role: Role,
    pub expected_owner: Option<Address>,
}

impl SlotConstraint {
    /// Whether a handler may write the account in this slot.
    pub open spec fn grants_write(&self) -> bool {
        self.role is Writable
    }

    /// Whether a handler may write the account in this slot.
    pub fn allows_write(&self) -> (b: bool)
        ensures
            b == self.grants_write(),
    {
        match &self.role {
            Role::Writable => true,
            _ => false,
        }
    }
}

} // verus!
