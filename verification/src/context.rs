//! The account context a handler runs in.
//!
//! A context binds each slot of a schema to the account that was validated
//! for it. It borrows the accounts and never copies them. What a handler
//! writes is staged inside the context and reaches the accounts only when
//! the dispatcher commits a successful invocation, so a failed invocation
//! leaves every account as it was.

use vstd::prelude::*;
use crate::account::{account_views, AccountDescriptor, AccountView};
use crate::address::Address;
use crate::schema::SlotConstraint;
use crate::validate::validation_failure;

verus! {

/// Why a handler's access to a slot was refused.
#[derive(Clone, Copy, Debug, PartialEq, Eq, Structural)]
pub enum AccessError {
    /// The context has no slot of that index.
    NoSuchSlot,
    /// The slot's role gives the handler no right to write.
    NotWritable,
}

/// What a handler has written to one slot and the dispatcher has not yet
/// committed.
pub(crate) struct StagedWrite {
    balance: u64,
    data: Option<Vec<u8>>,
}

impl StagedWrite {
    /// The account that results from committing this write to `account`.
    pub(crate) closed spec fn applied_to(&self, account: AccountView) -> AccountView {
        AccountView {
            balance: self.balance,
            data: match self.data {
                Some(bytes) => bytes@,
                None => account.data,
            },
            ..account
        }
    }

    /// Whether committing this write would change nothing.
    pub(crate) closed spec fn keeps(&self, account: AccountView) -> bool {
        self.balance == account.balance && self.data is None
    }
}

/// Each schema slot bound to its validated account, with the handler's
/// staged writes.
pub struct AccountContext<'a> {
    program_id: Address,
    schema: &'a Vec<SlotConstraint>,
    accounts: &'a Vec<AccountDescriptor>,
    staged: Vec<StagedWrite>,
}

impl<'a> AccountContext<'a> {
    /// The identity of the program the accounts were validated for.
    pub closed spec fn program_id(&self) -> Address {
        self.program_id
    }

    /// The schema the accounts were validated against.
    pub closed spec fn schema(&self) -> Seq<SlotConstraint> {
        self.schema@
    }

    /// The accounts as they were when the invocation began.
    pub closed spec fn base(&self) -> Seq<AccountDescriptor> {
        self.accounts@
    }

    /// The accounts as the handler currently sees them: the base accounts
    /// with the staged writes applied.
    pub closed spec fn current(&self) -> Seq<AccountView> {
        Seq::new(self.accounts@.len(), |i: int| self.staged@[i].applied_to(self.accounts@[i]@))
    }

    /// The context's invariant: the accounts satisfy the schema, there
    /// is one staging cell per slot, and nothing is staged where the
    /// schema grants no write.
    pub closed spec fn wf(&self) -> bool {
        &&& validation_failure(self.program_id@, self.schema@, self.accounts@) is None
        &&& self.schema@.len() == self.accounts@.len()
        &&& self.staged@.len() == self.accounts@.len()
        &&& forall|i: int|
            0 <= i < self.accounts@.len() && !(#[trigger] self.schema@[i]).grants_write()
                ==> self.staged@[i].keeps(self.accounts@[i]@)
    }

    /// In a well-formed context the accounts pass validation against the
    /// schema: a handler meets no account that breaks its slot's
    /// constraint, and no more or fewer accounts than the schema has
    /// slots.
    pub proof fn satisfied(&self)
        requires
            self.wf(),
        ensures
            validation_failure(self.program_id()@, self.schema(), self.base()) is None,
            self.base().len() == self.schema().len(),
    {
    }

    /// In a well-formed context every slot holds an account, no account
    /// has changed its address, owner or flags, and an account in a slot
    /// without write access is exactly as it was.
    pub proof fn frame(&self)
        requires
            self.wf(),
        ensures
            self.current().len() == self.base().len(),
            self.schema().len() == self.base().len(),
            forall|i: int|
                0 <= i < self.base().len() ==> (#[trigger] self.current()[i]).same_identity(
                    self.base()[i]@,
                ),
            forall|i: int|
                0 <= i < self.base().len() && !self.schema()[i].grants_write()
                    ==> #[trigger] self.current()[i] == self.base()[i]@,
    {
        assert forall|i: int|
            0 <= i < self.base().len() && !self.schema()[i].grants_write()
            implies #[trigger] self.current()[i] == self.base()[i]@ by {
            assert(self.staged@[i].keeps(self.accounts@[i]@));
        }
    }

    /// Binds validated accounts to schema slots with nothing staged.
    pub(crate) fn bind(
        program_id: Address,
        schema: &'a Vec<SlotConstraint>,
        accounts: &'a Vec<AccountDescriptor>,
    ) -> (ctx: AccountContext<'a>)
        requires
            validation_failure(program_id@, schema@, accounts@) is None,
        ensures
            ctx.wf(),
            ctx.program_id() == program_id,
            ctx.schema() == schema@,
            ctx.base() == accounts@,
            ctx.current() == account_views(accounts@),
    {
        let mut staged: Vec<StagedWrite> = Vec::new();
        let mut i: usize = 0;
        while i < accounts.len()
            invariant
                i <= accounts@.len(),
                staged@.len() == i,
                forall|j: int| 0 <= j < i ==> (#[trigger] staged@[j]).keeps(accounts@[j]@),
            decreases accounts@.len() - i,
        {
            staged.push(StagedWrite { balance: accounts[i].balance, data: None });
            i += 1;
        }
        let ctx = AccountContext { program_id, schema, accounts, staged };
        assert(ctx.current() =~= account_views(accounts@));
        ctx
    }

    /// The identity of the program the accounts were validated for.
    pub fn program_identity(&self) -> (id: Address)
        ensures
            id == self.program_id(),
    {
        self.program_id
    }

    /// Number of slots.
    pub fn len(&self) -> (n: usize)
        ensures
            n == self.base().len(),
    {
        self.accounts.len()
    }

    /// The account bound to `slot` as it was when the invocation began.
    pub fn account(&self, slot: usize) -> (r: Option<&AccountDescriptor>)
        ensures
            slot < self.base().len() ==> r == Some(&self.base()[slot as int]),
            slot >= self.base().len() ==> r is None,
    {
        if slot < self.accounts.len() {
            Some(&self.accounts[slot])
        } else {
            None
        }
    }

    /// Whether the handler may write the account bound to `slot`.
    pub fn may_write(&self, slot: usize) -> (b: bool)
        ensures
            b == (slot < self.schema().len() && self.schema()[slot as int].grants_write()),
    {
        slot < self.schema.len() && self.schema[slot].allows_write()
    }

    /// The current balance of the account bound to `slot`.
    pub fn balance(&self, slot: usize) -> (r: Option<u64>)
        requires
            self.wf(),
        ensures
            slot < self.base().len() ==> r == Some(self.current()[slot as int].balance),
            slot >= self.base().len() ==> r is None,
    {
        if slot < self.staged.len() {
            Some(self.staged[slot].balance)
        } else {
            None
        }
    }

    /// The current data of the account bound to `slot`.
    pub fn data(&self, slot: usize) -> (r: Option<&[u8]>)
        requires
            self.wf(),
        ensures
            slot < self.base().len() ==> r is Some && r->0@ == self.current()[slot as int].data,
            slot >= self.base().len() ==> r is None,
    {
        if slot < self.staged.len() {
            match &self.staged[slot].data {
                Some(bytes) => Some(bytes.as_slice()),
                None => Some(self.accounts[slot].data.as_slice()),
            }
        } else {
            None
        }
    }

    /// Stages a new balance for the account bound to `slot`.
    ///
    /// Refused, with the context unchanged, when there is no such slot or
    /// the slot's role is not `Writable`.
    pub fn set_balance(&mut self, slot: usize, balance: u64) -> (r: Result<(), AccessError>)
        requires
            old(self).wf(),
        ensures
            final(self).wf(),
            final(self).program_id() == old(self).program_id(),
            final(self).schema() == old(self).schema(),
            final(self).base() == old(self).base(),
            r == old(self).access(slot),
            r is Err ==> final(self).current() == old(self).current(),
            r is Ok ==> final(self).current() == old(self).current().update(
                slot as int,
                old(self).current()[slot as int].with_balance(balance),
            ),
    {
        if slot >= self.staged.len() {
            return Err(AccessError::NoSuchSlot);
        }
        if !self.schema[slot].allows_write() {
            return Err(AccessError::NotWritable);
        }
        self.staged[slot].balance = balance;
        assert(self.current() =~= old(self).current().update(
            slot as int,
            old(self).current()[slot as int].with_balance(balance),
        ));
        Ok(())
    }

    /// Stages new data for the account bound to `slot`.
    ///
    /// Refused, with the context unchanged, when there is no such slot or
    /// the slot's role is not `Writable`.
    pub fn set_data(&mut self, slot: usize, data: Vec<u8>) -> (r: Result<(), AccessError>)
        requires
            old(self).wf(),
        ensures
            final(self).wf(),
            final(self).program_id() == old(self).program_id(),
            final(self).schema() == old(self).schema(),
            final(self).base() == old(self).base(),
            r == old(self).access(slot),
            r is Err ==> final(self).current() == old(self).current(),
            r is Ok ==> final(self).current() == old(self).current().update(
                slot as int,
                old(self).current()[slot as int].with_data(data@),
            ),
    {
        if slot >= self.staged.len() {
            return Err(AccessError::NoSuchSlot);
        }
        if !self.schema[slot].allows_write() {
            return Err(AccessError::NotWritable);
        }
        self.staged[slot].data = Some(data);
        assert(self.current() =~= old(self).current().update(
            slot as int,
            old(self).current()[slot as int].with_data(data@),
        ));
        Ok(())
    }

    /// Ends the handler's access and hands out what it staged, one cell
    /// per slot.
    pub(crate) fn into_staged(self) -> (staged: Vec<StagedWrite>)
        requires
            self.wf(),
        ensures
            staged@.len() == self.base().len(),
            committed(account_views(self.base()), staged@) == self.current(),
    {
        proof {
            assert(committed(account_views(self.base()), self.staged@) =~= self.current());
        }
        self.staged
    }

    /// Whether a write to `slot` is admitted, and why not.
    pub open spec fn access(&self, slot: usize) -> Result<(), AccessError> {
        if slot >= self.schema().len() {
            Err(AccessError::NoSuchSlot)
        } else if !self.schema()[slot as int].grants_write() {
            Err(AccessError::NotWritable)
        } else {
            Ok(())
        }
    }
}

/// The accounts that result from committing staged writes, slot by slot.
pub(crate) open spec fn committed(accounts: Seq<AccountView>, staged: Seq<StagedWrite>) -> Seq<AccountView> {
    Seq::new(accounts.len(), |i: int| staged[i].applied_to(accounts[i]))
}

/// Commits staged writes to the accounts they were staged for.
pub(crate) fn commit(accounts: &mut Vec<AccountDescriptor>, staged: Vec<StagedWrite>)
    requires
        staged@.len() == old(accounts)@.len(),
    ensures
        account_views(final(accounts)@) == committed(account_views(old(accounts)@), staged@),
{
    let mut rest = staged;
    while rest.len() > 0
        invariant
            rest@.len() <= staged@.len(),
            accounts@.len() == old(accounts)@.len(),
            staged@.len() == old(accounts)@.len(),
            forall|j: int| 0 <= j < rest@.len() ==> rest@[j] == staged@[j],
            forall|j: int| 0 <= j < rest@.len() ==> accounts@[j] == old(accounts)@[j],
            forall|j: int|
                rest@.len() <= j < staged@.len() ==> (#[trigger] accounts@[j])@ == staged@[j].applied_to(
                    old(accounts)@[j]@,
                ),
        decreases rest@.len(),
    {
        let slot = rest.len() - 1;
        let write = rest.pop().unwrap();
        accounts[slot].balance = write.balance;
        match write.data {
            Some(bytes) => {
                accounts[slot].data = bytes;
            },
            None => {},
        }
    }
    assert(account_views(accounts@) =~= committed(account_views(old(accounts)@), staged@));
}

} // verus!
