//! The constraint validator: accounts against a schema, slot by slot.

use vstd::prelude::*;
use crate::account::{account_views, AccountDescriptor};
use crate::address::{derived_address, find_derived_address, Address};
use crate::context::AccountContext;
use crate::schema::{Role, SlotConstraint};

verus! {

/// Why a list of accounts does not satisfy a schema.
#[derive(Clone, Copy, Debug, PartialEq, Eq)]
pub enum ValidationError {
    /// The number of accounts differs from the number of schema slots.
    AccountCountMismatch,
    /// The account in the slot of this index has not signed.
    MissingSignature(usize),
    /// The account in the slot of this index is not writable.
    AccountNotWritable(usize),
    /// The address of the account in the slot of this index is not the
    /// one derived from the program identity and the slot's seeds.
    InvalidDerivedAddress(usize),
    /// The account in the slot of this index is owned by another program
    /// than the schema expects: index, expected owner, actual owner.
    OwnerMismatch(usize, Address, Address),
}

/// The contents of an optional address.
pub open spec fn address_view(address: Option<Address>) -> Option<Seq<u8>> {
    match address {
        Some(a) => Some(a@),
        None => None,
    }
}

/// The verdict on one slot once the address derived for it is known:
/// the first constraint the account breaks, the role's before the
/// owner's, or `None` when it breaks none. `derived` is read only for a
/// `ProgramDerived` slot.
pub open spec fn slot_verdict(
    index: usize,
    slot: SlotConstraint,
    account: AccountDescriptor,
    derived: Option<Seq<u8>>,
) -> Option<ValidationError> {
    if slot.role is Signer && !account.is_signer {
        Some(ValidationError::MissingSignature(index))
    } else if slot.role is Writable && !account.is_writable {
        Some(ValidationError::AccountNotWritable(index))
    } else if slot.role is ProgramDerived && derived != Some(account.address@) {
        Some(ValidationError::InvalidDerivedAddress(index))
    } else if slot.expected_owner is Some && slot.expected_owner->0@ != account.owner@ {
        Some(ValidationError::OwnerMismatch(index, slot.expected_owner->0, account.owner))
    } else {
        None
    }
}

/// The address that a slot's seeds derive under a program identity;
/// `None` for a slot of another role.
pub open spec fn slot_derivation(program_id: Seq<u8>, slot: SlotConstraint) -> Option<Seq<u8>> {
    match slot.role {
        Role::ProgramDerived(seeds) => derived_address(program_id, seeds.deep_view()),
        _ => None,
    }
}

/// The verdict on one slot under a program identity.
pub open spec fn slot_failure(
    program_id: Seq<u8>,
    index: usize,
    slot: SlotConstraint,
    account: AccountDescriptor,
) -> Option<ValidationError> {
    slot_verdict(index, slot, account, slot_derivation(program_id, slot))
}

/// The first failure among the slots from `from` on, in declaration
/// order.
pub open spec fn first_failure_from(
    program_id: Seq<u8>,
    schema: Seq<SlotConstraint>,
    accounts: Seq<AccountDescriptor>,
    from: int,
) -> Option<ValidationError>
    decreases schema.len() - from,
{
    if from < 0 || from >= schema.len() {
        None
    } else {
        match slot_failure(program_id, from as usize, schema[from], accounts[from]) {
            Some(e) => Some(e),
            None => first_failure_from(program_id, schema, accounts, from + 1),
        }
    }
}

/// What validation reports: a count mismatch before anything else, then
/// the failure of the first slot that fails, or `None` when the accounts
/// satisfy the schema.
pub open spec fn validation_failure(
    program_id: Seq<u8>,
    schema: Seq<SlotConstraint>,
    accounts: Seq<AccountDescriptor>,
) -> Option<ValidationError> {
    if accounts.len() != schema.len() {
        Some(ValidationError::AccountCountMismatch)
    } else {
        first_failure_from(program_id, schema, accounts, 0)
    }
}

/// Judges one slot, given the address derived for it.
pub fn judge_slot(
    index: usize,
    slot: &SlotConstraint,
    account: &AccountDescriptor,
    derived: Option<Address>,
) -> (r: Option<ValidationError>)
    ensures
        r == slot_verdict(index, *slot, *account, address_view(derived)),
{
    let role_failure = match &slot.role {
        Role::Signer => if account.is_signer {
            None
        } else {
            Some(ValidationError::MissingSignature(index))
        },
        Role::Writable => if account.is_writable {
            None
        } else {
            Some(ValidationError::AccountNotWritable(index))
        },
        Role::ReadOnly => None,
        Role::ProgramDerived(_) => match derived {
            Some(expected) => if expected.same(&account.address) {
                None
            } else {
                Some(ValidationError::InvalidDerivedAddress(index))
            },
            None => Some(ValidationError::InvalidDerivedAddress(index)),
        },
    };
    if role_failure.is_some() {
        return role_failure;
    }
    match slot.expected_owner {
        Some(owner) => if owner.same(&account.owner) {
            None
        } else {
            Some(ValidationError::OwnerMismatch(index, owner, account.owner))
        },
        None => None,
    }
}

/// Judges one slot under a program identity, deriving the address the
/// slot's seeds call for.
pub fn check_slot(
    program_id: &Address,
    index: usize,
    slot: &SlotConstraint,
    account: &AccountDescriptor,
) -> (r: Option<ValidationError>)
    ensures
        r == slot_failure(program_id@, index, *slot, *account),
{
    let derived = match &slot.role {
        Role::ProgramDerived(seeds) => find_derived_address(program_id, seeds),
        _ => None,
    };
    judge_slot(index, slot, account, derived)
}

/// Validates accounts against a schema and binds them into a context.
///
/// Fails exactly when [`validation_failure`] names an error, and then
/// with that error: `AccountCountMismatch` when the lengths differ,
/// otherwise the failure of the first failing slot in declaration order.
/// The context of a success borrows the accounts and has nothing staged.
pub fn validate<'a>(
    program_id: &Address,
    schema: &'a Vec<SlotConstraint>,
    accounts: &'a Vec<AccountDescriptor>,
) -> (r: Result<AccountContext<'a>, ValidationError>)
    ensures
        match validation_failure(program_id@, schema@, accounts@) {
            Some(e) => r == Err::<AccountContext<'a>, ValidationError>(e),
            None => {
                &&& r is Ok
                &&& r->Ok_0.wf()
                &&& r->Ok_0.program_id() == *program_id
                &&& r->Ok_0.schema() == schema@
                &&& r->Ok_0.base() == accounts@
                &&& r->Ok_0.current() == account_views(accounts@)
            },
        },
{
    if accounts.len() != schema.len() {
        return Err(ValidationError::AccountCountMismatch);
    }
    let mut i: usize = 0;
    while i < schema.len()
        invariant
            i <= schema@.len(),
            accounts@.len() == schema@.len(),
            first_failure_from(program_id@, schema@, accounts@, 0) == first_failure_from(
                program_id@,
                schema@,
                accounts@,
                i as int,
            ),
        decreases schema@.len() - i,
    {
        match check_slot(program_id, i, &schema[i], &accounts[i]) {
            Some(e) => {
                return Err(e);
            },
            None => {},
        }
        i += 1;
    }
    Ok(AccountContext::bind(*program_id, schema, accounts))
}

/// A slot fails validation exactly when it is the first failing one:
/// the reported error is the verdict on slot `index` whenever that slot
/// fails and no slot before it does.
pub proof fn first_failing_slot_is_reported(
    program_id: Seq<u8>,
    schema: Seq<SlotConstraint>,
    accounts: Seq<AccountDescriptor>,
    index: int,
)
    requires
        accounts.len() == schema.len(),
        0 <= index < schema.len(),
        slot_failure(program_id, index as usize, schema[index], accounts[index]) is Some,
        forall|j: int|
            0 <= j < index ==> slot_failure(program_id, j as usize, schema[j], accounts[j]) is None,
    ensures
        validation_failure(program_id, schema, accounts) == slot_failure(
            program_id,
            index as usize,
            schema[index],
            accounts[index],
        ),
{
    failure_skips_passing_slots(program_id, schema, accounts, 0, index);
}

/// Slots that pass do not show in the result: the first failure from
/// `from` on is the first failure from `to` on when every slot between
/// passes.
pub proof fn failure_skips_passing_slots(
    program_id: Seq<u8>,
    schema: Seq<SlotConstraint>,
    accounts: Seq<AccountDescriptor>,
    from: int,
    to: int,
)
    requires
        0 <= from <= to <= schema.len(),
        forall|j: int|
            from <= j < to ==> slot_failure(program_id, j as usize, schema[j], accounts[j]) is None,
    ensures
        first_failure_from(program_id, schema, accounts, from) == first_failure_from(
            program_id,
            schema,
            accounts,
            to,
        ),
    decreases to - from,
{
    if from < to {
        failure_skips_passing_slots(program_id, schema, accounts, from + 1, to);
    }
}

/// An account that has not signed, in a `Signer` slot, is reported as
/// `MissingSignature` with the slot's own index when every earlier slot
/// passes, whatever the later slots hold.
pub proof fn missing_signature_is_reported(
    program_id: Seq<u8>,
    schema: Seq<SlotConstraint>,
    accounts: Seq<AccountDescriptor>,
    index: int,
)
    requires
        accounts.len() == schema.len(),
        0 <= index < schema.len(),
        schema[index].role is Signer,
        !accounts[index].is_signer,
        forall|j: int|
            0 <= j < index ==> slot_failure(program_id, j as usize, schema[j], accounts[j]) is None,
    ensures
        validation_failure(program_id, schema, accounts) == Some(
            ValidationError::MissingSignature(index as usize),
        ),
{
    first_failing_slot_is_reported(program_id, schema, accounts, index);
}

/// Validation succeeds exactly when the counts agree and every slot
/// passes.
pub proof fn validation_passes_iff_all_slots_pass(
    program_id: Seq<u8>,
    schema: Seq<SlotConstraint>,
    accounts: Seq<AccountDescriptor>,
)
    ensures
        validation_failure(program_id, schema, accounts) is None <==> (accounts.len()
            == schema.len() && forall|j: int|
            0 <= j < schema.len() ==> slot_failure(program_id, j as usize, schema[j], accounts[j])
                is None),
{
    if accounts.len() == schema.len() {
        all_pass_from(program_id, schema, accounts, 0);
    }
}

/// No failure from `from` on means every slot from `from` on passes, and
/// the other way round.
proof fn all_pass_from(
    program_id: Seq<u8>,
    schema: Seq<SlotConstraint>,
    accounts: Seq<AccountDescriptor>,
    from: int,
)
    requires
        0 <= from <= schema.len(),
    ensures
        first_failure_from(program_id, schema, accounts, from) is None <==> (forall|j: int|
            from <= j < schema.len() ==> slot_failure(program_id, j as usize, schema[j], accounts[j])
                is None),
    decreases schema.len() - from,
{
    if from < schema.len() {
        all_pass_from(program_id, schema, accounts, from + 1);
        if first_failure_from(program_id, schema, accounts, from) is None {
            assert forall|j: int| from <= j < schema.len() implies slot_failure(
                program_id,
                j as usize,
                schema[j],
                accounts[j],
            ) is None by {
                if j > from {
                }
            }
        }
    }
}

} // verus!
