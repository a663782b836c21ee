//! The dispatcher: one invocation from instruction buffer to outcome.
//!
//! An invocation is atomic towards the accounts. A handler's writes are
//! staged in its context and committed only when the handler succeeds;
//! every failure, structural or raised by the handler, leaves the
//! accounts exactly as they were.

use vstd::prelude::*;
use crate::account::{account_views, AccountDescriptor, AccountView};
use crate::address::Address;
use crate::channel::ResultChannel;
use crate::context::commit;
use crate::handler::Handler;
use crate::instruction::{
    decode, discriminator_of, holds_discriminator, payload_of, DecodeError, DISCRIMINATOR_WIDTH,
};
use crate::outcome::{handler_outcome, ExecutionOutcome, InvokeError, OutcomeView};
use crate::registry::{position, position_from_is_first, Registration, Registry};
use crate::validate::{
    missing_signature_is_reported, slot_failure, validate, validation_failure, ValidationError,
};

verus! {

/// What one invocation amounts to: its outcome, the lines logged, and
/// the accounts as it leaves them.
pub struct Invocation {
    pub outcome: OutcomeView,
    pub lines: Seq<Seq<char>>,
    pub accounts: Seq<AccountView>,
}

/// An invocation that ends before the handler runs: nothing is logged
/// and no account changes.
pub open spec fn rejected(outcome: OutcomeView, accounts: Seq<AccountDescriptor>) -> Invocation {
    Invocation { outcome, lines: Seq::empty(), accounts: account_views(accounts) }
}

/// What running a registered handler on a decoded payload amounts to,
/// once the handler is found: validation first, then the payload, then
/// the handler, whose writes count only if it succeeds.
pub open spec fn handled<H: Handler>(
    program_id: Seq<u8>,
    registration: Registration<H>,
    accounts: Seq<AccountDescriptor>,
    payload: Seq<u8>,
) -> Invocation {
    match validation_failure(program_id, registration.schema@, accounts) {
        Some(e) => rejected(OutcomeView::Validation(e), accounts),
        None => match registration.handler.parsed(payload) {
            Err(offset) => rejected(
                OutcomeView::Decode(DecodeError::MalformedPayload(offset)),
                accounts,
            ),
            Ok(args) => {
                let effect = registration.handler.effect(
                    program_id,
                    registration.schema@,
                    account_views(accounts),
                    args,
                );
                Invocation {
                    outcome: handler_outcome(effect.result),
                    lines: effect.lines,
                    accounts: if effect.result is Ok {
                        effect.accounts
                    } else {
                        account_views(accounts)
                    },
                }
            },
        },
    }
}

/// What an invocation amounts to under a program identity and a list of
/// registrations: the first of truncation, unknown discriminator,
/// validation failure and malformed payload ends it; otherwise the
/// handler decides.
pub open spec fn invocation<H: Handler>(
    program_id: Seq<u8>,
    entries: Seq<Registration<H>>,
    accounts: Seq<AccountDescriptor>,
    buffer: Seq<u8>,
) -> Invocation {
    if !holds_discriminator(buffer) {
        rejected(OutcomeView::Decode(DecodeError::TruncatedInstruction), accounts)
    } else {
        match position(entries, discriminator_of(buffer)) {
            None => rejected(OutcomeView::UnknownInstruction, accounts),
            Some(k) => handled(program_id, entries[k], accounts, payload_of(buffer)),
        }
    }
}

/// Whether the handler that a buffer selects may write the account in
/// `slot`: a handler is registered under the buffer's discriminator and
/// its schema gives the slot the role `Writable`.
pub open spec fn write_granted<H>(entries: Seq<Registration<H>>, buffer: Seq<u8>, slot: int) -> bool {
    &&& holds_discriminator(buffer)
    &&& position(entries, discriminator_of(buffer)) is Some
    &&& 0 <= slot < entries[position(entries, discriminator_of(buffer))->0].schema@.len()
    &&& entries[position(entries, discriminator_of(buffer))->0].schema@[slot].grants_write()
}

/// Whether `after` differs from `before` only where the selected
/// handler was granted a write, and there only in data and balance.
pub open spec fn within_grant<H>(
    entries: Seq<Registration<H>>,
    buffer: Seq<u8>,
    before: Seq<AccountView>,
    after: Seq<AccountView>,
) -> bool {
    &&& after.len() == before.len()
    &&& forall|i: int| 0 <= i < before.len() ==> (#[trigger] after[i]).same_identity(before[i])
    &&& forall|i: int|
        0 <= i < before.len() && !write_granted(entries, buffer, i) ==> #[trigger] after[i]
            == before[i]
}

/// Routes invocations of one program to its registered handlers.
pub struct Dispatcher<H: Handler> {
    program_id: Address,
    registry: Registry<H>,
}

impl<H: Handler> Dispatcher<H> {
    /// The identity of the program this dispatcher serves.
    pub closed spec fn program_id(&self) -> Address {
        self.program_id
    }

    /// The registrations this dispatcher routes to.
    pub closed spec fn entries(&self) -> Seq<Registration<H>> {
        self.registry.entries()
    }

    /// A dispatcher for the program of the given identity over a filled
    /// registry. The registry cannot change from here on.
    pub fn new(program_id: Address, registry: Registry<H>) -> (dispatcher: Dispatcher<H>)
        ensures
            dispatcher.program_id() == program_id,
            dispatcher.entries() == registry.entries(),
    {
        Dispatcher { program_id, registry }
    }

    /// The identity of the program this dispatcher serves.
    pub fn program_identity(&self) -> (id: Address)
        ensures
            id == self.program_id(),
    {
        self.program_id
    }

    /// What invoking this dispatcher on accounts and a buffer amounts to.
    pub open spec fn invocation(&self, accounts: Seq<AccountDescriptor>, buffer: Seq<u8>) -> Invocation {
        invocation(self.program_id()@, self.entries(), accounts, buffer)
    }

    /// Whether an outcome, the lines logged and the accounts left are
    /// what an invocation on `accounts` and `buffer` amounts to.
    pub open spec fn observes(
        &self,
        accounts: Seq<AccountDescriptor>,
        buffer: Seq<u8>,
        outcome: OutcomeView,
        lines: Seq<Seq<char>>,
        after: Seq<AccountView>,
    ) -> bool {
        &&& outcome == self.invocation(accounts, buffer).outcome
        &&& lines == self.invocation(accounts, buffer).lines
        &&& after == self.invocation(accounts, buffer).accounts
    }

    /// Runs one invocation to its terminal outcome.
    ///
    /// The channel is reset, receives the handler's lines, and is sealed
    /// with the outcome that is returned. The accounts change only when
    /// the outcome is success, and then to what the handler staged.
    pub fn invoke(
        &self,
        accounts: &mut Vec<AccountDescriptor>,
        buffer: &[u8],
        channel: &mut ResultChannel,
    ) -> (outcome: ExecutionOutcome)
        ensures
            self.observes(
                old(accounts)@,
                buffer@,
                outcome@,
                final(channel).lines(),
                account_views(final(accounts)@),
            ),
            final(channel).sealed() == Some(outcome@),
            !(outcome@ is Success) ==> final(accounts)@ == old(accounts)@,
            within_grant(
                self.entries(),
                buffer@,
                account_views(old(accounts)@),
                account_views(final(accounts)@),
            ),
    {
        channel.reset();
        let outcome = self.execute(accounts, buffer, channel);
        channel.finish(outcome.duplicate());
        outcome
    }

    /// The steps of an invocation on an open channel, up to the outcome.
    fn execute(
        &self,
        accounts: &mut Vec<AccountDescriptor>,
        buffer: &[u8],
        channel: &mut ResultChannel,
    ) -> (outcome: ExecutionOutcome)
        requires
            old(channel).is_open(),
            old(channel).lines() == Seq::<Seq<char>>::empty(),
        ensures
            final(channel).is_open(),
            outcome@ == self.invocation(old(accounts)@, buffer@).outcome,
            final(channel).lines() == self.invocation(old(accounts)@, buffer@).lines,
            account_views(final(accounts)@) == self.invocation(old(accounts)@, buffer@).accounts,
            !(outcome@ is Success) ==> final(accounts)@ == old(accounts)@,
            within_grant(
                self.entries(),
                buffer@,
                account_views(old(accounts)@),
                account_views(final(accounts)@),
            ),
    {
        let envelope = match decode(buffer) {
            Ok(envelope) => envelope,
            Err(e) => {
                return ExecutionOutcome::Failure(InvokeError::Decode(e));
            },
        };
        let index = match self.registry.find(&envelope.discriminator) {
            Some(index) => index,
            None => {
                return ExecutionOutcome::Failure(InvokeError::UnknownInstruction);
            },
        };
        let registration = match self.registry.entry(index) {
            Some(registration) => registration,
            None => {
                return ExecutionOutcome::Failure(InvokeError::UnknownInstruction);
            },
        };
        let mut ctx = match validate(&self.program_id, &registration.schema, &*accounts) {
            Ok(ctx) => ctx,
            Err(e) => {
                return ExecutionOutcome::Failure(InvokeError::Validation(e));
            },
        };
        let args = match registration.handler.parse(envelope.payload.as_slice()) {
            Ok(args) => args,
            Err(offset) => {
                return ExecutionOutcome::Failure(
                    InvokeError::Decode(DecodeError::MalformedPayload(offset)),
                );
            },
        };
        let result = registration.handler.run(&mut ctx, args, channel);
        assert(channel.lines() =~= self.invocation(old(accounts)@, buffer@).lines);
        proof {
            ctx.frame();
        }
        match result {
            Ok(_) => {
                let staged = ctx.into_staged();
                commit(accounts, staged);
                ExecutionOutcome::Success
            },
            Err(e) => ExecutionOutcome::Failure(InvokeError::Application(e)),
        }
    }
}

/// A buffer shorter than the discriminator is rejected as truncated,
/// whatever is registered and whatever the accounts hold: nothing is
/// logged and no account changes.
pub proof fn truncated_buffer_is_rejected<H: Handler>(
    program_id: Seq<u8>,
    entries: Seq<Registration<H>>,
    accounts: Seq<AccountDescriptor>,
    buffer: Seq<u8>,
)
    requires
        buffer.len() < DISCRIMINATOR_WIDTH,
    ensures
        invocation(program_id, entries, accounts, buffer) == rejected(
            OutcomeView::Decode(DecodeError::TruncatedInstruction),
            accounts,
        ),
{
}

/// A buffer whose discriminator no handler is registered under is
/// rejected as an unknown instruction.
pub proof fn unregistered_discriminator_is_rejected<H: Handler>(
    program_id: Seq<u8>,
    entries: Seq<Registration<H>>,
    accounts: Seq<AccountDescriptor>,
    buffer: Seq<u8>,
)
    requires
        holds_discriminator(buffer),
        forall|k: int| 0 <= k < entries.len() ==> entries[k].discriminator@ != discriminator_of(buffer),
    ensures
        invocation(program_id, entries, accounts, buffer) == rejected(
            OutcomeView::UnknownInstruction,
            accounts,
        ),
{
    position_from_is_first(entries, discriminator_of(buffer), 0);
}

/// A number of accounts that differs from the length of the selected
/// handler's schema is rejected as a count mismatch. Two buffers with
/// the same discriminator get the same answer, whatever their payloads.
pub proof fn account_count_mismatch_is_rejected<H: Handler>(
    program_id: Seq<u8>,
    entries: Seq<Registration<H>>,
    accounts: Seq<AccountDescriptor>,
    buffer: Seq<u8>,
    other: Seq<u8>,
)
    requires
        holds_discriminator(buffer),
        holds_discriminator(other),
        discriminator_of(other) == discriminator_of(buffer),
        position(entries, discriminator_of(buffer)) is Some,
        accounts.len() != entries[position(entries, discriminator_of(buffer))->0].schema@.len(),
    ensures
        invocation(program_id, entries, accounts, buffer) == rejected(
            OutcomeView::Validation(ValidationError::AccountCountMismatch),
            accounts,
        ),
        invocation(program_id, entries, accounts, other) == invocation(
            program_id,
            entries,
            accounts,
            buffer,
        ),
{
}

/// An account that has not signed, in a `Signer` slot of the selected
/// handler's schema, ends the invocation with `MissingSignature` and the
/// slot's own index when the counts agree and every earlier slot passes,
/// whatever the later slots and the payload hold. The handler does not
/// run: nothing is logged and no account changes.
pub proof fn missing_signature_ends_invocation<H: Handler>(
    program_id: Seq<u8>,
    entries: Seq<Registration<H>>,
    accounts: Seq<AccountDescriptor>,
    buffer: Seq<u8>,
    index: int,
)
    requires
        holds_discriminator(buffer),
        position(entries, discriminator_of(buffer)) is Some,
        accounts.len() == entries[position(entries, discriminator_of(buffer))->0].schema@.len(),
        0 <= index < accounts.len(),
        entries[position(entries, discriminator_of(buffer))->0].schema@[index].role is Signer,
        !accounts[index].is_signer,
        forall|j: int|
            0 <= j < index ==> slot_failure(
                program_id,
                j as usize,
                entries[position(entries, discriminator_of(buffer))->0].schema@[j],
                accounts[j],
            ) is None,
    ensures
        invocation(program_id, entries, accounts, buffer) == rejected(
            OutcomeView::Validation(ValidationError::MissingSignature(index as usize)),
            accounts,
        ),
{
    let k = position(entries, discriminator_of(buffer))->0;
    missing_signature_is_reported(program_id, entries[k].schema@, accounts, index);
}

/// An invocation that does not succeed changes no account, and one that
/// ends before the handler runs logs nothing.
pub proof fn failure_changes_no_account<H: Handler>(
    program_id: Seq<u8>,
    entries: Seq<Registration<H>>,
    accounts: Seq<AccountDescriptor>,
    buffer: Seq<u8>,
)
    ensures
        !(invocation(program_id, entries, accounts, buffer).outcome is Success) ==> invocation(
            program_id,
            entries,
            accounts,
            buffer,
        ).accounts == account_views(accounts),
        !(invocation(program_id, entries, accounts, buffer).outcome is Success) && !(invocation(
            program_id,
            entries,
            accounts,
            buffer,
        ).outcome is Application) ==> invocation(program_id, entries, accounts, buffer).lines
            == Seq::<Seq<char>>::empty(),
{
}

/// Replay: whatever two runs of `invoke` observe on the same dispatcher,
/// accounts and buffer is the same, outcome, lines and accounts alike.
pub proof fn replay_is_identical<H: Handler>(
    dispatcher: Dispatcher<H>,
    accounts: Seq<AccountDescriptor>,
    buffer: Seq<u8>,
    first: Invocation,
    second: Invocation,
)
    requires
        dispatcher.observes(accounts, buffer, first.outcome, first.lines, first.accounts),
        dispatcher.observes(accounts, buffer, second.outcome, second.lines, second.accounts),
    ensures
        first == second,
        first.outcome.code() == second.outcome.code(),
        first.outcome.message() == second.outcome.message(),
{
}

} // verus!
