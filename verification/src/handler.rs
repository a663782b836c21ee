//! What the dispatcher asks of a handler.

use vstd::prelude::*;
use crate::account::{account_views, AccountView};
use crate::channel::ResultChannel;
use crate::context::AccountContext;
use crate::outcome::{result_view, ApplicationError, Fault};
use crate::schema::SlotConstraint;

verus! {

/// What running a handler amounts to: its own result, the lines it
/// logs, and the accounts as it leaves them.
pub struct Effect {
    pub result: Result<(), Fault>,
    pub lines: Seq<Seq<char>>,
    pub accounts: Seq<AccountView>,
}

/// A handler: a deserializer for its typed arguments and the code that
/// runs on a validated account context.
///
/// Replay demands that both be functions of their inputs, so each
/// executable method is tied to a spec function that says what it
/// computes. A verified handler defines the two spec functions and proves
/// its methods against them. They are left arbitrary by default, so that a
/// handler written outside the verifier can implement the trait; what is
/// proved of a dispatcher then holds of such a handler as far as it keeps
/// the contracts of `parse` and `run` on its own account.
pub trait Handler {
    /// The handler's typed arguments.
    type Args;

    /// The arguments a payload holds, or the offset into the payload at
    /// which reading stopped, where that can be told.
    open spec fn parsed(&self, payload: Seq<u8>) -> Result<Self::Args, Option<usize>> {
        arbitrary()
    }

    /// What the handler does for the program of identity `program_id` on
    /// accounts validated against `schema`.
    open spec fn effect(
        &self,
        program_id: Seq<u8>,
        schema: Seq<SlotConstraint>,
        accounts: Seq<AccountView>,
        args: Self::Args,
    ) -> Effect {
        arbitrary()
    }

    /// Deserializes the payload into the handler's arguments.
    fn parse(&self, payload: &[u8]) -> (r: Result<Self::Args, Option<usize>>)
        ensures
            r == self.parsed(payload@),
    ;

    /// Runs the handler. It may stage writes to writable accounts through
    /// the context and emit lines on the channel, which it leaves open.
    fn run<'a>(
        &self,
        ctx: &mut AccountContext<'a>,
        args: Self::Args,
        channel: &mut ResultChannel,
    ) -> (r: Result<(), ApplicationError>)
        requires
            old(ctx).wf(),
            old(ctx).current() == account_views(old(ctx).base()),
            old(channel).is_open(),
        ensures
            final(ctx).wf(),
            final(ctx).program_id() == old(ctx).program_id(),
            final(ctx).schema() == old(ctx).schema(),
            final(ctx).base() == old(ctx).base(),
            final(channel).is_open(),
            result_view(r) == self.effect(
                old(ctx).program_id()@,
                old(ctx).schema(),
                old(ctx).current(),
                args,
            ).result,
            final(ctx).current() == self.effect(
                old(ctx).program_id()@,
                old(ctx).schema(),
                old(ctx).current(),
                args,
            ).accounts,
            final(channel).lines() == old(channel).lines() + self.effect(
                old(ctx).program_id()@,
                old(ctx).schema(),
                old(ctx).current(),
                args,
            ).lines,
    ;
}

} // verus!
