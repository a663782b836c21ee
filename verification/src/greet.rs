//! The greeting program: one handler that logs a greeting.

use vstd::prelude::*;
use crate::account::AccountView;
use crate::channel::ResultChannel;
use crate::context::AccountContext;
use crate::handler::{Effect, Handler};
use crate::outcome::ApplicationError;
use crate::schema::SlotConstraint;

verus! {

/// The discriminator under which `greet` is registered.
pub const GREET_DISCRIMINATOR: [u8; 8] = [203, 194, 3, 150, 228, 58, 181, 62];

/// The line that `greet` logs.
pub open spec fn greeting() -> Seq<char> {
    "GM!"@
}

/// Logs the greeting and succeeds. The accounts are left alone; on a
/// sealed channel the greeting is lost.
pub fn greet<'a>(ctx: &mut AccountContext<'a>, channel: &mut ResultChannel) -> (r: Result<
    (),
    ApplicationError,
>)
    ensures
        r is Ok,
        *final(ctx) == *old(ctx),
        final(channel).sealed() == old(channel).sealed(),
        final(channel).lines() == if old(channel).is_open() {
            old(channel).lines().push(greeting())
        } else {
            old(channel).lines()
        },
{
    channel.emit("GM!");
    Ok(())
}

/// The account context of `greet` and its handler: no arguments, no
/// demand on the accounts beyond the schema it is registered with.
#[derive(Clone, Copy, Debug, PartialEq, Eq)]
pub struct Initialize {}

impl Handler for Initialize {
    type Args = ();

    /// `greet` takes no arguments: only the empty payload is well formed,
    /// and reading any other stops at its first byte.
    open spec fn parsed(&self, payload: Seq<u8>) -> Result<(), Option<usize>> {
        if payload.len() == 0 {
            Ok(())
        } else {
            Err(Some(0usize))
        }
    }

    open spec fn effect(
        &self,
        program_id: Seq<u8>,
        schema: Seq<SlotConstraint>,
        accounts: Seq<AccountView>,
        args: (),
    ) -> Effect {
        Effect { result: Ok(()), lines: seq![greeting()], accounts }
    }

    fn parse(&self, payload: &[u8]) -> (r: Result<(), Option<usize>>) {
        if payload.len() == 0 {
            Ok(())
        } else {
            Err(Some(0))
        }
    }

    fn run<'a>(&self, ctx: &mut AccountContext<'a>, args: (), channel: &mut ResultChannel) -> (r:
        Result<(), ApplicationError>) {
        let r = greet(ctx, channel);
        assert(channel.lines() =~= old(channel).lines() + seq![greeting()]);
        r
    }
}

} // verus!
