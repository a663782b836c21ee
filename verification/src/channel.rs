//! The execution result channel: the log lines of one invocation and its
//! sealed outcome.

use vstd::prelude::*;
use crate::outcome::{ExecutionOutcome, OutcomeView};

verus! {

/// The contents of a list of lines.
pub open spec fn line_views(lines: Seq<String>) -> Seq<Seq<char>> {
    Seq::new(lines.len(), |i: int| lines[i]@)
}

/// The contents of an optional outcome.
pub open spec fn outcome_view(outcome: Option<ExecutionOutcome>) -> Option<OutcomeView> {
    match outcome {
        Some(o) => Some(o@),
        None => None,
    }
}

/// Collects what one invocation logs and how it ends.
///
/// Lines are appended in order while the channel is open. `finish` seals
/// the channel: from then on neither the lines nor the outcome change
/// until `reset` opens it for the next invocation.
pub struct ResultChannel {
    lines: Vec<String>,
    outcome: Option<ExecutionOutcome>,
}

impl ResultChannel {
    /// The lines emitted so far, in order.
    pub closed spec fn lines(&self) -> Seq<Seq<char>> {
        line_views(self.lines@)
    }

    /// The sealed outcome, or `None` while the channel is open.
    pub closed spec fn sealed(&self) -> Option<OutcomeView> {
        outcome_view(self.outcome)
    }

    /// Whether the channel still accepts lines.
    pub open spec fn is_open(&self) -> bool {
        self.sealed() is None
    }

    /// An open channel without lines.
    pub fn new() -> (channel: ResultChannel)
        ensures
            channel.lines() == Seq::<Seq<char>>::empty(),
            channel.is_open(),
    {
        let channel = ResultChannel { lines: Vec::new(), outcome: None };
        assert(channel.lines() =~= Seq::<Seq<char>>::empty());
        channel
    }

    /// Appends a line. On a sealed channel nothing changes and the
    /// answer is `false`.
    pub fn emit(&mut self, line: &str) -> (appended: bool)
        ensures
            appended == old(self).is_open(),
            final(self).sealed() == old(self).sealed(),
            appended ==> final(self).lines() == old(self).lines().push(line@),
            !appended ==> final(self).lines() == old(self).lines(),
    {
        if self.outcome.is_some() {
            return false;
        }
        self.lines.push(line.to_owned());
        assert(self.lines() =~= old(self).lines().push(line@));
        true
    }

    /// Seals the channel with the invocation's outcome. On a channel
    /// that is sealed already nothing changes and the answer is `false`.
    pub fn finish(&mut self, outcome: ExecutionOutcome) -> (sealed_now: bool)
        ensures
            sealed_now == old(self).is_open(),
            final(self).lines() == old(self).lines(),
            sealed_now ==> final(self).sealed() == Some(outcome@),
            !sealed_now ==> final(self).sealed() == old(self).sealed(),
    {
        if self.outcome.is_some() {
            return false;
        }
        self.outcome = Some(outcome);
        true
    }

    /// Drops lines and outcome and opens the channel again.
    pub fn reset(&mut self)
        ensures
            final(self).lines() == Seq::<Seq<char>>::empty(),
            final(self).is_open(),
    {
        self.lines = Vec::new();
        self.outcome = None;
        assert(self.lines() =~= Seq::<Seq<char>>::empty());
    }

    /// Number of lines emitted so far.
    pub fn line_count(&self) -> (n: usize)
        ensures
            n == self.lines().len(),
    {
        self.lines.len()
    }

    /// The lines in the order they were emitted, and the outcome if the
    /// channel is sealed.
    pub fn render(&self) -> (r: (Vec<String>, Option<ExecutionOutcome>))
        ensures
            line_views(r.0@) == self.lines(),
            outcome_view(r.1) == self.sealed(),
    {
        let mut lines: Vec<String> = Vec::new();
        let mut i: usize = 0;
        while i < self.lines.len()
            invariant
                i <= self.lines@.len(),
                lines@.len() == i,
                forall|j: int| 0 <= j < i ==> (#[trigger] lines@[j])@ == self.lines@[j]@,
            decreases self.lines@.len() - i,
        {
            lines.push(self.lines[i].clone());
            i += 1;
        }
        assert(line_views(lines@) =~= self.lines());
        let outcome = match &self.outcome {
            Some(o) => Some(o.duplicate()),
            None => None,
        };
        (lines, outcome)
    }
}

} // verus!
