//! The handler registry: discriminators mapped to handlers and schemas.

use vstd::prelude::*;
use crate::schema::SlotConstraint;

verus! {

/// One registered handler with its discriminator and its schema.
pub struct Registration<H> {
    pub discriminator: [u8; 8],
    pub schema: Vec<SlotConstraint>,
    pub handler: H,
}

/// Why a registration was refused.
#[derive(Clone, Copy, Debug, PartialEq, Eq, Structural)]
pub enum RegistrationError {
    /// A handler is registered under the discriminator already.
    DuplicateDiscriminator,
}

/// The index of the first entry from `from` on that is registered under
/// `discriminator`.
pub open spec fn position_from<H>(
    entries: Seq<Registration<H>>,
    discriminator: Seq<u8>,
    from: int,
) -> Option<int>
    decreases entries.len() - from,
{
    if from < 0 || from >= entries.len() {
        None
    } else if entries[from].discriminator@ == discriminator {
        Some(from)
    } else {
        position_from(entries, discriminator, from + 1)
    }
}

/// The index of the entry registered under `discriminator`.
pub open spec fn position<H>(entries: Seq<Registration<H>>, discriminator: Seq<u8>) -> Option<int> {
    position_from(entries, discriminator, 0)
}

/// Whether no two entries share a discriminator.
pub open spec fn distinct_discriminators<H>(entries: Seq<Registration<H>>) -> bool {
    forall|i: int, j: int|
        0 <= i < j < entries.len() ==> (#[trigger] entries[i]).discriminator@ != (
        #[trigger] entries[j]).discriminator@
}

/// What `position_from` finds is in range and carries the discriminator,
/// nothing before it does, and it finds nothing only where no entry does.
pub proof fn position_from_is_first<H>(
    entries: Seq<Registration<H>>,
    discriminator: Seq<u8>,
    from: int,
)
    requires
        0 <= from <= entries.len(),
    ensures
        match position_from(entries, discriminator, from) {
            Some(k) => from <= k < entries.len() && entries[k].discriminator@ == discriminator
                && forall|j: int| from <= j < k ==> entries[j].discriminator@ != discriminator,
            None => forall|j: int|
                from <= j < entries.len() ==> entries[j].discriminator@ != discriminator,
        },
    decreases entries.len() - from,
{
    if from < entries.len() && entries[from].discriminator@ != discriminator {
        position_from_is_first(entries, discriminator, from + 1);
    }
}

/// Among distinct discriminators a lookup is unambiguous: the entry at
/// index `k` is the one found under its own discriminator.
pub proof fn lookup_finds_entry<H>(entries: Seq<Registration<H>>, k: int)
    requires
        distinct_discriminators(entries),
        0 <= k < entries.len(),
    ensures
        position(entries, entries[k].discriminator@) == Some(k),
{
    position_from_is_first(entries, entries[k].discriminator@, 0);
}

/// Byte-wise comparison of two discriminators.
pub fn same_discriminator(a: &[u8; 8], b: &[u8; 8]) -> (same: bool)
    ensures
        same == (a@ == b@),
{
    let mut i: usize = 0;
    while i < 8
        invariant
            i <= 8,
            forall|j: int| 0 <= j < i ==> a@[j] == b@[j],
        decreases 8 - i,
    {
        if a[i] != b[i] {
            return false;
        }
        i += 1;
    }
    assert(a@ =~= b@);
    true
}

/// The handlers of a program, keyed by discriminator. It is filled at
/// startup and handed to a dispatcher, which never changes it.
pub struct Registry<H> {
    entries: Vec<Registration<H>>,
}

impl<H> Registry<H> {
    /// The registrations in the order they were made.
    pub closed spec fn entries(&self) -> Seq<Registration<H>> {
        self.entries@
    }

    /// The registry's invariant: discriminators are unique.
    pub open spec fn wf(&self) -> bool {
        distinct_discriminators(self.entries())
    }

    /// A registry without handlers.
    pub fn new() -> (registry: Registry<H>)
        ensures
            registry.wf(),
            registry.entries() == Seq::<Registration<H>>::empty(),
    {
        Registry { entries: Vec::new() }
    }

    /// Number of registered handlers.
    pub fn len(&self) -> (n: usize)
        ensures
            n == self.entries().len(),
    {
        self.entries.len()
    }

    /// The index of the handler registered under a discriminator.
    pub fn find(&self, discriminator: &[u8; 8]) -> (r: Option<usize>)
        ensures
            match r {
                Some(index) => index < self.entries().len() && position(
                    self.entries(),
                    discriminator@,
                ) == Some(index as int),
                None => position(self.entries(), discriminator@) is None,
            },
    {
        let mut i: usize = 0;
        while i < self.entries.len()
            invariant
                i <= self.entries@.len(),
                position(self.entries@, discriminator@) == position_from(
                    self.entries@,
                    discriminator@,
                    i as int,
                ),
            decreases self.entries@.len() - i,
        {
            if same_discriminator(&self.entries[i].discriminator, discriminator) {
                return Some(i);
            }
            i += 1;
        }
        None
    }

    /// The registration at an index.
    pub fn entry(&self, index: usize) -> (r: Option<&Registration<H>>)
        ensures
            index < self.entries().len() ==> r == Some(&self.entries()[index as int]),
            index >= self.entries().len() ==> r is None,
    {
        if index < self.entries.len() {
            Some(&self.entries[index])
        } else {
            None
        }
    }

    /// Registers a handler under a discriminator with its schema.
    ///
    /// Refused as a duplicate, with the registry unchanged, exactly when
    /// the discriminator is taken; otherwise the registration is added
    /// behind the others.
    pub fn register(&mut self, discriminator: [u8; 8], schema: Vec<SlotConstraint>, handler: H) -> (r:
        Result<(), RegistrationError>)
        ensures
            old(self).wf() ==> final(self).wf(),
            position(old(self).entries(), discriminator@) is Some ==> {
                &&& r == Err::<(), RegistrationError>(RegistrationError::DuplicateDiscriminator)
                &&& final(self).entries() == old(self).entries()
            },
            position(old(self).entries(), discriminator@) is None ==> {
                &&& r is Ok
                &&& final(self).entries() == old(self).entries().push(
                    (Registration { discriminator, schema, handler }),
                )
            },
    {
        if self.find(&discriminator).is_some() {
            return Err(RegistrationError::DuplicateDiscriminator);
        }
        proof {
            position_from_is_first(self.entries@, discriminator@, 0);
        }
        self.entries.push(Registration { discriminator, schema, handler });
        Ok(())
    }
}

} // verus!
