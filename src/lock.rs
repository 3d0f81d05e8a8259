//! The shared-read / exclusive-write discipline of one component column.

use vstd::prelude::*;

verus! {

/// Why a claim on a column was refused.
#[derive(Clone, Copy, Debug, PartialEq, Eq, Structural)]
pub enum ClaimFault {
    /// A writer holds the column, or readers hold it and a writer asked.
    Contention,
    /// The reader count is at its machine limit.
    TooManyReaders,
}

/// One step of a claim history on a single column.
#[derive(Clone, Copy, Debug, PartialEq, Eq, Structural)]
pub enum ClaimEvent {
    ClaimRead,
    ClaimWrite,
    ReleaseRead,
    ReleaseWrite,
}

/// Runtime borrow flag of one column: any number of readers, or one writer.
#[derive(Clone, Copy, Debug, PartialEq, Eq, Structural)]
pub struct AccessLock {
    pub readers: usize,
    pub writer: bool,
}

/// Whether a claim of the given kind is compatible with the current holders.
pub open spec fn read_allowed(l: AccessLock) -> bool {
    !l.writer && l.readers < usize::MAX
}

pub open spec fn write_allowed(l: AccessLock) -> bool {
    !l.writer && l.readers == 0
}

/// The effect of one event. A refused claim, or a release with nothing to
/// release, leaves the lock as it was.
pub open spec fn step(l: AccessLock, e: ClaimEvent) -> AccessLock {
    match e {
        ClaimEvent::ClaimRead => if read_allowed(l) {
            AccessLock { readers: (l.readers + 1) as usize, ..l }
        } else {
            l
        },
        ClaimEvent::ClaimWrite => if write_allowed(l) {
            AccessLock { writer: true, ..l }
        } else {
            l
        },
        ClaimEvent::ReleaseRead => if l.readers > 0 {
            AccessLock { readers: (l.readers - 1) as usize, ..l }
        } else {
            l
        },
        ClaimEvent::ReleaseWrite => AccessLock { writer: false, ..l },
    }
}

/// Whether an event is refused in the given state.
pub open spec fn faults(l: AccessLock, e: ClaimEvent) -> bool {
    match e {
        ClaimEvent::ClaimRead => !read_allowed(l),
        ClaimEvent::ClaimWrite => !write_allowed(l),
        _ => false,
    }
}

/// The lock after a whole history, starting from a free lock.
pub open spec fn run(events: Seq<ClaimEvent>) -> AccessLock
    decreases events.len(),
{
    if events.len() == 0 {
        AccessLock { readers: 0, writer: false }
    } else {
        step(run(events.drop_last()), events.last())
    }
}

impl AccessLock {
    /// No writer is present together with a reader.
    pub open spec fn wf(self) -> bool {
        !(self.writer && self.readers > 0)
    }

    pub open spec fn is_free(self) -> bool {
        self.readers == 0 && !self.writer
    }

    pub fn new() -> (r: AccessLock)
        ensures
            r.is_free(),
    {
        AccessLock { readers: 0, writer: false }
    }

    pub fn is_free_now(&self) -> (r: bool)
        ensures
            r == self.is_free(),
    {
        self.readers == 0 && !self.writer
    }

    /// Takes a shared claim.
    pub fn claim_read(&mut self) -> (r: Result<(), ClaimFault>)
        ensures
            *final(self) == step(*old(self), ClaimEvent::ClaimRead),
            r is Ok <==> read_allowed(*old(self)),
            r == Err::<(), ClaimFault>(ClaimFault::Contention) <==> old(self).writer,
    {
        if self.writer {
            Err(ClaimFault::Contention)
        } else if self.readers == usize::MAX {
            Err(ClaimFault::TooManyReaders)
        } else {
            self.readers = self.readers + 1;
            Ok(())
        }
    }

    /// Takes the exclusive claim.
    pub fn claim_write(&mut self) -> (r: Result<(), ClaimFault>)
        ensures
            *final(self) == step(*old(self), ClaimEvent::ClaimWrite),
            r is Ok <==> write_allowed(*old(self)),
            r is Err ==> r == Err::<(), ClaimFault>(ClaimFault::Contention),
    {
        if self.writer || self.readers > 0 {
            Err(ClaimFault::Contention)
        } else {
            self.writer = true;
            Ok(())
        }
    }

    /// Gives back one shared claim.
    pub fn release_read(&mut self)
        requires
            old(self).readers > 0,
        ensures
            *final(self) == step(*old(self), ClaimEvent::ReleaseRead),
    {
        self.readers = self.readers - 1;
    }

    /// Gives back the exclusive claim.
    pub fn release_write(&mut self)
        ensures
            *final(self) == step(*old(self), ClaimEvent::ReleaseWrite),
    {
        self.writer = false;
    }
}

/// Every step keeps a well-formed lock well-formed.
pub proof fn lemma_step_wf(l: AccessLock, e: ClaimEvent)
    requires
        l.wf(),
    ensures
        step(l, e).wf(),
{
}

/// Whatever history of claims and releases a column sees, it never holds a
/// writer together with another claim; a claim that would break this is
/// refused, and every claim compatible with the holders is granted.
pub proof fn lemma_exclusive_access(events: Seq<ClaimEvent>)
    ensures
        run(events).wf(),
        events.len() > 0 && run(events.drop_last()).writer ==> (
            events.last() == ClaimEvent::ClaimRead || events.last() == ClaimEvent::ClaimWrite
        ) ==> faults(run(events.drop_last()), events.last()),
        events.len() > 0 && run(events.drop_last()).readers > 0
            && events.last() == ClaimEvent::ClaimWrite ==> faults(run(events.drop_last()), events.last()),
        events.len() > 0 && !faults(run(events.drop_last()), events.last())
            && (events.last() == ClaimEvent::ClaimRead || events.last() == ClaimEvent::ClaimWrite)
            ==> run(events) != run(events.drop_last()),
    decreases events.len(),
{
    if events.len() > 0 {
        lemma_exclusive_access(events.drop_last());
        lemma_step_wf(run(events.drop_last()), events.last());
    }
}

} // verus!
