//! Ownership of one native event-log handle.

use vstd::prelude::*;

verus! {

/// Guard of one native handle obtained from an open or enumerate call.
///
/// The guard is move-only. The raw value can be read any number of times, but the
/// guard hands it out for closing exactly once: the first `release` yields it, every
/// later one yields nothing.
#[derive(Debug)]
pub struct EvtHandle {
    raw: usize,
    live: bool,
}

/// The handle value that the native open calls return on failure.
pub const NULL_HANDLE: usize = 0;

impl EvtHandle {
    /// The raw handle value that this guard owns.
    pub closed spec fn raw_value(&self) -> usize {
        self.raw
    }

    /// Whether the close operation is still owed for this guard.
    pub closed spec fn is_live(&self) -> bool {
        self.live
    }

    /// The guard after a release, and the raw value that the release hands out.
    pub open spec fn released(self) -> (EvtHandle, Option<usize>) {
        (
            self.retired(),
            if self.is_live() {
                Some(self.raw_value())
            } else {
                None
            },
        )
    }

    /// The same handle with the close operation no longer owed.
    pub closed spec fn retired(self) -> EvtHandle {
        EvtHandle { raw: self.raw, live: false }
    }

    /// Takes ownership of a raw handle value.
    pub fn new(raw: usize) -> (handle: EvtHandle)
        ensures
            handle.raw_value() == raw,
            handle.is_live(),
    {
        EvtHandle { raw, live: true }
    }

    /// The raw handle value, for passing to native calls.
    pub fn raw(&self) -> (raw: usize)
        ensures
            raw == self.raw_value(),
    {
        self.raw
    }

    /// Whether the owned value is the null handle.
    pub fn is_null(&self) -> (null: bool)
        ensures
            null == (self.raw_value() == NULL_HANDLE),
    {
        self.raw == NULL_HANDLE
    }

    /// Whether the close operation is still owed.
    pub fn needs_release(&self) -> (owed: bool)
        ensures
            owed == self.is_live(),
    {
        self.live
    }

    /// Hands out the raw value for the one close operation.
    ///
    /// Returns the raw value if the close is still owed, and nothing otherwise.
    /// Afterwards the close is no longer owed.
    pub fn release(&mut self) -> (to_close: Option<usize>)
        ensures
            (*final(self), to_close) == (*old(self)).released(),
            to_close is Some <==> old(self).is_live(),
            to_close matches Some(raw) ==> raw == old(self).raw_value(),
            !final(self).is_live(),
            final(self).raw_value() == old(self).raw_value(),
    {
        if self.live {
            self.live = false;
            Some(self.raw)
        } else {
            None
        }
    }
}

/// A guard hands out its raw value on the first release and never again, and keeps
/// the value for reading.
pub proof fn lemma_release_exactly_once(handle: EvtHandle)
    ensures
        handle.released().1 is Some <==> handle.is_live(),
        handle.is_live() ==> handle.released().1 == Some(handle.raw_value()),
        !handle.released().0.is_live(),
        handle.released().0.raw_value() == handle.raw_value(),
        handle.released().0.released().1 is None,
        handle.released().0.released().0 == handle.released().0,
{
}

} // verus!
