//! The two-phase protocol of every variable-length native call.
//!
//! A value of unknown size is fetched in two native calls: a probe with a
//! zero-capacity buffer, which is expected to fail with "insufficient buffer" and to
//! report the size that is needed, and a fill with a buffer of exactly that size.
//! The caller performs the calls; this module decides what to call next.

use vstd::prelude::*;

verus! {

/// The status with which a native call reports that the offered buffer is too small.
pub const ERROR_INSUFFICIENT_BUFFER: u32 = 122;

/// What one native call reported.
#[derive(Clone, Copy, Debug, PartialEq, Eq, Structural)]
pub struct CallReply {
    /// Whether the call returned success.
    pub succeeded: bool,
    /// The thread's last-error code after the call; meaningful when it failed.
    pub last_error: u32,
    /// The size that the call wrote to its "buffer used" output.
    pub buffer_used: u32,
}

impl CallReply {
    /// The reply is the expected outcome of a probe: a failure that asks for a buffer.
    pub open spec fn asks_for_buffer(self) -> bool {
        !self.succeeded && self.last_error == ERROR_INSUFFICIENT_BUFFER
    }
}

/// The native call that is due next.
#[derive(Clone, Copy, Debug, PartialEq, Eq, Structural)]
pub enum NativeRequest {
    /// Call with a null buffer of capacity zero.
    Probe,
    /// Call with a freshly allocated buffer of exactly `capacity` units.
    Fill { capacity: u32 },
    /// No call is due: the exchange is over.
    Nothing,
}

/// Progress of one two-phase exchange.
#[derive(Clone, Copy, Debug, PartialEq, Eq, Structural)]
pub enum BufferedCall {
    /// The probe has not been answered yet.
    Probing,
    /// The probe asked for `capacity` units; the fill has not been answered yet.
    Filling { capacity: u32 },
    /// The fill succeeded: the buffer of `capacity` units holds the value.
    Produced { capacity: u32 },
    /// The exchange ended without a value.
    Abandoned,
}

impl BufferedCall {
    /// The state that follows when the pending call is answered by `reply`.
    ///
    /// A probe leads to a fill only when it fails with "insufficient buffer"; any
    /// other outcome of the probe, and a failed fill, end the exchange without a
    /// value. Nothing is retried, and a finished exchange stays as it is.
    pub open spec fn after(self, reply: CallReply) -> BufferedCall {
        match self {
            BufferedCall::Probing => if reply.asks_for_buffer() {
                BufferedCall::Filling { capacity: reply.buffer_used }
            } else {
                BufferedCall::Abandoned
            },
            BufferedCall::Filling { capacity } => if reply.succeeded {
                BufferedCall::Produced { capacity }
            } else {
                BufferedCall::Abandoned
            },
            BufferedCall::Produced { capacity } => BufferedCall::Produced { capacity },
            BufferedCall::Abandoned => BufferedCall::Abandoned,
        }
    }

    /// The native call that is due in this state.
    pub open spec fn pending(self) -> NativeRequest {
        match self {
            BufferedCall::Probing => NativeRequest::Probe,
            BufferedCall::Filling { capacity } => NativeRequest::Fill { capacity },
            BufferedCall::Produced { .. } => NativeRequest::Nothing,
            BufferedCall::Abandoned => NativeRequest::Nothing,
        }
    }

    /// No further native call is due.
    pub open spec fn finished(self) -> bool {
        self is Produced || self is Abandoned
    }

    /// A fresh exchange, with the probe due.
    pub fn start() -> (call: BufferedCall)
        ensures
            call == BufferedCall::Probing,
    {
        BufferedCall::Probing
    }

    /// The native call to perform next.
    pub fn request(&self) -> (request: NativeRequest)
        ensures
            request == self.pending(),
    {
        match self {
            BufferedCall::Probing => NativeRequest::Probe,
            BufferedCall::Filling { capacity } => NativeRequest::Fill { capacity: *capacity },
            BufferedCall::Produced { .. } => NativeRequest::Nothing,
            BufferedCall::Abandoned => NativeRequest::Nothing,
        }
    }

    /// Takes the reply to the pending call and moves to the next state.
    pub fn advance(self, reply: CallReply) -> (next: BufferedCall)
        ensures
            next == self.after(reply),
    {
        match self {
            BufferedCall::Probing => {
                if !reply.succeeded && reply.last_error == ERROR_INSUFFICIENT_BUFFER {
                    BufferedCall::Filling { capacity: reply.buffer_used }
                } else {
                    BufferedCall::Abandoned
                }
            },
            BufferedCall::Filling { capacity } => {
                if reply.succeeded {
                    BufferedCall::Produced { capacity }
                } else {
                    BufferedCall::Abandoned
                }
            },
            BufferedCall::Produced { capacity } => BufferedCall::Produced { capacity },
            BufferedCall::Abandoned => BufferedCall::Abandoned,
        }
    }

    /// Whether the exchange is over.
    pub fn is_finished(&self) -> (done: bool)
        ensures
            done == self.finished(),
    {
        match self {
            BufferedCall::Produced { .. } => true,
            BufferedCall::Abandoned => true,
            _ => false,
        }
    }

    /// Whether the exchange ended with a filled buffer.
    pub fn has_value(&self) -> (filled: bool)
        ensures
            filled == (*self is Produced),
    {
        match self {
            BufferedCall::Produced { .. } => true,
            _ => false,
        }
    }
}

/// An exchange is over after at most two native calls, whatever they report.
pub proof fn lemma_two_calls_finish(probe: CallReply, fill: CallReply)
    ensures
        BufferedCall::Probing.pending() == NativeRequest::Probe,
        BufferedCall::Probing.after(probe).after(fill).finished(),
        BufferedCall::Probing.after(probe).finished() || BufferedCall::Probing.after(
            probe,
        ).pending() is Fill,
{
}

/// The fill is requested with exactly the size that the probe reported, however
/// large, and a value is produced exactly when the probe asked for a buffer and the
/// fill then succeeded.
pub proof fn lemma_fill_uses_reported_size(probe: CallReply, fill: CallReply)
    ensures
        probe.asks_for_buffer() ==> BufferedCall::Probing.after(probe).pending()
            == (NativeRequest::Fill { capacity: probe.buffer_used }),
        !probe.asks_for_buffer() ==> BufferedCall::Probing.after(probe)
            == BufferedCall::Abandoned,
        BufferedCall::Probing.after(probe).after(fill) is Produced <==> probe.asks_for_buffer()
            && fill.succeeded,
        BufferedCall::Probing.after(probe).after(fill) matches BufferedCall::Produced {
            capacity,
        } ==> capacity == probe.buffer_used,
{
}

/// A finished exchange ignores every further reply.
pub proof fn lemma_finished_is_final(call: BufferedCall, reply: CallReply)
    requires
        call.finished(),
    ensures
        call.after(reply) == call,
        call.pending() == NativeRequest::Nothing,
{
}

} // verus!
