//! The real-time producer's handling of a failed hand-off to the writer.

use vstd::prelude::*;

verus! {

/// What became of one sample batch offered to the transfer channel.
#[derive(Clone, Copy, Debug, PartialEq, Eq)]
pub enum SendOutcome {
    /// The batch was enqueued.
    Sent,
    /// The hand-off failed after shutdown began: expected, the batch is dropped.
    Discarded,
    /// The hand-off failed while still recording: the writer is unexpectedly gone.
    Unexpected,
}

/// Classifies a hand-off: `sent` tells whether the channel accepted the
/// batch, `running` is the shutdown flag's negation as read after the attempt.
pub fn classify_send(sent: bool, running: bool) -> (r: SendOutcome)
    ensures
        sent ==> r == SendOutcome::Sent,
        !sent && !running ==> r == SendOutcome::Discarded,
        !sent && running ==> r == SendOutcome::Unexpected,
{
    if sent {
        SendOutcome::Sent
    } else if running {
        SendOutcome::Unexpected
    } else {
        SendOutcome::Discarded
    }
}

} // verus!
