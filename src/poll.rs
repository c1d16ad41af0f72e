use crate::error::CaptureError;
use vstd::prelude::*;

verus! {

/// How long to wait after a poll that found no frame, in milliseconds.
pub const POLL_INTERVAL_MS: u64 = 100;

/// What one non-blocking poll of a capture session reported.
#[derive(Clone, Debug, PartialEq, Eq)]
pub enum FrameStatus {
    /// A completed frame, as raw bytes.
    Ready(Vec<u8>),
    /// No frame yet; this is no failure.
    NotReady,
    /// The device failed.
    Failed,
}

/// What the caller does after a poll.
#[derive(Clone, Debug, PartialEq, Eq)]
pub enum PollAction {
    /// Wait `POLL_INTERVAL_MS` and poll again.
    Retry,
    /// Stop polling: this is the frame.
    Deliver(Vec<u8>),
    /// Stop polling and report the error.
    Abort(CaptureError),
}

/// The action that follows a poll that reported `status`.
pub open spec fn poll_action_of(status: FrameStatus) -> PollAction {
    match status {
        FrameStatus::Ready(frame) => PollAction::Deliver(frame),
        FrameStatus::NotReady => PollAction::Retry,
        FrameStatus::Failed => PollAction::Abort(CaptureError::CaptureIOError),
    }
}

/// Decides what follows a poll: only "not ready" is retried, a device failure
/// is `CaptureIOError` at once, and a frame ends the wait.
pub fn decide_poll(status: FrameStatus) -> (a: PollAction)
    ensures
        a == poll_action_of(status),
{
    match status {
        FrameStatus::Ready(frame) => PollAction::Deliver(frame),
        FrameStatus::NotReady => PollAction::Retry,
        FrameStatus::Failed => PollAction::Abort(CaptureError::CaptureIOError),
    }
}

/// Polling a device that reports `statuses` in turn: the number of waits, and
/// the action that ended the polling, if one did.
pub open spec fn run_polls(statuses: Seq<FrameStatus>) -> (nat, Option<PollAction>)
    decreases statuses.len(),
{
    if statuses.len() == 0 {
        (0, None)
    } else {
        match poll_action_of(statuses[0]) {
            PollAction::Retry => {
                let rest = run_polls(statuses.drop_first());
                (rest.0 + 1, rest.1)
            },
            other => (0, Some(other)),
        }
    }
}

/// `k` polls that find no frame, then one that finds `frame`.
pub open spec fn ready_after(k: nat, frame: Vec<u8>) -> Seq<FrameStatus> {
    Seq::new(k, |i: int| FrameStatus::NotReady).push(FrameStatus::Ready(frame))
}

/// A device that is not ready `k` times and then has a frame is waited on
/// exactly `k` times, and the frame delivered is the one of the successful
/// poll; whatever it would report afterwards is never asked.
pub proof fn lemma_poll_waits_then_delivers(k: nat, frame: Vec<u8>, later: Seq<FrameStatus>)
    ensures
        run_polls(ready_after(k, frame) + later) == (k, Some(PollAction::Deliver(frame))),
    decreases k,
{
    let s = ready_after(k, frame) + later;
    if k == 0 {
        assert(s[0] == FrameStatus::Ready(frame));
    } else {
        let k1 = (k - 1) as nat;
        assert(s[0] == FrameStatus::NotReady);
        assert(s.drop_first() =~= ready_after(k1, frame) + later);
        lemma_poll_waits_then_delivers(k1, frame, later);
    }
}

} // verus!
