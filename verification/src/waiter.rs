//! The wait for one frame identifier, bounded by a deadline.
//!
//! The wait itself is a loop around the clock and the bus; what is decided
//! in each turn of it stands here: whether the deadline has passed, and
//! whether a received frame is the awaited one.

use vstd::prelude::*;
use crate::frame::{CanFrame, FrameId, FrameView};
use crate::monotimer::Deadline;

verus! {

/// A wait for a frame with one identifier.
#[derive(Clone, Copy, Debug, PartialEq, Eq, Structural)]
pub struct FrameWaiter {
    /// The awaited identifier.
    pub target: FrameId,
    /// When the wait began and how long it lasts.
    pub deadline: Deadline,
}

impl FrameWaiter {
    /// What becomes of a frame offered to the waiter: it is kept when its
    /// identifier equals the target, bit for bit and kind for kind, and
    /// discarded otherwise.
    pub open spec fn kept(self, frame: FrameView) -> Option<FrameView> {
        if frame.id == self.target {
            Some(frame)
        } else {
            None
        }
    }

    /// Begins a wait for `id` at the counter reading `now`, to last
    /// `timeout_ticks` ticks.
    pub fn wait_for(id: FrameId, now: u32, timeout_ticks: u32) -> (waiter: Self)
        ensures
            waiter == (FrameWaiter {
                target: id,
                deadline: Deadline { start: now, duration: timeout_ticks },
            }),
    {
        FrameWaiter { target: id, deadline: Deadline::new(now, timeout_ticks) }
    }

    /// Tells whether the wait is over at the counter reading `now`.
    pub fn timed_out(&self, now: u32) -> (over: bool)
        ensures
            over == self.deadline.expired_at(now),
    {
        self.deadline.expired(now)
    }

    /// Takes a frame that the bus delivered: hands it back if it is the
    /// awaited one and drops it if not.
    pub fn offer(&self, frame: CanFrame) -> (matched: Option<CanFrame>)
        ensures
            matched is Some <==> frame@.id == self.target,
            matched is Some ==> matched == Some(frame),
            self.kept(frame@) == (match matched {
                Some(handed) => Some(handed@),
                None => None,
            }),
    {
        if frame.id() == self.target {
            Some(frame)
        } else {
            None
        }
    }
}

/// A waiter never keeps a frame with another identifier than its target,
/// however many such frames arrive first: of the frames offered in turn,
/// each one before the first with the target identifier is discarded, and
/// that one is kept as it is.
pub proof fn first_match_is_kept(waiter: FrameWaiter, frames: Seq<FrameView>, first: int)
    requires
        0 <= first < frames.len(),
        frames[first].id == waiter.target,
        forall|j: int| 0 <= j < first ==> frames[j].id != waiter.target,
    ensures
        forall|j: int| 0 <= j < first ==> waiter.kept(#[trigger] frames[j]) is None,
        waiter.kept(frames[first]) == Some(frames[first]),
        forall|j: int|
            0 <= j < frames.len() && waiter.kept(#[trigger] frames[j]) is Some ==> waiter.kept(
                frames[j],
            ).unwrap().id == waiter.target,
{
}

} // verus!
