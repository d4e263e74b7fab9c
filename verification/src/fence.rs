//! The fence-to-suspension bridge: a GPU fence polled from a cooperative
//! context. Polling reads the fence's status and decides whether the waiting
//! task resumes, registers to be woken and stays pending, or fails.

use vstd::prelude::*;

verus! {

/// Raw API flag for a fence created already signalled.
pub const FENCE_CREATE_SIGNALED: u32 = 1;

/// What a status query on a fence reported. Any error other than
/// not-ready is carried through to the waiter.
#[derive(Clone, Copy, PartialEq, Eq, Structural, Debug)]
pub enum FenceStatus {
    Signaled,
    NotReady,
    Error(i32),
}

/// What the poll does next.
#[derive(Clone, Copy, PartialEq, Eq, Structural, Debug)]
pub enum PollAction {
    /// The fence is signalled: resume the waiter successfully.
    Complete,
    /// Not yet signalled: hand the waker to the polling worker and stay
    /// pending.
    RegisterWake,
    /// The query itself failed: resume the waiter with the error.
    Fail(i32),
}

/// Decide one poll of a fence-backed suspension point.
pub fn poll_fence(status: FenceStatus) -> (r: PollAction)
    ensures
        r == (match status {
            FenceStatus::Signaled => PollAction::Complete,
            FenceStatus::NotReady => PollAction::RegisterWake,
            FenceStatus::Error(e) => PollAction::Fail(e),
        }),
{
    match status {
        FenceStatus::Signaled => PollAction::Complete,
        FenceStatus::NotReady => PollAction::RegisterWake,
        FenceStatus::Error(e) => PollAction::Fail(e),
    }
}

/// The creation flags a fence gets: already signalled exactly when asked for.
pub fn fence_create_flags(signalled: bool) -> (r: u32)
    ensures
        signalled ==> r == FENCE_CREATE_SIGNALED,
        !signalled ==> r == 0,
{
    if signalled {
        FENCE_CREATE_SIGNALED
    } else {
        0
    }
}

} // verus!
