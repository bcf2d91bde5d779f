//! Keeping the system awake while a session records, is paused or is processed.
//!
//! The wake lock is held exactly while `should_keep_awake` holds; the host asks the
//! operating system for the execution state that `update_keep_awake` names and reports
//! whether the request succeeded.

use vstd::prelude::*;

verus! {

/// `ES_CONTINUOUS`: the requested state lasts until it is changed.
pub const ES_CONTINUOUS: u32 = 0x8000_0000;

/// `ES_SYSTEM_REQUIRED`: the system must not sleep.
pub const ES_SYSTEM_REQUIRED: u32 = 0x0000_0001;

/// `ES_DISPLAY_REQUIRED`: the display must stay on.
pub const ES_DISPLAY_REQUIRED: u32 = 0x0000_0002;

/// Whether the system should be kept awake: while recording, paused or processing.
pub fn should_keep_awake(recording: bool, paused: bool, processing: bool) -> (r: bool)
    ensures
        r == (recording || paused || processing),
{
    recording || paused || processing
}

/// A change of the thread's execution state.
#[derive(Clone, Copy, Debug, PartialEq, Eq, Structural)]
pub enum ExecutionStateRequest {
    /// Prevent system and display sleep until released.
    KeepAwake,
    /// Restore normal idle behaviour.
    Release,
}

/// The execution-state flags of a request.
pub open spec fn request_flags(r: ExecutionStateRequest) -> u32 {
    match r {
        ExecutionStateRequest::KeepAwake => ES_CONTINUOUS | ES_SYSTEM_REQUIRED | ES_DISPLAY_REQUIRED,
        ExecutionStateRequest::Release => ES_CONTINUOUS,
    }
}

impl ExecutionStateRequest {
    /// The flags to hand to the operating system.
    pub fn flags(&self) -> (f: u32)
        ensures
            f == request_flags(*self),
    {
        match self {
            ExecutionStateRequest::KeepAwake => ES_CONTINUOUS | ES_SYSTEM_REQUIRED | ES_DISPLAY_REQUIRED,
            ExecutionStateRequest::Release => ES_CONTINUOUS,
        }
    }
}

/// The request to make when the lock is `active` and should be held exactly when
/// `should_be_active`: none when nothing changes.
pub open spec fn wake_lock_request(active: bool, should_be_active: bool) -> Option<ExecutionStateRequest> {
    if active == should_be_active {
        None
    } else if should_be_active {
        Some(ExecutionStateRequest::KeepAwake)
    } else {
        Some(ExecutionStateRequest::Release)
    }
}

/// Whether the lock is held after `request`: as requested when it succeeded, as before
/// when it failed.
pub open spec fn lock_after(active: bool, request: ExecutionStateRequest, succeeded: bool) -> bool {
    if succeeded {
        request is KeepAwake
    } else {
        active
    }
}

/// The execution-state request that the session flags call for, given whether the
/// wake lock is currently held.
pub fn update_keep_awake(wake_lock_active: bool, recording: bool, paused: bool, processing: bool) -> (r:
    Option<ExecutionStateRequest>)
    ensures
        r == wake_lock_request(wake_lock_active, recording || paused || processing),
{
    let should_be_active = should_keep_awake(recording, paused, processing);
    if wake_lock_active == should_be_active {
        None
    } else if should_be_active {
        Some(ExecutionStateRequest::KeepAwake)
    } else {
        Some(ExecutionStateRequest::Release)
    }
}

/// Whether the wake lock is held after the host made `request`.
pub fn wake_lock_after(wake_lock_active: bool, request: ExecutionStateRequest, succeeded: bool) -> (r: bool)
    ensures
        r == lock_after(wake_lock_active, request, succeeded),
{
    if succeeded {
        matches!(request, ExecutionStateRequest::KeepAwake)
    } else {
        wake_lock_active
    }
}

/// Once a request has succeeded, the lock matches the flags and the same flags ask for
/// nothing more; a failed request is asked for again.
pub proof fn lemma_wake_lock_settles(active: bool, recording: bool, paused: bool, processing: bool, succeeded: bool)
    requires
        wake_lock_request(active, recording || paused || processing) is Some,
    ensures
        ({
            let should = recording || paused || processing;
            let req = wake_lock_request(active, should)->Some_0;
            let after = lock_after(active, req, succeeded);
            &&& succeeded ==> after == should
            &&& succeeded ==> wake_lock_request(after, should) is None
            &&& !succeeded ==> wake_lock_request(after, should) == Some(req)
        }),
{
}

} // verus!
