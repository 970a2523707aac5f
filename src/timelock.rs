use vstd::prelude::*;

verus! {

/// Delay in seconds between proposing a change and executing it.
pub const TIMELOCK_DURATION: i64 = 86400;

/// Why a proposal may not execute. Shared by every kind of proposal.
#[derive(Clone, Copy, Debug, PartialEq, Eq, Structural)]
pub enum TimelockRejection {
    AlreadyExecuted,
    Cancelled,
    NotExpired,
}

/// Whether the delay since `proposed_at` has run out at `now`.
pub open spec fn delay_elapsed(proposed_at: i64, now: i64) -> bool {
    now as int - proposed_at as int >= TIMELOCK_DURATION as int
}

/// First reason a proposal in the given state may not execute at `now`, if
/// any. A cancelled proposal never executes, however long it has waited.
pub open spec fn execute_rejection(executed: bool, cancelled: bool, proposed_at: i64, now: i64) -> Option<TimelockRejection> {
    if executed {
        Some(TimelockRejection::AlreadyExecuted)
    } else if cancelled {
        Some(TimelockRejection::Cancelled)
    } else if !delay_elapsed(proposed_at, now) {
        Some(TimelockRejection::NotExpired)
    } else {
        None
    }
}

/// Decides whether a proposal in the given state may execute at `now`.
pub fn check_executable(executed: bool, cancelled: bool, proposed_at: i64, now: i64) -> (r: Result<(), TimelockRejection>)
    ensures
        match r {
            Ok(()) => execute_rejection(executed, cancelled, proposed_at, now) is None,
            Err(e) => execute_rejection(executed, cancelled, proposed_at, now) == Some(e),
        },
{
    if executed {
        Err(TimelockRejection::AlreadyExecuted)
    } else if cancelled {
        Err(TimelockRejection::Cancelled)
    } else if (now as i128) - (proposed_at as i128) < TIMELOCK_DURATION as i128 {
        Err(TimelockRejection::NotExpired)
    } else {
        Ok(())
    }
}

/// Decides whether a proposal in the given state may be cancelled: only one
/// that has not executed. Elapsed time plays no part.
pub fn check_cancellable(executed: bool) -> (r: Result<(), TimelockRejection>)
    ensures
        r is Ok <==> !executed,
        r matches Err(e) ==> e == TimelockRejection::AlreadyExecuted,
{
    if executed {
        Err(TimelockRejection::AlreadyExecuted)
    } else {
        Ok(())
    }
}

} // verus!
