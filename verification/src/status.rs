//! Driver status codes and the failure they turn into.

use vstd::prelude::*;

verus! {

/// The status with which the driver reports that a call succeeded.
pub const SUCCESS: u32 = 0;

/// Why a launch did not go through.
#[derive(Debug, Clone, Copy, PartialEq, Eq, Structural)]
pub enum LaunchError {
    /// The driver refused to enqueue the kernel; the field is the status it
    /// answered with, which is never [`SUCCESS`] when it comes from
    /// [`check`].
    LaunchFailed(u32),
}

/// What a driver status means to the caller: [`SUCCESS`] is `Ok`, and every
/// other status is a failure that carries the status unchanged.
pub open spec fn status_result(status: u32) -> Result<(), LaunchError> {
    if status == SUCCESS {
        Ok(())
    } else {
        Err(LaunchError::LaunchFailed(status))
    }
}

/// Turns the status of a driver call into a `Result`. No status is
/// swallowed and none is retried: the caller decides what a failure means.
pub fn check(status: u32) -> (res: Result<(), LaunchError>)
    ensures
        res == status_result(status),
        res is Ok <==> status == SUCCESS,
{
    if status == SUCCESS {
        Ok(())
    } else {
        Err(LaunchError::LaunchFailed(status))
    }
}

} // verus!
