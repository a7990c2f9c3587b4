//! Error taxonomy and the mapping from driver status codes.

use vstd::prelude::*;

verus! {

/// Status code with which the driver reports that a call succeeded.
pub const VIGEM_ERROR_NONE: u32 = 0x2000_0000;

/// What can go wrong at this layer.
#[derive(Debug, Clone, Copy, PartialEq, Eq, Structural)]
pub enum VigemError {
    /// The driver answered a call with a status other than success; the
    /// status is carried unchanged.
    NativeOperationFailed(u32),
    /// The driver reported a type or state code outside the known set.
    ConsistencyViolation,
    /// An operation was invoked outside its precondition.
    CallerContractViolation,
}

impl VigemError {
    /// The meaning of a driver status code: success for
    /// [`VIGEM_ERROR_NONE`], a failure carrying the code for anything else.
    pub open spec fn spec_from_status(status: u32) -> Result<(), VigemError> {
        if status == VIGEM_ERROR_NONE {
            Ok(())
        } else {
            Err(VigemError::NativeOperationFailed(status))
        }
    }

    /// Maps the status code that the driver returned from a call.
    pub fn from_status(status: u32) -> (res: Result<(), VigemError>)
        ensures
            res == Self::spec_from_status(status),
    {
        if status == VIGEM_ERROR_NONE {
            Ok(())
        } else {
            Err(VigemError::NativeOperationFailed(status))
        }
    }

    /// Whether the caller may recover from this error: only a failed driver
    /// call is recoverable.
    pub fn is_recoverable(&self) -> (res: bool)
        ensures
            res == (*self is NativeOperationFailed),
    {
        match self {
            VigemError::NativeOperationFailed(_) => true,
            _ => false,
        }
    }
}

} // verus!
