//! Out-of-memory errors, and the reading of the result codes that buffer creation
//! gets back from the device.

use vstd::prelude::*;
use crate::flags::{ERROR_OUT_OF_DEVICE_MEMORY, ERROR_OUT_OF_HOST_MEMORY, SUCCESS};

verus! {

/// Error type returned by functions that can only fail because memory ran out.
#[derive(Debug, Copy, Clone, PartialEq, Eq, Structural)]
pub enum OomError {
    /// There is no memory available on the host (ie. the CPU, RAM, etc.).
    OutOfHostMemory,
    /// There is no memory available on the device (ie. video memory).
    OutOfDeviceMemory,
}

/// The result codes that creating a buffer and binding memory to it can return:
/// success, or running out of host or of device memory.
pub open spec fn is_allocation_result(code: u32) -> bool {
    code == SUCCESS || code == ERROR_OUT_OF_HOST_MEMORY || code == ERROR_OUT_OF_DEVICE_MEMORY
}

/// What a result code means: `Ok` on success, else the memory that ran out.
pub open spec fn allocation_outcome(code: u32) -> Result<(), OomError> {
    if code == SUCCESS {
        Ok(())
    } else if code == ERROR_OUT_OF_HOST_MEMORY {
        Err(OomError::OutOfHostMemory)
    } else {
        Err(OomError::OutOfDeviceMemory)
    }
}

/// Turns the result code of a buffer creation or of a memory binding into a
/// `Result`.
pub fn check_errors(code: u32) -> (r: Result<(), OomError>)
    requires
        is_allocation_result(code),
    ensures
        r == allocation_outcome(code),
{
    if code == SUCCESS {
        Ok(())
    } else if code == ERROR_OUT_OF_HOST_MEMORY {
        Err(OomError::OutOfHostMemory)
    } else {
        Err(OomError::OutOfDeviceMemory)
    }
}

} // verus!
