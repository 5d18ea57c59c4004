use vstd::prelude::*;

verus! {

/// The status code with which the driver reports that a call succeeded.
/// Every other code is a failure.
pub const OPTIX_SUCCESS: u32 = 0;

/// An error surfaced by this crate.
#[derive(Clone, Copy, Debug, PartialEq, Eq, Structural)]
pub enum OptixError {
    /// A call was about to be dispatched before the driver's dispatch table
    /// had been loaded. Dispatching through an unloaded table would jump
    /// through a null pointer, so the guard reports this instead.
    NotInitialized,
    /// The driver itself reported a failing status code.
    Driver(u32),
}

impl OptixError {
    /// A `Driver` error only ever carries a failing status code: translation
    /// never wraps the success code in an error.
    pub open spec fn wf(self) -> bool {
        self matches OptixError::Driver(code) ==> code != OPTIX_SUCCESS
    }
}

/// Translate a raw status code returned by a driver entry point into a
/// `Result`: the success code becomes `Ok`, every other code is carried
/// unchanged inside `OptixError::Driver`.
pub fn to_result(code: u32) -> (r: Result<(), OptixError>)
    ensures
        r is Ok <==> code == OPTIX_SUCCESS,
        code != OPTIX_SUCCESS ==> r == Result::<(), OptixError>::Err(OptixError::Driver(code)),
        r matches Err(e) ==> e.wf(),
{
    if code == OPTIX_SUCCESS {
        Ok(())
    } else {
        Err(OptixError::Driver(code))
    }
}

} // verus!
