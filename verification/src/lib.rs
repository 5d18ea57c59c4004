//! Host-side discipline for binding to a GPU ray-tracing driver.
//!
//! The driver exposes its API as a global table of entry points that starts
//! out zero-initialized and is filled in exactly once by a loader call.
//! Dispatching any entry point before the table is loaded jumps through a
//! null pointer, so every call must pass an initialization guard, and the
//! loader must not be run again once the table is populated.
//!
//! This crate verifies that discipline. [`FunctionTable`] models what the
//! gating logic reads of the driver's table — whether it still holds its
//! zero-initialized default or has been filled. [`init`] decides whether the
//! loader must run, [`finish_init`] records the loader's outcome, and
//! [`check_initialized`] guards every dispatched call. Raw driver
//! status codes are translated by [`error::to_result`]. The loader and the
//! entry points themselves are unsafe calls into the proprietary driver; the
//! embedding application performs them and hands their status codes back.

pub mod error;

pub use error::OPTIX_SUCCESS;
pub use error::OptixError;
pub use error::to_result;

use vstd::prelude::*;

verus! {

/// Model of the driver's global dispatch table.
///
/// The table itself is a structure of function pointers owned by the driver
/// binding; all the gating logic ever reads of it is whether it still holds
/// its zero-initialized default or has been filled with the driver's entry
/// points. That one observation is what a value of this type carries.
pub struct FunctionTable {
    loaded: bool,
}

impl FunctionTable {
    /// Whether the table has been filled with the driver's entry points.
    pub closed spec fn is_loaded(self) -> bool {
        self.loaded
    }

    /// The table as a program first sees it: the driver's global is
    /// zero-initialized, so it starts out unloaded.
    pub fn new() -> (t: FunctionTable)
        ensures
            !t.is_loaded(),
    {
        FunctionTable { loaded: false }
    }
}

/// What [`init`] decided must happen next.
#[derive(Clone, Copy, Debug, PartialEq, Eq, Structural)]
pub enum InitStep {
    /// The table is already populated: initialization is complete and the
    /// loader must not run again.
    AlreadyInitialized,
    /// The table still holds its default: the loader must be invoked, and
    /// its status code handed to [`finish_init`].
    LoadRequired,
}

/// Decide the next step of driver initialization.
///
/// Initialization is idempotent: once the table is loaded, a later call asks
/// for no further load, so the loader never runs twice.
pub fn init(t: &FunctionTable) -> (s: InitStep)
    ensures
        s is AlreadyInitialized <==> t.is_loaded(),
        s is LoadRequired <==> !t.is_loaded(),
{
    if optix_is_initialized(t) {
        InitStep::AlreadyInitialized
    } else {
        InitStep::LoadRequired
    }
}

/// Record the outcome of a loader invocation that [`init`] asked for.
///
/// On the success code the table is now populated and stays so; on any other
/// code the table is left exactly as it was and the code is surfaced as a
/// [`OptixError::Driver`] error, so a failed load can be retried.
pub fn finish_init(t: &mut FunctionTable, code: u32) -> (r: Result<(), OptixError>)
    ensures
        r is Ok <==> code == OPTIX_SUCCESS,
        code == OPTIX_SUCCESS ==> final(t).is_loaded(),
        code != OPTIX_SUCCESS ==> *final(t) == *old(t) && r == Result::<(), OptixError>::Err(
            OptixError::Driver(code),
        ),
        r matches Err(e) ==> e.wf(),
{
    let r = to_result(code);
    if r.is_ok() {
        t.loaded = true;
    }
    r
}

/// Whether the driver has been initialized, read from the table model.
///
/// Callers that dispatch raw entry points themselves must see `true` here
/// first; the safe guard that does so for them is [`check_initialized`].
pub fn optix_is_initialized(t: &FunctionTable) -> (r: bool)
    ensures
        r == t.is_loaded(),
{
    t.loaded
}

/// The guard in front of every dispatched driver call.
///
/// A raw entry point may be invoked exactly when the table is loaded; before
/// that, the call is refused with [`OptixError::NotInitialized`] instead of
/// being dispatched. A launch, like every other driver call, goes through
/// this guard and has the status code it returns translated by
/// [`error::to_result`].
pub fn check_initialized(t: &FunctionTable) -> (r: Result<(), OptixError>)
    ensures
        r is Ok <==> t.is_loaded(),
        !t.is_loaded() ==> r == Result::<(), OptixError>::Err(OptixError::NotInitialized),
        r matches Err(e) ==> e.wf(),
{
    if optix_is_initialized(t) {
        Ok(())
    } else {
        Err(OptixError::NotInitialized)
    }
}

} // verus!
