//! The Unix side of the platform layer: no elevation, no console signaling,
//! argv passed as is.

use vstd::prelude::*;

use crate::backend::platform::ElevationError;

verus! {

/// Nothing to prepare on Unix.
pub fn init_console_for_signaling() {
}

/// The application never elevates itself on Unix; every start is treated as
/// ready to spawn directly.
pub fn is_process_elevated() -> (r: bool)
    ensures
        r,
{
    true
}

/// Elevation is not available on Unix.
pub fn relaunch_self_elevated(args: &Vec<String>) -> (r: Result<(), ElevationError>)
    ensures
        r matches Err(ElevationError::Unsupported),
{
    Err(ElevationError::Unsupported)
}

/// argv is passed directly on Unix: the argument unchanged.
pub fn escape_arg(arg: &str) -> (r: String)
    ensures
        r@ == arg@,
{
    arg.to_owned()
}

} // verus!
