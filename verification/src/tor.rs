//! The hidden service in front of the server.

use vstd::prelude::*;

verus! {

/// Check if the hidden service is running: the server does not start one, so
/// this is never the case.
pub fn is_running() -> (res: Result<bool, ()>)
    ensures
        res == Ok::<bool, ()>(false),
{
    Ok(false)
}

} // verus!
