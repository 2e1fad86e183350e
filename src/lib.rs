//! Supervision core for the desktop shell: the readiness cell that holds the
//! server's port, the decoding of the server's status lines, the relay that
//! turns output events into notifications, the launch plans of the server,
//! and the commands the user interface calls.
use vstd::prelude::*;

pub mod commands;
pub mod gate;
pub mod launch;
pub mod relay;
pub mod status;

verus! {

} // verus!
