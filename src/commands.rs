//! The commands that the user interface invokes.
use vstd::prelude::*;
use crate::gate::{not_ready_text, ReadinessGate};

verus! {

/// The server's port, or the not-ready message while it is unknown.
pub fn get_server_port(gate: &ReadinessGate) -> (r: Result<u16, String>)
    ensures
        match gate@ {
            Some(p) => r is Ok && r->Ok_0 == p,
            None => r is Err && r->Err_0@ == not_ready_text(),
        },
{
    match gate.get() {
        Ok(p) => Ok(p),
        Err(e) => Err(e.message()),
    }
}

} // verus!
