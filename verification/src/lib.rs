//! Supervisor for a locally hosted backend sidecar process.
//!
//! The library contains the decision logic of a desktop application that
//! keeps a long-running local HTTP server alive for the whole user session:
//! finding the backend executable, deciding how to launch it, gating startup
//! on health, watching its health in the background, restarting it a bounded
//! number of times, and shutting it down exactly once. All process, network
//! and keychain I/O lives outside the library; callers feed observations
//! (probe outcomes, spawn results, file-system facts) into these functions
//! and carry out the returned decisions.

pub mod config;
pub mod credentials;
pub mod gate;
pub mod launcher;
pub mod locator;
pub mod notify;
pub mod supervisor;
pub mod text;
pub mod tray;

use vstd::prelude::*;

verus! {

/// The backend reports health through a well-known endpoint; the probe
/// counts only an explicit OK status code as healthy.
pub fn is_ok_status(code: u16) -> (healthy: bool)
    ensures
        healthy == (code == 200),
{
    code == 200
}

} // verus!
