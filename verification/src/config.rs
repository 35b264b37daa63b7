//! Fixed parameters of the supervisor: the backend's local address, probe
//! timeouts, the watchdog's thresholds and intervals, and the startup gate's
//! polling bounds.

use vstd::prelude::*;

verus! {

/// Socket address of the backend, always on local loopback.
pub const BACKEND_ADDR: &'static str = "127.0.0.1:8000";

/// Base URL of the backend.
pub const BACKEND_URL: &'static str = "http://127.0.0.1:8000";

/// Path of the health endpoint under the base URL.
pub const HEALTH_PATH: &'static str = "/status";

/// Timeout in milliseconds for the transport-level connect probe.
pub const TRANSPORT_PROBE_TIMEOUT_MS: u64 = 350;

/// Connect timeout in seconds for the application-level health probe.
pub const HEALTH_CONNECT_TIMEOUT_SECS: u64 = 2;

/// Total timeout in seconds for the application-level health probe.
pub const HEALTH_TOTAL_TIMEOUT_SECS: u64 = 5;

/// Consecutive failed health probes that trigger a restart attempt.
pub const RESTART_THRESHOLD: u32 = 3;

/// Maximum automatic restarts within one session of the host application.
pub const SESSION_RESTART_CAP: u32 = 5;

/// Seconds the watchdog waits after a launch before its first probe, so a
/// slowly booting backend is not counted as failed.
pub const WATCHDOG_GRACE_SECS: u64 = 15;

/// Seconds between two watchdog probes.
pub const WATCHDOG_TICK_SECS: u64 = 10;

/// The watchdog's tick sleep is cut into slices of this many seconds, so a
/// stop request is honored within about one slice rather than a whole tick.
pub const WATCHDOG_POLL_SLICE_SECS: u64 = 1;

/// Polls the startup gate makes before giving up, one final probe aside.
pub const STARTUP_GATE_ATTEMPTS: u32 = 60;

/// Milliseconds between two startup-gate polls.
pub const STARTUP_GATE_INTERVAL_MS: u64 = 500;

/// URL of the health endpoint: the base URL followed by the health path.
pub fn health_url() -> (url: String)
    ensures
        url@ == BACKEND_URL@ + HEALTH_PATH@,
{
    let url = String::from_str(BACKEND_URL).concat(HEALTH_PATH);
    url
}

} // verus!
