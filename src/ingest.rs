//! The producer side: its settings, and what each poll of the simulator leads to.

use vstd::prelude::*;
use vstd::string::*;
use crate::frame::{TelemetryData, TelemetrySample};
use crate::hub::SessionSnapshot;

verus! {

/// Delay between two attempts to reach a simulator that is not running yet.
pub const SIMULATOR_RETRY_DELAY_MS: u64 = 2000;

/// Longest wait for the connection to the hub.
pub const UPLINK_CONNECT_TIMEOUT_MS: u64 = 10_000;

/// Exit status of a producer that could not reach the hub.
pub const UPLINK_CONNECT_FAILURE_STATUS: i32 = 10;

/// Default telemetry poll interval.
pub const DEFAULT_TELEMETRY_INTERVAL_MS: u64 = 250;

/// Default session poll interval.
pub const DEFAULT_SESSION_INTERVAL_MS: u64 = 5000;

/// The producer's settings, read once at startup.
#[derive(Clone, Debug)]
pub struct Settings {
    /// Milliseconds between two telemetry polls.
    pub telemetry_update_interval: u64,
    /// Milliseconds between two session polls.
    pub session_update_interval: u64,
    /// Where the hub's producer endpoint listens.
    pub telemetry_service_url: String,
}

/// The hub's producer endpoint on this machine.
pub open spec fn default_service_url() -> Seq<char> {
    "ws://127.0.0.1:8088/source"@
}

impl Default for Settings {
    fn default() -> (r: Settings)
        ensures
            r.telemetry_update_interval == DEFAULT_TELEMETRY_INTERVAL_MS,
            r.session_update_interval == DEFAULT_SESSION_INTERVAL_MS,
            r.telemetry_service_url@ == default_service_url(),
    {
        Settings {
            telemetry_update_interval: DEFAULT_TELEMETRY_INTERVAL_MS,
            session_update_interval: DEFAULT_SESSION_INTERVAL_MS,
            telemetry_service_url: String::from_str("ws://127.0.0.1:8088/source"),
        }
    }
}

/// Why a poll of the simulator gave nothing.
#[derive(Debug)]
pub struct SourceError {
    pub reason: String,
}

/// The frame to send after a telemetry poll: the one built from the sample, or
/// none when the poll failed, in which case this tick is skipped.
pub fn on_telemetry_poll(polled: Result<TelemetrySample, SourceError>) -> (r: Option<TelemetryData>)
    ensures
        polled is Err <==> r is None,
        match (polled, r) {
            (Ok(s), Some(f)) => f.wf() && f.built_from(s),
            _ => true,
        },
{
    match polled {
        Ok(s) => Some(TelemetryData::from_sample(s)),
        Err(_) => None,
    }
}

/// The snapshot to send after a session poll, or none when the poll failed.
pub fn on_session_poll(polled: Result<SessionSnapshot, SourceError>) -> (r: Option<SessionSnapshot>)
    ensures
        polled is Err <==> r is None,
        polled is Ok ==> r == Some(polled->Ok_0),
{
    match polled {
        Ok(s) => Some(s),
        Err(_) => None,
    }
}

} // verus!
