//! Companion-engine helpers: the data the liveness probe reports and the
//! errors of the start/stop paths. The probe itself and the process
//! spawn are outside collaborators; only what they hand back is shaped
//! here.

use vstd::prelude::*;

verus! {

/// What a liveness probe against the engine's local port reports.
#[derive(Debug, PartialEq, Eq)]
pub struct EngineProcessInfo {
    pub running: bool,
    pub pid: Option<u32>,
    pub port: u16,
}

/// Every way an engine-management operation can fail.
#[derive(Debug, PartialEq, Eq)]
pub enum EngineError {
    NotRunning,
    StartFailed(String),
    StopFailed(String),
}

/// Shapes a probe's observation: whether a connection to the port
/// succeeded, for which port. No process id is known from a bare
/// connection probe.
pub fn engine_process_info(running: bool, port: u16) -> (r: EngineProcessInfo)
    ensures
        r.running == running,
        r.pid is None,
        r.port == port,
{
    EngineProcessInfo { running, pid: None, port }
}

/// The advice handed to a caller that wants a graceful engine shutdown.
pub fn get_engine_command_hint() -> (r: String)
    ensures
        r@ == "Use API endpoint POST /v1/engine/shutdown to request graceful shutdown"@,
{
    "Use API endpoint POST /v1/engine/shutdown to request graceful shutdown".to_owned()
}

} // verus!
