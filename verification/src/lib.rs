//! Supervision of a backend service process: locating it, planning its launch,
//! holding the application window back until a two-phase readiness probe succeeds, reporting
//! progress, and terminating the child exactly once.

pub mod launch;
pub mod paths;
pub mod probe;
pub mod probe_laws;
pub mod progress;
pub mod progress_laws;
pub mod shutdown;
pub mod status;
pub mod supervisor;
pub mod supervisor_laws;
pub mod text;
