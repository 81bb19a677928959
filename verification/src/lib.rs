//! A local process supervisor: it launches one long-lived worker process,
//! waits for the worker's TCP listener to come up by polling with a bounded
//! number of attempts, and records every supervisory decision in an
//! append-only diagnostic log.
//!
//! The supervisor itself performs no I/O. Callers resolve the executable,
//! spawn the process, open connections and sleep; this crate makes the
//! decisions, keeps the state machine, and renders the log lines.

pub mod diag;
pub mod port;
pub mod supervisor;
