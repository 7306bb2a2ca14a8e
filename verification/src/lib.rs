//! Supervision of a companion backend process (a sidecar) for a desktop shell.
//!
//! The library holds the decisions: where the sidecar's entry point lies, which
//! step a start, a stop or a status request takes next, and what is written to
//! the log. The host performs the steps and reports what came of them.

pub mod error;
pub mod laws;
pub mod lifecycle;
pub mod log_sink;
pub mod model;
pub mod path;
pub mod platform;
pub mod resolver;
pub mod supervisor;
pub mod text;

pub use lifecycle::run;
pub use supervisor::{get_yallma3api_status, kill_yallma3api, spawn_yallma3api, SidecarState};
