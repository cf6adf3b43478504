//! Lifecycle control of a macOS background service through `launchctl`.
//!
//! A [`Service`] names a launchd service and the identifiers and paths that
//! belong to it. Starting, stopping and restarting it are decision procedures:
//! each one says which request to make next (look for a file, write an empty
//! file, run the control tool) and, given the reply, how to go on. The caller
//! carries the requests out; every decision is made, and proved, here.

pub mod command;
pub mod exchange;
pub mod laws;
pub mod lifecycle;
pub mod run;
pub mod service;

pub use service::Service;
pub use service::ServiceBuilder;
pub use exchange::IoFailure;
pub use exchange::Progress;
pub use exchange::Reply;
pub use exchange::Request;
pub use exchange::ServiceError;
pub use exchange::Subcommand;
pub use lifecycle::LogStep;
pub use lifecycle::RestartStep;
pub use lifecycle::StartStep;
pub use lifecycle::StopStep;
