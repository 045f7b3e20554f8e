//! Supervision core for an external container-management command-line tool.
//!
//! The library holds the decision logic of the supervisor: how a one-shot
//! invocation's captured output becomes a result record, how the tool binary
//! is selected among well-known installation paths, how live log-tailing
//! sessions are registered and cooperatively cancelled, how each observed
//! output line becomes a tagged event, and how the tool's structured listing
//! and availability are reported.  The surrounding application performs the
//! actual process spawning, file-system probing and event routing, and hands
//! this library plain values.

pub mod command;
pub mod listing;
pub mod locator;
pub mod registry;
pub mod status;
pub mod tail;
pub mod text;

pub use command::CommandResult;
pub use registry::StreamRegistry;
pub use tail::LogLine;
