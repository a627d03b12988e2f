//! Lifecycle rules of a desktop shell that keeps one backend server process:
//! what to launch, what to remember of the launch, what to kill when the main
//! window closes, and what to tell the operator at each step.
//!
//! Nothing here touches the operating system. The caller spawns, kills and
//! prints; this crate decides.

pub mod command;
pub mod decimal;
pub mod diagnostics;
pub mod greeting;
pub mod supervisor;

pub use command::{backend_command, LaunchCommand};
pub use decimal::decimal_text;
pub use diagnostics::{Diagnostic, Stream};
pub use greeting::greet;
pub use supervisor::{settle_launch, BackendProcess, Launch, Settled, Termination, WindowEvent};
