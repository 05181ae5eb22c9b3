//! A report handler for eyre that captures a stack backtrace with the
//! backtrace crate and renders error reports with their chain of causes.

pub mod handler;
pub mod hook;
pub mod render;

pub use handler::{backtrace_of, Handler};
pub use hook::{install, HookBuilder, HookSlot, InstallError, GENERAL_OVERRIDE_VAR, LIBRARY_OVERRIDE_VAR};
pub use render::{indented_text, render_report, report_text};
