//! Logging setup for a node made of many modules: per-module severity
//! thresholds, aligned and coloured record lines, the choice of one sink,
//! and the lines that report an error together with its causes.
//!
//! The crate computes; whoever embeds it opens files, installs the global
//! logger and writes to the terminal.

pub mod chain;
pub mod dispatch;
pub mod format;
pub mod level;
pub mod settings;
pub mod text;
pub mod width;

pub use crate::chain::log_error_cause_chain;
pub use crate::dispatch::{initialize_logging, NimiqDispatch};
pub use crate::level::DEFAULT_LEVEL;
pub use crate::width::max_module_width;
