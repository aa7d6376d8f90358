//! Diagnostics for an interactive terminal application.
//!
//! The crate decides; the program around it performs. It resolves the
//! directories in which the application keeps its data and configuration,
//! plans the start of logging step by step, renders performance events as
//! trace fragments, and orders what happens once the program has failed
//! fatally: terminal first, report second, exit last.
//!
//! Nothing here touches the file system or the terminal. Where an effect is
//! due, a function hands back a value that describes it, and the caller
//! carries it out and reports how it went.

pub mod about;
pub mod crash;
pub mod logging;
pub mod paths;
pub mod perf;
pub mod text;

pub use about::version;
pub use crash::initialize_panic_handler;
pub use logging::initialize_logging;
pub use paths::{get_config_dir, get_data_dir};
pub use perf::log_perf_event;
