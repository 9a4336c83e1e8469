//! Process-control and software-breakpoint engine of a small native debugger,
//! plus a few companion utilities.
//!
//! Everything that touches the operating system (tracing, waiting, reading
//! and writing another process's memory) is performed by the caller; this
//! library holds the decisions and the data, with their contracts proved.
pub mod memory;
pub mod text;
pub mod command;
pub mod status;
pub mod breakpoints;
pub mod resume;
pub mod backtrace;
pub mod address;
pub mod session;
pub mod linked_list;
pub mod hangman;
pub mod rate_limiting;
pub mod upstream;
pub mod symbols;
pub mod wc;
