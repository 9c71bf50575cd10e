//! A small kernel for a desktop shell over a Linux guest: a registry of
//! symbolic processes, the commands that list and end the guest's processes,
//! and the reading of what those commands give back.

pub mod commands;
pub mod decimal;
pub mod kernel;
pub mod process;
pub mod shell;
pub mod text;

pub use commands::{greet, kill_process};
pub use kernel::{kill_command, list_command, Kernel, SystemInfo};
pub use process::{classify_status, parse_process_line, parse_process_table, Process};
pub use shell::{bash_invocation, ShellCommand, ShellOutput};
