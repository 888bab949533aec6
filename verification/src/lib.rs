//! Verified core of a terminal task runner.
//!
//! The crate holds the decisions of a runner that executes the tasks of a
//! menu in an embedded pseudo-terminal: how the selected tasks are merged
//! into one shell script, how key presses become the bytes that the child
//! reads, how the runner moves from running to finished, how its output
//! buffer grows, and how the host terminal is restored exactly once.
//!
//! Whatever touches the operating system is left to the caller, which
//! hands in plain values and carries out the actions that come back:
//!
//! - [`command`] composes the script and [`shell`] builds the command that
//!   runs it;
//! - [`running_command`] is the state of one runner, with [`keys`] for the
//!   events it handles, [`buffer`] for the output of the child,
//!   [`exit_status`] for the way the child ended, [`log`] for the name of a
//!   saved log and [`hint`] for the keys it answers to;
//! - [`event_loop`] is one turn of the render loop and [`cleanup`] the
//!   setting up and restoring of the terminal;
//! - [`windows_runner`] and [`separate_terminal`] serve platforms without
//!   pseudo-terminals;
//! - [`catalog`], [`shebang`] and [`menu`] turn the entries of the task
//!   catalog into the menu, [`guide`] writes the catalog out as a user
//!   guide, and [`tasks`] holds the plans of the build tool;
//! - [`paths`] and [`text`] hold what the other modules share.

pub mod buffer;
pub mod catalog;
pub mod cleanup;
pub mod command;
pub mod event_loop;
pub mod exit_status;
pub mod guide;
pub mod hint;
pub mod keys;
pub mod log;
pub mod menu;
pub mod paths;
pub mod running_command;
pub mod separate_terminal;
pub mod shebang;
pub mod shell;
pub mod tasks;
pub mod text;
pub mod windows_runner;
