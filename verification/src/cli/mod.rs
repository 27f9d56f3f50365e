//! The command-line interface: its arguments and the run of one command.
pub mod app;
pub mod interface;
