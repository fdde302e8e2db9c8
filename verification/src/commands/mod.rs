//! The decisions behind the subcommands, apart from their input and output.
pub mod watch;
pub mod kill;
pub mod clean;
