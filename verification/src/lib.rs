//! Portly: what is listening on the local development ports, which
//! process and framework is behind each port, and the decisions of the
//! commands that list, inspect, kill and watch them.
pub mod cli;
pub mod colors;
pub mod commands;
pub mod config;
pub mod details;
pub mod display;
pub mod docker;
pub mod error;
pub mod framework;
pub mod laws;
pub mod platform;
pub mod process;
pub mod ps;
pub mod scanner;
pub mod system;
pub mod text;
pub mod typo;
