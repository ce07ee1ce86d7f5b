//! Configuration handling and request construction for the Eloquentlog
//! command line client.

pub mod cli;
pub mod client;
pub mod command;
pub mod config;
pub mod header;
pub mod prompt;
pub mod runner;
pub mod text;
