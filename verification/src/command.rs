//! The actions of the client.

pub mod get;
