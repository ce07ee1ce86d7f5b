//! The action that reads from the server.

use crate::config::Config;
use vstd::prelude::*;

verus! {

/// The action `get`, with the settings it runs with.
pub struct Get {
    pub config: Config,
}

impl Get {
    /// The action with the settings `c`.
    pub fn new(c: Config) -> (get: Get)
        ensures
            get.config == c,
    {
        Get { config: c }
    }

    /// Carries the action out. The settings stay as they are.
    pub fn invoke(&self) {
        let _ = &self.config;
    }
}

} // verus!
