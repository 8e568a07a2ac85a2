//! What the worker was started with.

use crate::error::Failure;
use crate::worker::config::Config;
use vstd::prelude::*;

verus! {

#[derive(Debug, Clone, PartialEq)]
pub struct CallArgs {
    pub command: Command,
}

/// The command that the program was called with.
#[derive(Debug, Clone, PartialEq)]
pub enum Command {
    /// Work off the queue under this configuration.
    Work { config: Config },
}

impl CallArgs {
    /// Every command that can be built is valid.
    pub fn validate(&self) -> (r: Result<(), Failure>)
        ensures
            r is Ok,
    {
        Ok(())
    }
}

} // verus!
