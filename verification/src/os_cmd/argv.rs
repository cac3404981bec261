//! Argv-shaped token lists and their conversion into a spawner.

use vstd::prelude::*;

use crate::os_cmd::process::CommandSpawner;
use crate::os_cmd::process::StdioMode;

verus! {

/// One argv token.
pub type ArgvItem = String;

/// Newtype wrapper for an argv-like token list, the first token being the
/// program.
#[derive(Debug, Clone)]
pub struct Argv(pub Vec<String>);

impl From<Argv> for CommandSpawner {
    /// A spawner for the given argv, with "inherit everything" stdio and no
    /// stdin data.
    fn from(value: Argv) -> (r: Self) {
        CommandSpawner {
            stdin: StdioMode::Inherit,
            stdout: StdioMode::Inherit,
            stderr: StdioMode::Inherit,
            command: Some(value.0),
            stdin_data: None,
        }
    }
}

impl vstd::std_specs::convert::FromSpecImpl<Argv> for CommandSpawner {
    open spec fn obeys_from_spec() -> bool {
        true
    }

    open spec fn from_spec(value: Argv) -> Self {
        CommandSpawner {
            stdin: StdioMode::Inherit,
            stdout: StdioMode::Inherit,
            stderr: StdioMode::Inherit,
            command: Some(value.0),
            stdin_data: None,
        }
    }
}

} // verus!
