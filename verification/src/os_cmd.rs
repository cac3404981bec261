//! Configurable command representation, tokenization and execution planning.

use vstd::prelude::*;

pub mod argv;
pub mod collect;
pub mod decoded;
pub mod lexer;
pub mod presets;
pub mod process;
pub mod repr;
pub mod runner;
pub mod text;

pub use argv::Argv;
pub use decoded::DecodedText;
pub use lexer::shell_tokens;
pub use process::CommandSpawner;
pub use process::ProcessError;
pub use process::SpawnPlan;
pub use process::StdioMode;
pub use repr::CommandRepr;
pub use runner::InspectMode;
pub use runner::Runner;
pub use text::strip_comments;
pub use text::trim_ascii_spec;

verus! {

/// Owned token type used throughout the command pipeline.
pub type MiniStr = String;

} // verus!
