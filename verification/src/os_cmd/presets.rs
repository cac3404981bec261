//! Preconfigured command builders: cargo build, doc and fmt invocations.

use vstd::prelude::*;

pub mod cargo_build;

mod cargo_doc;
mod cargo_fmt;

pub use cargo_build::CargoCmd;
pub use cargo_doc::CargoDoc;
pub use cargo_fmt::CargoFmt;

verus! {

/// A small list of borrowed argument tokens.
pub type TinyCfg<'a> = Vec<&'a str>;

/// One argument when the condition holds, nothing otherwise.
pub open spec fn opt_arg(cond: bool, arg: Seq<char>) -> Seq<Seq<char>> {
    if cond {
        seq![arg]
    } else {
        Seq::empty()
    }
}

} // verus!
