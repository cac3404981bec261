//! Configurable cargo fmt command.

use vstd::prelude::*;

use crate::os_cmd::presets::TinyCfg;
use crate::os_cmd::presets::opt_arg;
use crate::os_cmd::repr::CommandRepr;
use crate::os_cmd::runner::InspectMode;
use crate::os_cmd::runner::Runner;

verus! {

/// Configurable cargo fmt command: `cargo [+nightly] fmt`.
#[derive(Debug, Clone)]
pub struct CargoFmt {
    pub nightly: bool,
}

impl CargoFmt {
    /// The full argv this configuration denotes.
    pub open spec fn argv_view(&self) -> Seq<Seq<char>> {
        seq!["cargo"@] + opt_arg(self.nightly, "+nightly"@) + seq!["fmt"@]
    }

    /// Sets whether the nightly toolchain is requested.
    pub fn with_nightly(self, nightly: bool) -> (r: Self)
        ensures
            r == (CargoFmt { nightly }),
    {
        CargoFmt { nightly }
    }

    /// Whether the nightly toolchain is requested.
    pub fn get_nightly(&self) -> (r: bool)
        ensures
            r == self.nightly,
    {
        self.nightly
    }

    /// Turns this configuration into a command representation.
    pub fn into_repr(self) -> (r: CommandRepr<'static>)
        ensures
            r matches CommandRepr::Slice(v) && v.deep_view() == self.argv_view(),
    {
        let mut out: TinyCfg<'static> = Vec::new();
        out.push("cargo");
        let ghost g1 = out.deep_view();
        if self.nightly {
            out.push("+nightly");
        }
        proof {
            assert(g1 =~= seq!["cargo"@]);
            assert(out.deep_view() =~= g1 + opt_arg(self.nightly, "+nightly"@));
        }
        let ghost g2 = out.deep_view();
        out.push("fmt");
        proof {
            assert(out.deep_view() =~= g2 + seq!["fmt"@]);
        }
        CommandRepr::Slice(out)
    }
}

impl Default for CargoFmt {
    /// Format with the nightly toolchain.
    fn default() -> (r: Self)
        ensures
            r.nightly == true,
    {
        CargoFmt { nightly: true }
    }
}

impl From<CargoFmt> for CommandRepr<'_> {
    /// The tokens as a borrowed pre-split command.
    fn from(value: CargoFmt) -> (r: Self) {
        value.into_repr()
    }
}

impl vstd::std_specs::convert::FromSpecImpl<CargoFmt> for CommandRepr<'_> {
    open spec fn obeys_from_spec() -> bool {
        false
    }

    open spec fn from_spec(value: CargoFmt) -> Self {
        CommandRepr::Raw("")
    }
}

impl From<CargoFmt> for Runner<'_> {
    /// A runner for the tokens, with the default strategy.
    fn from(value: CargoFmt) -> (r: Self) {
        Runner {
            command: value.into_repr(),
            remove_comments: true,
            inspect_mode: InspectMode::Stderr,
            stdin_data: None,
        }
    }
}

impl vstd::std_specs::convert::FromSpecImpl<CargoFmt> for Runner<'_> {
    open spec fn obeys_from_spec() -> bool {
        false
    }

    open spec fn from_spec(value: CargoFmt) -> Self {
        Runner {
            command: CommandRepr::Raw(""),
            remove_comments: true,
            inspect_mode: InspectMode::Stderr,
            stdin_data: None,
        }
    }
}

} // verus!
