//! The cargo sub-command to run: build, run, test, and so on.

use vstd::prelude::*;

use crate::os_cmd::text::str_eq;

verus! {

/// cargo sub command: e.g., build, run.
#[derive(Debug, Clone)]
pub enum SubCmd {
    Build,
    Run,
    Test,
    Bench,
    Check,
    Rustc,
    Custom(String),
}

impl SubCmd {
    /// The sub-command word; `Custom` carries its own.
    pub open spec fn spec_str(&self) -> Seq<char> {
        match self {
            SubCmd::Build => "build"@,
            SubCmd::Run => "run"@,
            SubCmd::Test => "test"@,
            SubCmd::Bench => "bench"@,
            SubCmd::Check => "check"@,
            SubCmd::Rustc => "rustc"@,
            SubCmd::Custom(s) => s@,
        }
    }

    /// The word of a named sub-command; empty for `Custom`.
    pub fn ignore_custom_as_str(&self) -> (r: &str)
        ensures
            !(self is Custom) ==> r@ == self.spec_str(),
            self is Custom ==> r@ == ""@,
    {
        match self {
            SubCmd::Build => "build",
            SubCmd::Run => "run",
            SubCmd::Test => "test",
            SubCmd::Bench => "bench",
            SubCmd::Check => "check",
            SubCmd::Rustc => "rustc",
            _ => "",
        }
    }

    /// Converts SubCmd as `&str`.
    pub fn as_str(&self) -> (r: &str)
        ensures
            r@ == self.spec_str(),
    {
        match self {
            SubCmd::Custom(s) => s.as_str(),
            _ => self.ignore_custom_as_str(),
        }
    }

    /// Reads a sub-command word; anything unknown becomes `Custom`.
    pub fn from_name(value: &str) -> (r: Self)
        ensures
            r.spec_str() == value@,
            value@ == "build"@ ==> r is Build,
            value@ == "run"@ ==> r is Run,
            value@ == "test"@ ==> r is Test,
            value@ == "bench"@ ==> r is Bench,
            value@ == "check"@ ==> r is Check,
            value@ == "rustc"@ ==> r is Rustc,
    {
        proof {
            broadcast use vstd::string::group_string_axioms;

            reveal_strlit("build");
            reveal_strlit("run");
            reveal_strlit("test");
            reveal_strlit("bench");
            reveal_strlit("check");
            reveal_strlit("rustc");
            assert("build"@.len() == 5);
            assert("run"@.len() == 3);
            assert("test"@.len() == 4);
            assert("bench"@.len() == 5);
            assert("check"@.len() == 5);
            assert("rustc"@.len() == 5);
            assert("build"@[0] == 'b' && "build"@[1] == 'u');
            assert("bench"@[0] == 'b' && "bench"@[1] == 'e');
            assert("check"@[0] == 'c');
            assert("rustc"@[0] == 'r');
        }
        if str_eq(value, "build") {
            SubCmd::Build
        } else if str_eq(value, "run") {
            SubCmd::Run
        } else if str_eq(value, "test") {
            SubCmd::Test
        } else if str_eq(value, "bench") {
            SubCmd::Bench
        } else if str_eq(value, "check") {
            SubCmd::Check
        } else if str_eq(value, "rustc") {
            SubCmd::Rustc
        } else {
            SubCmd::Custom(value.to_owned())
        }
    }
}

impl<'a> From<&'a str> for SubCmd {
    /// Reads a sub-command word; anything unknown becomes `Custom`.
    fn from(value: &'a str) -> (r: Self) {
        SubCmd::from_name(value)
    }
}

impl<'a> vstd::std_specs::convert::FromSpecImpl<&'a str> for SubCmd {
    open spec fn obeys_from_spec() -> bool {
        false
    }

    open spec fn from_spec(value: &'a str) -> Self {
        SubCmd::Build
    }
}

impl Default for SubCmd {
    /// Default: `Build`.
    fn default() -> (r: Self)
        ensures
            r is Build,
    {
        SubCmd::Build
    }
}

} // verus!
