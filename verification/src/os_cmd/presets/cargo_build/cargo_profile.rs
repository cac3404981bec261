//! The cargo profile to build with.

use vstd::prelude::*;

use crate::os_cmd::text::str_eq;

verus! {

/// cargo profile name: e.g., build, dev.
#[derive(Debug, Clone, PartialEq, Eq)]
pub enum CargoProfile {
    /// "release"
    Release,
    /// "dev"
    Debug,
    Custom(String),
}

impl CargoProfile {
    /// The profile name; `Debug` is spelled `dev`, as cargo expects.
    pub open spec fn spec_str(&self) -> Seq<char> {
        match self {
            CargoProfile::Debug => "dev"@,
            CargoProfile::Release => "release"@,
            CargoProfile::Custom(s) => s@,
        }
    }

    /// Converts CargoProfile as `&str`.
    pub fn as_str(&self) -> (r: &str)
        ensures
            r@ == self.spec_str(),
    {
        match self {
            CargoProfile::Debug => "dev",
            CargoProfile::Release => "release",
            CargoProfile::Custom(s) => s.as_str(),
        }
    }

    /// Reads a profile name: `debug` and `dev` both name the dev profile;
    /// anything unknown becomes `Custom`.
    pub fn from_name(value: &str) -> (r: Self)
        ensures
            (value@ == "debug"@ || value@ == "dev"@) ==> r is Debug,
            value@ == "release"@ ==> r is Release,
            (value@ != "debug"@ && value@ != "dev"@ && value@ != "release"@) ==> (r matches CargoProfile::Custom(
                s,
            ) && s@ == value@),
    {
        proof {
            broadcast use vstd::string::group_string_axioms;

            reveal_strlit("debug");
            reveal_strlit("dev");
            reveal_strlit("release");
            assert("debug"@.len() == 5);
            assert("dev"@.len() == 3);
            assert("release"@.len() == 7);
        }
        if str_eq(value, "debug") || str_eq(value, "dev") {
            CargoProfile::Debug
        } else if str_eq(value, "release") {
            CargoProfile::Release
        } else {
            CargoProfile::Custom(value.to_owned())
        }
    }
}

impl<'a> From<&'a str> for CargoProfile {
    /// Reads a profile name; see `from_name`.
    fn from(value: &'a str) -> (r: Self) {
        CargoProfile::from_name(value)
    }
}

impl<'a> vstd::std_specs::convert::FromSpecImpl<&'a str> for CargoProfile {
    open spec fn obeys_from_spec() -> bool {
        false
    }

    open spec fn from_spec(value: &'a str) -> Self {
        CargoProfile::Release
    }
}

impl Default for CargoProfile {
    /// Default: `Release`.
    fn default() -> (r: Self)
        ensures
            r is Release,
    {
        CargoProfile::Release
    }
}

} // verus!
