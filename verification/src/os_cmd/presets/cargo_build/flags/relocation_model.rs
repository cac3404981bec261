//! Relocation models (`rustc --print relocation-models`).

use vstd::prelude::*;

use crate::os_cmd::presets::cargo_build::flags::mini_arg_chars;
use crate::os_cmd::presets::cargo_build::flags::try_into_mini_arg;

verus! {

/// A relocation model for the compiler, or `Ignore` for the target's default.
#[derive(Debug, Clone)]
pub enum RelocationModel {
    Static,
    Pic,
    Pie,
    DynamicNoPic,
    Ropi,
    Rwpi,
    RopiRwpi,
    Default,
    Ignore,
}

impl RelocationModel {
    /// The name the compiler knows this model by; empty for `Ignore`.
    pub open spec fn spec_str(&self) -> Seq<char> {
        match self {
            RelocationModel::Static => "static"@,
            RelocationModel::Pic => "pic"@,
            RelocationModel::Pie => "pie"@,
            RelocationModel::DynamicNoPic => "dynamic-no-pic"@,
            RelocationModel::Ropi => "ropi"@,
            RelocationModel::Rwpi => "rwpi"@,
            RelocationModel::RopiRwpi => "ropi-rwpi"@,
            RelocationModel::Default => "default"@,
            RelocationModel::Ignore => ""@,
        }
    }

    /// Converts RelocationModel as `&str`.
    pub fn as_str(&self) -> (r: &str)
        ensures
            r@ == self.spec_str(),
    {
        match self {
            RelocationModel::Static => "static",
            RelocationModel::Pic => "pic",
            RelocationModel::Pie => "pie",
            RelocationModel::DynamicNoPic => "dynamic-no-pic",
            RelocationModel::Ropi => "ropi",
            RelocationModel::Rwpi => "rwpi",
            RelocationModel::RopiRwpi => "ropi-rwpi",
            RelocationModel::Default => "default",
            RelocationModel::Ignore => "",
        }
    }

    /// The `-C` value this model contributes: `relocation-model=<name>`, or
    /// nothing for `Ignore`.
    pub fn to_flag_arg(&self) -> (r: Option<String>)
        ensures
            r is Some <==> self.spec_str().len() > 0,
            r matches Some(s) ==> s@ == mini_arg_chars("relocation-model"@, self.spec_str()),
    {
        try_into_mini_arg("relocation-model", self.as_str())
    }
}

impl Default for RelocationModel {
    /// Default: `Ignore`.
    fn default() -> (r: Self)
        ensures
            r is Ignore,
    {
        RelocationModel::Ignore
    }
}

} // verus!
