//! Code models put constraints on address ranges that the program and its
//! symbols may use (`rustc --print code-models`).

use vstd::prelude::*;

use crate::os_cmd::presets::cargo_build::flags::mini_arg_chars;
use crate::os_cmd::presets::cargo_build::flags::try_into_mini_arg;
use crate::os_cmd::text::str_eq;

verus! {

/// A code model for the compiler, or `Ignore` for the target's default.
#[derive(Debug, Clone)]
pub enum CodeModel {
    Tiny,
    Small,
    Kernel,
    Medium,
    Large,
    Ignore,
}

impl CodeModel {
    /// The name the compiler knows this model by; empty for `Ignore`.
    pub open spec fn spec_str(&self) -> Seq<char> {
        match self {
            CodeModel::Tiny => "tiny"@,
            CodeModel::Small => "small"@,
            CodeModel::Kernel => "kernel"@,
            CodeModel::Medium => "medium"@,
            CodeModel::Large => "large"@,
            CodeModel::Ignore => ""@,
        }
    }

    /// Converts CodeModel as `&str`.
    pub fn as_str(&self) -> (r: &str)
        ensures
            r@ == self.spec_str(),
    {
        match self {
            CodeModel::Tiny => "tiny",
            CodeModel::Small => "small",
            CodeModel::Kernel => "kernel",
            CodeModel::Medium => "medium",
            CodeModel::Large => "large",
            CodeModel::Ignore => "",
        }
    }

    /// Reads a model name; anything unknown is `Ignore`.
    pub fn from_name(value: &str) -> (r: Self)
        ensures
            value@ == "tiny"@ ==> r is Tiny,
            value@ == "small"@ ==> r is Small,
            value@ == "kernel"@ ==> r is Kernel,
            value@ == "medium"@ ==> r is Medium,
            value@ == "large"@ ==> r is Large,
            (value@ != "tiny"@ && value@ != "small"@ && value@ != "kernel"@ && value@ != "medium"@
                && value@ != "large"@) ==> r is Ignore,
    {
        proof {
            broadcast use vstd::string::group_string_axioms;

            reveal_strlit("tiny");
            reveal_strlit("small");
            reveal_strlit("kernel");
            reveal_strlit("medium");
            reveal_strlit("large");
            assert("tiny"@.len() == 4);
            assert("small"@.len() == 5);
            assert("kernel"@.len() == 6);
            assert("medium"@.len() == 6);
            assert("large"@.len() == 5);
            assert("small"@[0] == 's');
            assert("large"@[0] == 'l');
            assert("kernel"@[0] == 'k');
            assert("medium"@[0] == 'm');
        }
        if str_eq(value, "tiny") {
            CodeModel::Tiny
        } else if str_eq(value, "small") {
            CodeModel::Small
        } else if str_eq(value, "kernel") {
            CodeModel::Kernel
        } else if str_eq(value, "medium") {
            CodeModel::Medium
        } else if str_eq(value, "large") {
            CodeModel::Large
        } else {
            CodeModel::Ignore
        }
    }

    /// The `-C` value this model contributes: `code-model=<name>`, or
    /// nothing for `Ignore`.
    pub fn to_flag_arg(&self) -> (r: Option<String>)
        ensures
            r is Some <==> self.spec_str().len() > 0,
            r matches Some(s) ==> s@ == mini_arg_chars("code-model"@, self.spec_str()),
    {
        try_into_mini_arg("code-model", self.as_str())
    }
}

impl<'a> From<&'a str> for CodeModel {
    /// Reads a model name; anything unknown is `Ignore`.
    fn from(value: &'a str) -> (r: Self) {
        CodeModel::from_name(value)
    }
}

impl<'a> vstd::std_specs::convert::FromSpecImpl<&'a str> for CodeModel {
    open spec fn obeys_from_spec() -> bool {
        false
    }

    open spec fn from_spec(value: &'a str) -> Self {
        CodeModel::Ignore
    }
}

impl Default for CodeModel {
    /// Default: `Ignore`.
    fn default() -> (r: Self)
        ensures
            r is Ignore,
    {
        CodeModel::Ignore
    }
}

} // verus!
