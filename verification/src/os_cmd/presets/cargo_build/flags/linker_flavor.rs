//! The linker flavor controls which linker the compiler drives; every
//! target defaults to some flavor.

use vstd::prelude::*;

use crate::os_cmd::presets::cargo_build::flags::mini_arg_chars;
use crate::os_cmd::presets::cargo_build::flags::try_into_mini_arg;

verus! {

/// A linker flavor for the compiler, or `Ignore` for the target's default.
#[derive(Debug, Clone)]
pub enum LinkerFlavor {
    EmscriptenEmcc,
    GCC,
    LD,
    MSVC,
    WasmLD,
    DarwinLLVMLLD,
    GNUbinutilsLLVMLLD,
    MSLinkExeLLD,
    Ignore,
}

impl LinkerFlavor {
    /// The name the compiler knows this flavor by; empty for `Ignore`.
    pub open spec fn spec_str(&self) -> Seq<char> {
        match self {
            LinkerFlavor::EmscriptenEmcc => "em"@,
            LinkerFlavor::GCC => "gcc"@,
            LinkerFlavor::LD => "ld"@,
            LinkerFlavor::MSVC => "msvc"@,
            LinkerFlavor::WasmLD => "wasm-ld"@,
            LinkerFlavor::DarwinLLVMLLD => "ld64.link_self_contained"@,
            LinkerFlavor::GNUbinutilsLLVMLLD => "ld.lld"@,
            LinkerFlavor::MSLinkExeLLD => "lld-link"@,
            LinkerFlavor::Ignore => ""@,
        }
    }

    /// Converts LinkerFlavor as `&str`.
    pub fn as_str(&self) -> (r: &str)
        ensures
            r@ == self.spec_str(),
    {
        match self {
            LinkerFlavor::EmscriptenEmcc => "em",
            LinkerFlavor::GCC => "gcc",
            LinkerFlavor::LD => "ld",
            LinkerFlavor::MSVC => "msvc",
            LinkerFlavor::WasmLD => "wasm-ld",
            LinkerFlavor::DarwinLLVMLLD => "ld64.link_self_contained",
            LinkerFlavor::GNUbinutilsLLVMLLD => "ld.lld",
            LinkerFlavor::MSLinkExeLLD => "lld-link",
            LinkerFlavor::Ignore => "",
        }
    }

    /// The `-C` value this flavor contributes: `linker-flavor=<name>`, or
    /// nothing for `Ignore`.
    pub fn to_flag_arg(&self) -> (r: Option<String>)
        ensures
            r is Some <==> self.spec_str().len() > 0,
            r matches Some(s) ==> s@ == mini_arg_chars("linker-flavor"@, self.spec_str()),
    {
        try_into_mini_arg("linker-flavor", self.as_str())
    }
}

impl Default for LinkerFlavor {
    /// Default: `Ignore`.
    fn default() -> (r: Self)
        ensures
            r is Ignore,
    {
        LinkerFlavor::Ignore
    }
}

} // verus!
