//! Compilation targets for `--target`, named as `rustc --print target-list`
//! prints them.

use vstd::prelude::*;

verus! {

/// A compilation target triple, or `Ignore` for the host default. The
/// common triples are named; any other is carried verbatim by `Custom`.
#[allow(non_camel_case_types)]
#[derive(Debug, Clone)]
pub enum RustcTarget {
    /// No `--target` argument: build for the host.
    Ignore,
    aarch64_apple_darwin,
    aarch64_linux_android,
    aarch64_unknown_linux_gnu,
    aarch64_unknown_linux_musl,
    wasm32_unknown_unknown,
    x86_64_apple_darwin,
    x86_64_pc_windows_msvc,
    x86_64_unknown_linux_gnu,
    x86_64_unknown_linux_musl,
    Custom(String),
}

impl RustcTarget {
    /// The target triple; empty for `Ignore`.
    pub open spec fn spec_str(&self) -> Seq<char> {
        match self {
            RustcTarget::Ignore => ""@,
            RustcTarget::aarch64_apple_darwin => "aarch64-apple-darwin"@,
            RustcTarget::aarch64_linux_android => "aarch64-linux-android"@,
            RustcTarget::aarch64_unknown_linux_gnu => "aarch64-unknown-linux-gnu"@,
            RustcTarget::aarch64_unknown_linux_musl => "aarch64-unknown-linux-musl"@,
            RustcTarget::wasm32_unknown_unknown => "wasm32-unknown-unknown"@,
            RustcTarget::x86_64_apple_darwin => "x86_64-apple-darwin"@,
            RustcTarget::x86_64_pc_windows_msvc => "x86_64-pc-windows-msvc"@,
            RustcTarget::x86_64_unknown_linux_gnu => "x86_64-unknown-linux-gnu"@,
            RustcTarget::x86_64_unknown_linux_musl => "x86_64-unknown-linux-musl"@,
            RustcTarget::Custom(s) => s@,
        }
    }

    /// Converts RustcTarget as `&str`.
    pub fn as_str(&self) -> (r: &str)
        ensures
            r@ == self.spec_str(),
    {
        match self {
            RustcTarget::Ignore => "",
            RustcTarget::aarch64_apple_darwin => "aarch64-apple-darwin",
            RustcTarget::aarch64_linux_android => "aarch64-linux-android",
            RustcTarget::aarch64_unknown_linux_gnu => "aarch64-unknown-linux-gnu",
            RustcTarget::aarch64_unknown_linux_musl => "aarch64-unknown-linux-musl",
            RustcTarget::wasm32_unknown_unknown => "wasm32-unknown-unknown",
            RustcTarget::x86_64_apple_darwin => "x86_64-apple-darwin",
            RustcTarget::x86_64_pc_windows_msvc => "x86_64-pc-windows-msvc",
            RustcTarget::x86_64_unknown_linux_gnu => "x86_64-unknown-linux-gnu",
            RustcTarget::x86_64_unknown_linux_musl => "x86_64-unknown-linux-musl",
            RustcTarget::Custom(s) => s.as_str(),
        }
    }
}

impl Default for RustcTarget {
    /// Default: `Ignore` (build for the host).
    fn default() -> (r: Self)
        ensures
            r is Ignore,
    {
        RustcTarget::Ignore
    }
}

} // verus!
