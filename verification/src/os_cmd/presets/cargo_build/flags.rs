//! Flags for configuring Rust compilation, assembled into `-C` arguments.

use vstd::prelude::*;
use vstd::string::*;

use crate::os_cmd::text::dec_chars;
use crate::os_cmd::text::str_concat;
use crate::os_cmd::text::usize_to_string;

mod relocation_model;

pub use relocation_model::RelocationModel;

mod code_model;

pub use code_model::CodeModel;

mod linker_flavor;

pub use linker_flavor::LinkerFlavor;

verus! {

/// The characters of a `flag=value` argument.
pub open spec fn mini_arg_chars(flag: Seq<char>, value: Seq<char>) -> Seq<char> {
    flag + "="@ + value
}

/// try_into_mini_arg(flag, value) => `"{flag}={value}"`.
///
/// if value.is_empty() => None.
pub fn try_into_mini_arg(flag: &str, value: &str) -> (r: Option<String>)
    ensures
        r is Some <==> value@.len() > 0,
        r matches Some(s) ==> s@ == mini_arg_chars(flag@, value@),
{
    if value.is_empty() {
        None
    } else {
        let mut s = String::from_str(flag);
        s.append("=");
        s.append(value);
        Some(s)
    }
}

/// The spelling of a truth value.
pub open spec fn bool_chars(b: bool) -> Seq<char> {
    if b {
        "true"@
    } else {
        "false"@
    }
}

fn bool_str(b: bool) -> (r: &'static str)
    ensures
        r@ == bool_chars(b),
{
    if b {
        "true"
    } else {
        "false"
    }
}

/// The `-C` argument pair a flag value contributes: nothing when the flag
/// is absent.
pub open spec fn c_pair(o: Option<Seq<char>>) -> Seq<Seq<char>> {
    match o {
        Some(v) => seq!["-C"@, v],
        _ => Seq::empty(),
    }
}

/// Represents various flags used for configuring Rust compilation.
///
/// - `crt_static`: `Some(true)` gives `target-feature=+crt-static`,
///   `Some(false)` gives `target-feature=-crt-static`, `None` gives nothing.
/// - `prefer_dynamic`, `link_self_contained`: `Some(b)` gives `<flag>=<b>`.
/// - `linker`: the linker to be used; empty gives nothing.
/// - `relocation_model`, `code_model`, `linker_flavor`: named models, with
///   an `Ignore` variant that gives nothing.
/// - `codegen_units`: `Some(u)` gives `codegen-units=<u>`.
/// - `native_target_cpu`: `Some(true)` gives `target-cpu=native`,
///   `Some(false)` gives `target-cpu=generic`.
/// - `other_flags`: additional arguments, passed through verbatim.
///
/// Every present flag value is emitted behind its own `-C` argument, in the
/// field order above, followed by `other_flags`.
#[derive(Debug, Clone)]
pub struct RustFlags {
    pub crt_static: Option<bool>,
    pub prefer_dynamic: Option<bool>,
    pub linker: String,
    pub linker_flavor: LinkerFlavor,
    pub link_self_contained: Option<bool>,
    pub relocation_model: RelocationModel,
    pub code_model: CodeModel,
    pub codegen_units: Option<usize>,
    pub native_target_cpu: Option<bool>,
    pub other_flags: Vec<String>,
}

impl RustFlags {
    /// The `target-feature` value selecting static or dynamic CRT linkage.
    pub open spec fn crt_val(&self) -> Option<Seq<char>> {
        match self.crt_static {
            Some(b) => Some(
                "target-feature="@ + (if b {
                    "+"@
                } else {
                    "-"@
                }) + "crt-static"@,
            ),
            _ => None,
        }
    }

    /// The `prefer-dynamic` value.
    pub open spec fn prefer_dynamic_val(&self) -> Option<Seq<char>> {
        match self.prefer_dynamic {
            Some(b) => Some(mini_arg_chars("prefer-dynamic"@, bool_chars(b))),
            _ => None,
        }
    }

    /// The `linker` value.
    pub open spec fn linker_val(&self) -> Option<Seq<char>> {
        if self.linker@.len() == 0 {
            None
        } else {
            Some(mini_arg_chars("linker"@, self.linker@))
        }
    }

    /// The `linker-flavor` value.
    pub open spec fn linker_flavor_val(&self) -> Option<Seq<char>> {
        if self.linker_flavor.spec_str().len() == 0 {
            None
        } else {
            Some(mini_arg_chars("linker-flavor"@, self.linker_flavor.spec_str()))
        }
    }

    /// The `link-self-contained` value.
    pub open spec fn link_self_contained_val(&self) -> Option<Seq<char>> {
        match self.link_self_contained {
            Some(b) => Some(mini_arg_chars("link-self-contained"@, bool_chars(b))),
            _ => None,
        }
    }

    /// The `relocation-model` value.
    pub open spec fn relocation_model_val(&self) -> Option<Seq<char>> {
        if self.relocation_model.spec_str().len() == 0 {
            None
        } else {
            Some(mini_arg_chars("relocation-model"@, self.relocation_model.spec_str()))
        }
    }

    /// The `code-model` value.
    pub open spec fn code_model_val(&self) -> Option<Seq<char>> {
        if self.code_model.spec_str().len() == 0 {
            None
        } else {
            Some(mini_arg_chars("code-model"@, self.code_model.spec_str()))
        }
    }

    /// The `codegen-units` value.
    pub open spec fn codegen_units_val(&self) -> Option<Seq<char>> {
        match self.codegen_units {
            Some(u) => Some(mini_arg_chars("codegen-units"@, dec_chars(u as nat))),
            _ => None,
        }
    }

    /// The `target-cpu` value.
    pub open spec fn target_cpu_val(&self) -> Option<Seq<char>> {
        match self.native_target_cpu {
            Some(b) => Some(
                mini_arg_chars(
                    "target-cpu"@,
                    if b {
                        "native"@
                    } else {
                        "generic"@
                    },
                ),
            ),
            _ => None,
        }
    }

    /// Every present flag behind its own `-C`, in field order, then the
    /// verbatim extra arguments.
    pub open spec fn args_view(&self) -> Seq<Seq<char>> {
        c_pair(self.crt_val()) + c_pair(self.prefer_dynamic_val()) + c_pair(self.linker_val())
            + c_pair(self.linker_flavor_val()) + c_pair(self.link_self_contained_val()) + c_pair(
            self.relocation_model_val(),
        ) + c_pair(self.code_model_val()) + c_pair(self.codegen_units_val()) + c_pair(
            self.target_cpu_val(),
        ) + self.other_flags.deep_view()
    }

    /// Collects the flags into a vector; see `args_view`.
    pub fn into_vec(self) -> (r: Vec<String>)
        ensures
            r.deep_view() == self.args_view(),
    {
        let crt_static = match self.crt_static {
            Some(b) => Some(
                str_concat(
                    str_concat(
                        "target-feature=",
                        if b {
                            "+"
                        } else {
                            "-"
                        },
                    ).as_str(),
                    "crt-static",
                ),
            ),
            _ => None,
        };
        let prefer_dynamic = match self.prefer_dynamic {
            Some(b) => try_into_mini_arg("prefer-dynamic", bool_str(b)),
            _ => None,
        };
        let linker = try_into_mini_arg("linker", self.linker.as_str());
        let linker_flavor = self.linker_flavor.to_flag_arg();
        let link_self_contained = match self.link_self_contained {
            Some(b) => try_into_mini_arg("link-self-contained", bool_str(b)),
            _ => None,
        };
        let relocation_model = self.relocation_model.to_flag_arg();
        let code_model = self.code_model.to_flag_arg();
        let codegen_units = match self.codegen_units {
            Some(u) => try_into_mini_arg("codegen-units", usize_to_string(u).as_str()),
            _ => None,
        };
        let native_target_cpu = match self.native_target_cpu {
            Some(b) => try_into_mini_arg(
                "target-cpu",
                if b {
                    "native"
                } else {
                    "generic"
                },
            ),
            _ => None,
        };
        proof {
            reveal_strlit("true");
            reveal_strlit("false");
            reveal_strlit("native");
            reveal_strlit("generic");
            assert(crt_static.deep_view() == self.crt_val());
            assert(prefer_dynamic.deep_view() == self.prefer_dynamic_val());
            assert(linker.deep_view() == self.linker_val());
            assert(linker_flavor.deep_view() == self.linker_flavor_val());
            assert(link_self_contained.deep_view() == self.link_self_contained_val());
            assert(relocation_model.deep_view() == self.relocation_model_val());
            assert(code_model.deep_view() == self.code_model_val());
            assert(codegen_units.deep_view() == self.codegen_units_val());
            assert(native_target_cpu.deep_view() == self.target_cpu_val());
        }
        let mut out: Vec<String> = Vec::new();
        proof {
            assert(out.deep_view() =~= Seq::<Seq<char>>::empty());
            assert(Seq::<Seq<char>>::empty() + c_pair(self.crt_val()) =~= c_pair(self.crt_val()));
        }
        push_c_arg(&mut out, crt_static);
        push_c_arg(&mut out, prefer_dynamic);
        push_c_arg(&mut out, linker);
        push_c_arg(&mut out, linker_flavor);
        push_c_arg(&mut out, link_self_contained);
        push_c_arg(&mut out, relocation_model);
        push_c_arg(&mut out, code_model);
        push_c_arg(&mut out, codegen_units);
        push_c_arg(&mut out, native_target_cpu);
        let ghost before_other = out.deep_view();
        let mut other = self.other_flags;
        out.append(&mut other);
        proof {
            assert(out.deep_view() =~= before_other + self.other_flags.deep_view());
        }
        out
    }

    /// The extra verbatim arguments.
    pub fn get_other_flags(&self) -> (r: &Vec<String>)
        ensures
            r == &self.other_flags,
    {
        &self.other_flags
    }

    /// The CRT linkage selection.
    pub fn get_crt_static(&self) -> (r: Option<bool>)
        ensures
            r == self.crt_static,
    {
        self.crt_static
    }

    /// The `prefer-dynamic` selection.
    pub fn get_prefer_dynamic(&self) -> (r: Option<bool>)
        ensures
            r == self.prefer_dynamic,
    {
        self.prefer_dynamic
    }

    /// The linker to use; empty for the default.
    pub fn get_linker(&self) -> (r: &String)
        ensures
            r == &self.linker,
    {
        &self.linker
    }

    /// The `link-self-contained` selection.
    pub fn get_link_self_contained(&self) -> (r: Option<bool>)
        ensures
            r == self.link_self_contained,
    {
        self.link_self_contained
    }

    /// The number of codegen units, if pinned.
    pub fn get_codegen_units(&self) -> (r: Option<usize>)
        ensures
            r == self.codegen_units,
    {
        self.codegen_units
    }

    /// The `target-cpu` selection.
    pub fn get_native_target_cpu(&self) -> (r: Option<bool>)
        ensures
            r == self.native_target_cpu,
    {
        self.native_target_cpu
    }

    /// Sets the CRT linkage selection.
    pub fn with_crt_static(self, crt_static: Option<bool>) -> (r: Self)
        ensures
            r == (RustFlags { crt_static, ..self }),
    {
        RustFlags { crt_static, ..self }
    }

    /// Sets the `prefer-dynamic` selection.
    pub fn with_prefer_dynamic(self, prefer_dynamic: Option<bool>) -> (r: Self)
        ensures
            r == (RustFlags { prefer_dynamic, ..self }),
    {
        RustFlags { prefer_dynamic, ..self }
    }

    /// Sets the linker.
    pub fn with_linker(self, linker: String) -> (r: Self)
        ensures
            r == (RustFlags { linker, ..self }),
    {
        RustFlags { linker, ..self }
    }

    /// Sets the linker flavor.
    pub fn with_linker_flavor(self, linker_flavor: LinkerFlavor) -> (r: Self)
        ensures
            r == (RustFlags { linker_flavor, ..self }),
    {
        RustFlags { linker_flavor, ..self }
    }

    /// Sets the `link-self-contained` selection.
    pub fn with_link_self_contained(self, link_self_contained: Option<bool>) -> (r: Self)
        ensures
            r == (RustFlags { link_self_contained, ..self }),
    {
        RustFlags { link_self_contained, ..self }
    }

    /// Sets the relocation model.
    pub fn with_relocation_model(self, relocation_model: RelocationModel) -> (r: Self)
        ensures
            r == (RustFlags { relocation_model, ..self }),
    {
        RustFlags { relocation_model, ..self }
    }

    /// Sets the code model.
    pub fn with_code_model(self, code_model: CodeModel) -> (r: Self)
        ensures
            r == (RustFlags { code_model, ..self }),
    {
        RustFlags { code_model, ..self }
    }

    /// Sets the number of codegen units.
    pub fn with_codegen_units(self, codegen_units: Option<usize>) -> (r: Self)
        ensures
            r == (RustFlags { codegen_units, ..self }),
    {
        RustFlags { codegen_units, ..self }
    }

    /// Sets the `target-cpu` selection.
    pub fn with_native_target_cpu(self, native_target_cpu: Option<bool>) -> (r: Self)
        ensures
            r == (RustFlags { native_target_cpu, ..self }),
    {
        RustFlags { native_target_cpu, ..self }
    }

    /// Sets the extra verbatim arguments.
    pub fn with_other_flags(self, other_flags: Vec<String>) -> (r: Self)
        ensures
            r == (RustFlags { other_flags, ..self }),
    {
        RustFlags { other_flags, ..self }
    }
}

/// Appends `-C <value>` when the value is present.
fn push_c_arg(out: &mut Vec<String>, val: Option<String>)
    ensures
        final(out).deep_view() == old(out).deep_view() + c_pair(val.deep_view()),
{
    let ghost pre = out.deep_view();
    match val {
        Some(v) => {
            let ghost vv = v@;
            out.push(String::from_str("-C"));
            out.push(v);
            proof {
                assert(out.deep_view() =~= pre + seq!["-C"@, vv]);
            }
        },
        _ => {
            proof {
                assert(pre + Seq::<Seq<char>>::empty() =~= pre);
            }
        },
    }
}

impl Default for RustFlags {
    /// No flag present and no extra arguments: nothing is emitted.
    fn default() -> (r: Self)
        ensures
            r.crt_static is None,
            r.prefer_dynamic is None,
            r.linker@ == Seq::<char>::empty(),
            r.linker_flavor is Ignore,
            r.link_self_contained is None,
            r.relocation_model is Ignore,
            r.code_model is Ignore,
            r.codegen_units is None,
            r.native_target_cpu is None,
            r.other_flags.deep_view() == Seq::<Seq<char>>::empty(),
    {
        let r = RustFlags {
            other_flags: Vec::new(),
            crt_static: None,
            linker: String::new(),
            prefer_dynamic: None,
            link_self_contained: None,
            linker_flavor: LinkerFlavor::Ignore,
            code_model: CodeModel::Ignore,
            relocation_model: RelocationModel::Ignore,
            codegen_units: None,
            native_target_cpu: None,
        };
        proof {
            assert(r.other_flags.deep_view() =~= Seq::<Seq<char>>::empty());
        }
        r
    }
}

} // verus!
