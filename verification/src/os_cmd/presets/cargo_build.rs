//! Configurable cargo build command.

use vstd::prelude::*;
use vstd::string::*;

use crate::os_cmd::presets::opt_arg;
use crate::os_cmd::repr::CommandRepr;
use crate::os_cmd::runner::InspectMode;
use crate::os_cmd::runner::Runner;
use crate::os_cmd::text::join_owned;
use crate::os_cmd::text::join_sep;
use crate::os_cmd::text::str_concat;

mod sub_cmd;

pub use sub_cmd::SubCmd;

mod cargo_profile;

pub use cargo_profile::CargoProfile;

pub mod flags;

mod target_list;

pub use target_list::RustcTarget;

mod build_std;

pub use build_std::BuildStd;

mod build_std_features;

pub use build_std_features::BuildStdFeatures;

verus! {

/// The characters of a `--flag=value` argument.
pub open spec fn long_arg_chars(flag: Seq<char>, value: Seq<char>) -> Seq<char> {
    "--"@ + flag + "="@ + value
}

/// try_into_long_arg(flag, value) => `"--{flag}={value}"`.
///
/// if value.is_empty() => None.
pub fn try_into_long_arg(flag: &str, value: &str) -> (r: Option<String>)
    ensures
        r is Some <==> value@.len() > 0,
        r matches Some(s) ==> s@ == long_arg_chars(flag@, value@),
{
    if value.is_empty() {
        None
    } else {
        let mut s = String::from_str("--");
        s.append(flag);
        s.append("=");
        s.append(value);
        Some(s)
    }
}

/// A configuration that denotes a list of command arguments.
pub trait ArgConverter {
    /// The arguments this configuration denotes.
    spec fn args_view(&self) -> Seq<Seq<char>>;

    /// Emits the arguments.
    fn to_args(&self) -> (r: Vec<String>)
        ensures
            r.deep_view() == self.args_view(),
    ;
}

/// Configurable cargo build command.
///
/// Collecting it (`into_vec` / `into_parts`) yields the cargo argv: the
/// cargo binary (the literal `cargo` when none is named), `+nightly` on
/// request, the sub-command word, then `--profile=`, `--package=`,
/// `--workspace`, `--target=`, `--all-features`, `--no-default-features`
/// and `--features=` as configured, the standard-library build options,
/// and finally the verbatim extra arguments.
///
/// The compiler flags (`rust_flags`) are not part of the argv: they belong
/// in the `RUSTFLAGS` environment value, which `into_parts` hands back
/// beside the argv so the caller can pass it to the child explicitly
/// instead of mutating the process-wide environment.
#[derive(Debug, Clone)]
pub struct CargoCmd {
    pub rust_flags: flags::RustFlags,
    pub nightly: bool,
    pub cargo: String,
    pub sub_command: SubCmd,
    pub profile: CargoProfile,
    pub pkg: String,
    pub target: RustcTarget,
    pub all_packages: bool,
    pub all_features: bool,
    pub no_default_features: bool,
    pub features: Vec<String>,
    pub build_std: BuildStd,
    pub build_std_features: BuildStdFeatures,
    pub other_args: Vec<String>,
}

impl CargoCmd {
    /// The cargo binary to run: the configured one, or `cargo`.
    pub open spec fn cargo_name(&self) -> Seq<char> {
        if self.cargo@.len() == 0 {
            "cargo"@
        } else {
            self.cargo@
        }
    }

    /// The full argv this configuration denotes.
    pub open spec fn argv_view(&self) -> Seq<Seq<char>> {
        head_view(
            self.cargo@,
            self.nightly,
            self.sub_command.spec_str(),
            self.profile.spec_str(),
            self.pkg@,
        ) + mid_view(
            self.all_packages,
            self.target.spec_str(),
            self.all_features,
            self.no_default_features,
            self.features.deep_view(),
        ) + self.build_std.args_view() + self.build_std_features.args_view()
            + self.other_args.deep_view()
    }

    /// The `RUSTFLAGS` environment value this configuration denotes: the
    /// compiler flags joined with single spaces.
    pub open spec fn rustflags_view(&self) -> Seq<char> {
        join_sep(self.rust_flags.args_view(), " "@)
    }

    /// Collects the options into an argv and the `RUSTFLAGS` environment
    /// value to pass to the child alongside it.
    pub fn into_parts(self) -> (r: (Vec<String>, String))
        ensures
            r.0.deep_view() == self.argv_view(),
            r.1@ == self.rustflags_view(),
    {
        let ghost me = self;
        let CargoCmd {
            rust_flags,
            nightly,
            cargo,
            sub_command,
            profile,
            pkg,
            target,
            all_packages,
            all_features,
            no_default_features,
            features,
            build_std,
            build_std_features,
            other_args,
        } = self;
        let rf_args = rust_flags.into_vec();
        let env_val = join_owned(&rf_args, " ");
        let mut out: Vec<String> = Vec::new();
        proof {
            assert(out.deep_view() =~= Seq::<Seq<char>>::empty());
        }
        argv_part1(&mut out, cargo, nightly, &sub_command, &profile, &pkg);
        argv_part2(&mut out, all_packages, &target, all_features, no_default_features, &features);
        append_args(&mut out, build_std.to_args());
        append_args(&mut out, build_std_features.to_args());
        append_args(&mut out, other_args);
        proof {
            let head = head_view(
                me.cargo@,
                me.nightly,
                me.sub_command.spec_str(),
                me.profile.spec_str(),
                me.pkg@,
            );
            assert(Seq::<Seq<char>>::empty() + head =~= head);
        }
        (out, env_val)
    }

    /// Collects all CargoCmd options into a vec; the compiler flags are not
    /// part of it (see `into_parts` for the environment value they form).
    pub fn into_vec(self) -> (r: Vec<String>)
        ensures
            r.deep_view() == self.argv_view(),
    {
        let (argv, _env_val) = self.into_parts();
        argv
    }

    /// Turns this configuration into a command representation.
    pub fn into_repr(self) -> (r: CommandRepr<'static>)
        ensures
            r matches CommandRepr::OwnedSlice(v) && v.deep_view() == self.argv_view(),
    {
        CommandRepr::OwnedSlice(self.into_vec())
    }

    /// Sets the compiler flags.
    pub fn with_rust_flags(self, rust_flags: flags::RustFlags) -> (r: Self)
        ensures
            r == (CargoCmd { rust_flags, ..self }),
    {
        CargoCmd { rust_flags, ..self }
    }

    /// Sets whether the nightly toolchain is requested.
    pub fn with_nightly(self, nightly: bool) -> (r: Self)
        ensures
            r == (CargoCmd { nightly, ..self }),
    {
        CargoCmd { nightly, ..self }
    }

    /// Sets the cargo binary to run.
    pub fn with_cargo(self, cargo: String) -> (r: Self)
        ensures
            r == (CargoCmd { cargo, ..self }),
    {
        CargoCmd { cargo, ..self }
    }

    /// Sets the sub-command.
    pub fn with_sub_command(self, sub_command: SubCmd) -> (r: Self)
        ensures
            r == (CargoCmd { sub_command, ..self }),
    {
        CargoCmd { sub_command, ..self }
    }

    /// Sets the profile.
    pub fn with_profile(self, profile: CargoProfile) -> (r: Self)
        ensures
            r == (CargoCmd { profile, ..self }),
    {
        CargoCmd { profile, ..self }
    }

    /// Sets the package to build.
    pub fn with_pkg(self, pkg: String) -> (r: Self)
        ensures
            r == (CargoCmd { pkg, ..self }),
    {
        CargoCmd { pkg, ..self }
    }

    /// Sets the compilation target.
    pub fn with_target(self, target: RustcTarget) -> (r: Self)
        ensures
            r == (CargoCmd { target, ..self }),
    {
        CargoCmd { target, ..self }
    }

    /// Sets whether the whole workspace is built.
    pub fn with_all_packages(self, all_packages: bool) -> (r: Self)
        ensures
            r == (CargoCmd { all_packages, ..self }),
    {
        CargoCmd { all_packages, ..self }
    }

    /// Sets whether all features are enabled.
    pub fn with_all_features(self, all_features: bool) -> (r: Self)
        ensures
            r == (CargoCmd { all_features, ..self }),
    {
        CargoCmd { all_features, ..self }
    }

    /// Sets whether default features are disabled.
    pub fn with_no_default_features(self, no_default_features: bool) -> (r: Self)
        ensures
            r == (CargoCmd { no_default_features, ..self }),
    {
        CargoCmd { no_default_features, ..self }
    }

    /// Sets the features to enable.
    pub fn with_features(self, features: Vec<String>) -> (r: Self)
        ensures
            r == (CargoCmd { features, ..self }),
    {
        CargoCmd { features, ..self }
    }

    /// Sets the standard-library build options.
    pub fn with_build_std(self, build_std: BuildStd) -> (r: Self)
        ensures
            r == (CargoCmd { build_std, ..self }),
    {
        CargoCmd { build_std, ..self }
    }

    /// Sets the standard-library build features.
    pub fn with_build_std_features(self, build_std_features: BuildStdFeatures) -> (r: Self)
        ensures
            r == (CargoCmd { build_std_features, ..self }),
    {
        CargoCmd { build_std_features, ..self }
    }

    /// Sets the verbatim extra arguments.
    pub fn with_other_args(self, other_args: Vec<String>) -> (r: Self)
        ensures
            r == (CargoCmd { other_args, ..self }),
    {
        CargoCmd { other_args, ..self }
    }
}

/// The leading argv tokens: the cargo binary (the literal `cargo` when
/// none is named), `+nightly` on request, the sub-command word, and the
/// profile and package selections.
pub open spec fn head_view(
    cargo: Seq<char>,
    nightly: bool,
    sub: Seq<char>,
    profile: Seq<char>,
    pkg: Seq<char>,
) -> Seq<Seq<char>> {
    seq![
        if cargo.len() == 0 {
            "cargo"@
        } else {
            cargo
        },
    ] + opt_arg(nightly, "+nightly"@) + seq![sub] + opt_arg(
        profile.len() > 0,
        long_arg_chars("profile"@, profile),
    ) + opt_arg(pkg.len() > 0, long_arg_chars("package"@, pkg))
}

/// The middle argv tokens: workspace, target and feature selections.
pub open spec fn mid_view(
    all_packages: bool,
    target: Seq<char>,
    all_features: bool,
    no_default_features: bool,
    features: Seq<Seq<char>>,
) -> Seq<Seq<char>> {
    opt_arg(all_packages, "--workspace"@) + opt_arg(
        target.len() > 0,
        long_arg_chars("target"@, target),
    ) + opt_arg(all_features, "--all-features"@) + opt_arg(
        no_default_features,
        "--no-default-features"@,
    ) + opt_arg(features.len() > 0, "--features="@ + join_sep(features, ","@))
}

/// Emits the leading argv tokens; see `head_view`.
#[verifier::rlimit(100)]
#[verifier::spinoff_prover]
fn argv_part1(
    out: &mut Vec<String>,
    cargo: String,
    nightly: bool,
    sub_command: &SubCmd,
    profile: &CargoProfile,
    pkg: &String,
)
    ensures
        final(out).deep_view() == old(out).deep_view() + head_view(
            cargo@,
            nightly,
            sub_command.spec_str(),
            profile.spec_str(),
            pkg@,
        ),
{
    let ghost g0 = out.deep_view();
    let prog = if cargo.as_str().is_empty() {
        String::from_str("cargo")
    } else {
        cargo
    };
    out.push(prog);
    proof {
        assert(out.deep_view() =~= g0 + seq![
            if cargo@.len() == 0 {
                "cargo"@
            } else {
                cargo@
            },
        ]);
    }
    let ghost g1 = out.deep_view();
    if nightly {
        out.push(String::from_str("+nightly"));
    }
    proof {
        assert(out.deep_view() =~= g1 + opt_arg(nightly, "+nightly"@));
    }
    let ghost g2 = out.deep_view();
    out.push(String::from_str(sub_command.as_str()));
    proof {
        assert(out.deep_view() =~= g2 + seq![sub_command.spec_str()]);
    }
    let ghost g3 = out.deep_view();
    push_opt(out, try_into_long_arg("profile", profile.as_str()));
    proof {
        assert(out.deep_view() =~= g3 + opt_arg(
            profile.spec_str().len() > 0,
            long_arg_chars("profile"@, profile.spec_str()),
        ));
    }
    let ghost g4 = out.deep_view();
    push_opt(out, try_into_long_arg("package", pkg.as_str()));
    proof {
        assert(out.deep_view() =~= g4 + opt_arg(pkg@.len() > 0, long_arg_chars("package"@, pkg@)));
    }
}

/// Emits the middle argv tokens; see `mid_view`.
#[verifier::rlimit(100)]
#[verifier::spinoff_prover]
fn argv_part2(
    out: &mut Vec<String>,
    all_packages: bool,
    target: &RustcTarget,
    all_features: bool,
    no_default_features: bool,
    features: &Vec<String>,
)
    ensures
        final(out).deep_view() == old(out).deep_view() + mid_view(
            all_packages,
            target.spec_str(),
            all_features,
            no_default_features,
            features.deep_view(),
        ),
{
    let ghost g0 = out.deep_view();
    if all_packages {
        out.push(String::from_str("--workspace"));
    }
    proof {
        assert(out.deep_view() =~= g0 + opt_arg(all_packages, "--workspace"@));
    }
    let ghost g1 = out.deep_view();
    push_opt(out, try_into_long_arg("target", target.as_str()));
    proof {
        assert(out.deep_view() =~= g1 + opt_arg(
            target.spec_str().len() > 0,
            long_arg_chars("target"@, target.spec_str()),
        ));
    }
    let ghost g2 = out.deep_view();
    if all_features {
        out.push(String::from_str("--all-features"));
    }
    proof {
        assert(out.deep_view() =~= g2 + opt_arg(all_features, "--all-features"@));
    }
    let ghost g3 = out.deep_view();
    if no_default_features {
        out.push(String::from_str("--no-default-features"));
    }
    proof {
        assert(out.deep_view() =~= g3 + opt_arg(no_default_features, "--no-default-features"@));
    }
    let ghost g4 = out.deep_view();
    if features.len() > 0 {
        let joined = join_owned(features, ",");
        out.push(str_concat("--features=", joined.as_str()));
    }
    proof {
        assert(out.deep_view() =~= g4 + opt_arg(
            features.deep_view().len() > 0,
            "--features="@ + join_sep(features.deep_view(), ","@),
        ));
    }
}

/// Appends all the given arguments.
fn append_args(out: &mut Vec<String>, args: Vec<String>)
    ensures
        final(out).deep_view() == old(out).deep_view() + args.deep_view(),
{
    let ghost pre = out.deep_view();
    let mut rest = args;
    out.append(&mut rest);
    proof {
        assert(out.deep_view() =~= pre + args.deep_view());
    }
}

/// Appends the argument when it is present.
fn push_opt(out: &mut Vec<String>, o: Option<String>)
    ensures
        final(out).deep_view() == old(out).deep_view() + (match o {
            Some(s) => seq![s@],
            _ => Seq::<Seq<char>>::empty(),
        }),
{
    let ghost pre = out.deep_view();
    match o {
        Some(s) => {
            let ghost sv = s@;
            out.push(s);
            proof {
                assert(out.deep_view() =~= pre + seq![sv]);
            }
        },
        _ => {
            proof {
                assert(pre + Seq::<Seq<char>>::empty() =~= pre);
            }
        },
    }
}

impl Default for CargoCmd {
    /// A plain `cargo build --profile=release`: release profile, host
    /// target, no package selection, nothing else enabled.
    fn default() -> (r: Self)
        ensures
            r.nightly == false,
            r.cargo@ == "cargo"@,
            r.sub_command is Build,
            r.profile is Release,
            r.pkg@ == Seq::<char>::empty(),
            r.target is Ignore,
            r.all_packages == false,
            r.all_features == false,
            r.no_default_features == false,
            r.features.deep_view() == Seq::<Seq<char>>::empty(),
            r.build_std == (BuildStd {
                build_default: false,
                std_lib: false,
                core: false,
                alloc: false,
                panic_abort: false,
                panic_unwind: false,
                test: false,
                proc_macro: false,
            }),
            r.build_std_features == (BuildStdFeatures {
                panic_immediate_abort: false,
                panic_unwind: false,
                backtrace: false,
                optimize_for_size: false,
                llvm_libunwind: false,
                system_llvm_libunwind: false,
                debug_refcell: false,
                debug_typeid: false,
                std_detect_file_io: false,
                std_detect_dlsym_getauxval: false,
                std_detect_env_override: false,
                windows_raw_dylib: false,
            }),
            r.other_args.deep_view() == Seq::<Seq<char>>::empty(),
            r.rust_flags.crt_static is None,
            r.rust_flags.prefer_dynamic is None,
            r.rust_flags.linker@ == Seq::<char>::empty(),
            r.rust_flags.linker_flavor is Ignore,
            r.rust_flags.link_self_contained is None,
            r.rust_flags.relocation_model is Ignore,
            r.rust_flags.code_model is Ignore,
            r.rust_flags.codegen_units is None,
            r.rust_flags.native_target_cpu is None,
            r.rust_flags.other_flags.deep_view() == Seq::<Seq<char>>::empty(),
    {
        let r = CargoCmd {
            rust_flags: flags::RustFlags::default(),
            nightly: false,
            cargo: String::from_str("cargo"),
            sub_command: SubCmd::default(),
            profile: CargoProfile::default(),
            pkg: String::new(),
            target: RustcTarget::default(),
            all_packages: false,
            all_features: false,
            no_default_features: false,
            features: Vec::new(),
            build_std: BuildStd::default(),
            build_std_features: BuildStdFeatures::default(),
            other_args: Vec::new(),
        };
        proof {
            assert(r.features.deep_view() =~= Seq::<Seq<char>>::empty());
            assert(r.other_args.deep_view() =~= Seq::<Seq<char>>::empty());
        }
        r
    }
}

impl From<CargoCmd> for CommandRepr<'_> {
    /// The collected argv as an owned pre-split command.
    fn from(value: CargoCmd) -> (r: Self) {
        value.into_repr()
    }
}

impl vstd::std_specs::convert::FromSpecImpl<CargoCmd> for CommandRepr<'_> {
    open spec fn obeys_from_spec() -> bool {
        false
    }

    open spec fn from_spec(value: CargoCmd) -> Self {
        CommandRepr::Raw("")
    }
}

impl From<CargoCmd> for Runner<'_> {
    /// A runner for the collected argv, with the default strategy.
    fn from(value: CargoCmd) -> (r: Self) {
        Runner {
            command: value.into_repr(),
            remove_comments: true,
            inspect_mode: InspectMode::Stderr,
            stdin_data: None,
        }
    }
}

impl vstd::std_specs::convert::FromSpecImpl<CargoCmd> for Runner<'_> {
    open spec fn obeys_from_spec() -> bool {
        false
    }

    open spec fn from_spec(value: CargoCmd) -> Self {
        Runner {
            command: CommandRepr::Raw(""),
            remove_comments: true,
            inspect_mode: InspectMode::Stderr,
            stdin_data: None,
        }
    }
}

} // verus!
