//! Configurable cargo rustdoc command.

use vstd::prelude::*;
use vstd::string::*;

use crate::os_cmd::presets::TinyCfg;
use crate::os_cmd::presets::opt_arg;
use crate::os_cmd::repr::CommandRepr;
use crate::os_cmd::runner::InspectMode;
use crate::os_cmd::runner::Runner;
use crate::os_cmd::text::str_eq;

verus! {

/// The tokens a named value contributes: nothing when the value is empty,
/// else `--package <value>` for the field `pkg` and `--cfg <value>` for
/// any other field.
pub open spec fn concat_cfg_view(field_name: Seq<char>, value: Seq<char>) -> Seq<Seq<char>> {
    if value.len() == 0 {
        Seq::empty()
    } else {
        seq![
            if field_name == "pkg"@ {
                "--package"@
            } else {
                "--cfg"@
            },
            value,
        ]
    }
}

/// - pkg: `""` gives nothing, a value gives `["--package", value]`.
/// - any other field: `""` gives nothing, a value gives `["--cfg", value]`.
pub fn concat_tinycfg<'a>(field_name: &str, value: &'a str) -> (r: TinyCfg<'a>)
    ensures
        r.deep_view() == concat_cfg_view(field_name@, value@),
{
    let mut out: TinyCfg<'a> = Vec::new();
    if value.is_empty() {
        proof {
            assert(out.deep_view() =~= concat_cfg_view(field_name@, value@));
        }
        return out;
    }
    let arg = if str_eq(field_name, "pkg") {
        "--package"
    } else {
        "--cfg"
    };
    out.push(arg);
    out.push(value);
    proof {
        assert(out.deep_view() =~= concat_cfg_view(field_name@, value@));
    }
    out
}

/// Configurable cargo rustdoc command: picks the package, whether the
/// documentation opens afterwards, and whether private items and a custom
/// `--cfg` are passed behind the `--` separator.
#[derive(Debug, Clone)]
pub struct CargoDoc<'a> {
    pub pkg: &'a str,
    pub custom_cfg: &'a str,
    pub nightly: bool,
    pub all_features: bool,
    pub open_docs: bool,
    pub enable_private_items: bool,
}

impl<'a> CargoDoc<'a> {
    /// The full argv this configuration denotes.
    pub open spec fn argv_view(&self) -> Seq<Seq<char>> {
        seq!["cargo"@] + opt_arg(self.nightly, "+nightly"@) + seq!["rustdoc"@] + concat_cfg_view(
            "pkg"@,
            self.pkg@,
        ) + opt_arg(self.all_features, "--all-features"@) + opt_arg(self.open_docs, "--open"@)
            + seq!["--"@] + concat_cfg_view("custom_cfg"@, self.custom_cfg@) + opt_arg(
            self.enable_private_items,
            "--document-private-items"@,
        )
    }

    /// Collects the configured options into a token list; see `argv_view`.
    pub fn into_slice(self) -> (r: TinyCfg<'a>)
        ensures
            r.deep_view() == self.argv_view(),
    {
        let CargoDoc { pkg, custom_cfg, nightly, all_features, open_docs, enable_private_items } =
            self;
        let mut out: TinyCfg<'a> = Vec::new();
        out.push("cargo");
        proof {
            assert(out.deep_view() =~= seq!["cargo"@]);
        }
        let ghost g1 = out.deep_view();
        if nightly {
            out.push("+nightly");
        }
        proof {
            assert(out.deep_view() =~= g1 + opt_arg(self.nightly, "+nightly"@));
        }
        let ghost g2 = out.deep_view();
        out.push("rustdoc");
        proof {
            assert(out.deep_view() =~= g2 + seq!["rustdoc"@]);
        }
        let ghost g3 = out.deep_view();
        let mut pkg_args = concat_tinycfg("pkg", pkg);
        out.append(&mut pkg_args);
        proof {
            assert(out.deep_view() =~= g3 + concat_cfg_view("pkg"@, self.pkg@));
        }
        let ghost g4 = out.deep_view();
        if all_features {
            out.push("--all-features");
        }
        proof {
            assert(out.deep_view() =~= g4 + opt_arg(self.all_features, "--all-features"@));
        }
        let ghost g5 = out.deep_view();
        if open_docs {
            out.push("--open");
        }
        proof {
            assert(out.deep_view() =~= g5 + opt_arg(self.open_docs, "--open"@));
        }
        let ghost g6 = out.deep_view();
        out.push("--");
        proof {
            assert(out.deep_view() =~= g6 + seq!["--"@]);
        }
        let ghost g7 = out.deep_view();
        let mut cfg_args = concat_tinycfg("custom_cfg", custom_cfg);
        out.append(&mut cfg_args);
        proof {
            assert(out.deep_view() =~= g7 + concat_cfg_view("custom_cfg"@, self.custom_cfg@));
        }
        let ghost g8 = out.deep_view();
        if enable_private_items {
            out.push("--document-private-items");
        }
        proof {
            assert(out.deep_view() =~= g8 + opt_arg(
                self.enable_private_items,
                "--document-private-items"@,
            ));
        }
        out
    }

    /// Turns this configuration into a command representation.
    pub fn into_repr(self) -> (r: CommandRepr<'a>)
        ensures
            r matches CommandRepr::Slice(v) && v.deep_view() == self.argv_view(),
    {
        CommandRepr::Slice(self.into_slice())
    }

    /// Sets the package to document.
    pub fn with_pkg(self, pkg: &'a str) -> (r: Self)
        ensures
            r == (CargoDoc { pkg, ..self }),
    {
        CargoDoc { pkg, ..self }
    }

    /// Sets the custom `--cfg` value.
    pub fn with_custom_cfg(self, custom_cfg: &'a str) -> (r: Self)
        ensures
            r == (CargoDoc { custom_cfg, ..self }),
    {
        CargoDoc { custom_cfg, ..self }
    }

    /// Sets whether the nightly toolchain is requested.
    pub fn with_nightly(self, nightly: bool) -> (r: Self)
        ensures
            r == (CargoDoc { nightly, ..self }),
    {
        CargoDoc { nightly, ..self }
    }

    /// Sets whether all features are enabled.
    pub fn with_all_features(self, all_features: bool) -> (r: Self)
        ensures
            r == (CargoDoc { all_features, ..self }),
    {
        CargoDoc { all_features, ..self }
    }

    /// Sets whether the documentation opens after generation.
    pub fn with_open(self, open_docs: bool) -> (r: Self)
        ensures
            r == (CargoDoc { open_docs, ..self }),
    {
        CargoDoc { open_docs, ..self }
    }

    /// Sets whether private items are documented.
    pub fn with_enable_private_items(self, enable_private_items: bool) -> (r: Self)
        ensures
            r == (CargoDoc { enable_private_items, ..self }),
    {
        CargoDoc { enable_private_items, ..self }
    }

    /// The package to document.
    pub fn get_pkg(&self) -> (r: &'a str)
        ensures
            r == self.pkg,
    {
        self.pkg
    }

    /// The custom `--cfg` value.
    pub fn get_custom_cfg(&self) -> (r: &'a str)
        ensures
            r == self.custom_cfg,
    {
        self.custom_cfg
    }

    /// Whether the nightly toolchain is requested.
    pub fn get_nightly(&self) -> (r: bool)
        ensures
            r == self.nightly,
    {
        self.nightly
    }

    /// Whether all features are enabled.
    pub fn get_all_features(&self) -> (r: bool)
        ensures
            r == self.all_features,
    {
        self.all_features
    }

    /// Whether the documentation opens after generation.
    pub fn get_open(&self) -> (r: bool)
        ensures
            r == self.open_docs,
    {
        self.open_docs
    }

    /// Whether private items are documented.
    pub fn get_enable_private_items(&self) -> (r: bool)
        ensures
            r == self.enable_private_items,
    {
        self.enable_private_items
    }
}

impl<'a> Default for CargoDoc<'a> {
    /// Document everything of the current package with the nightly
    /// toolchain, open the result, and enable the `__unstable_doc` cfg.
    fn default() -> (r: Self)
        ensures
            r.pkg@ == Seq::<char>::empty(),
            r.custom_cfg@ == "__unstable_doc"@,
            r.nightly == true,
            r.all_features == true,
            r.open_docs == true,
            r.enable_private_items == true,
    {
        proof {
            reveal_strlit("");
        }
        CargoDoc {
            nightly: true,
            pkg: "",
            custom_cfg: "__unstable_doc",
            all_features: true,
            open_docs: true,
            enable_private_items: true,
        }
    }
}

impl<'a> From<CargoDoc<'a>> for CommandRepr<'a> {
    /// The collected tokens as a borrowed pre-split command.
    fn from(value: CargoDoc<'a>) -> (r: Self) {
        value.into_repr()
    }
}

impl<'a> vstd::std_specs::convert::FromSpecImpl<CargoDoc<'a>> for CommandRepr<'a> {
    open spec fn obeys_from_spec() -> bool {
        false
    }

    open spec fn from_spec(value: CargoDoc<'a>) -> Self {
        CommandRepr::Raw("")
    }
}

impl<'a> From<CargoDoc<'a>> for Runner<'a> {
    /// A runner for the collected tokens, with the default strategy.
    fn from(value: CargoDoc<'a>) -> (r: Self) {
        Runner {
            command: value.into_repr(),
            remove_comments: true,
            inspect_mode: InspectMode::Stderr,
            stdin_data: None,
        }
    }
}

impl<'a> vstd::std_specs::convert::FromSpecImpl<CargoDoc<'a>> for Runner<'a> {
    open spec fn obeys_from_spec() -> bool {
        false
    }

    open spec fn from_spec(value: CargoDoc<'a>) -> Self {
        Runner {
            command: CommandRepr::Raw(""),
            remove_comments: true,
            inspect_mode: InspectMode::Stderr,
            stdin_data: None,
        }
    }
}

} // verus!
