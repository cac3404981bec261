//! Build options for the standard library components (`-Z build-std`).

use vstd::prelude::*;
use vstd::string::*;

use crate::os_cmd::presets::cargo_build::ArgConverter;
use crate::os_cmd::text::join_borrowed;
use crate::os_cmd::text::join_sep;
use crate::os_cmd::text::str_concat;

verus! {

/// Represents the build options for the standard library components.
///
/// By default all options are `false` and no argument is emitted.
///
/// `build_default` is special: when it is `true` and every component is
/// `false`, the bare `-Z build-std` is emitted, which compiles the default
/// set of components. Any enabled component overrides it: then
/// `-Z build-std=<components>` names exactly the enabled ones, in the
/// order `std, core, alloc, panic_abort, panic_unwind, test, proc_macro`.
#[derive(Debug, Clone)]
pub struct BuildStd {
    pub build_default: bool,
    pub std_lib: bool,
    pub core: bool,
    pub alloc: bool,
    pub panic_abort: bool,
    pub panic_unwind: bool,
    pub test: bool,
    pub proc_macro: bool,
}

impl BuildStd {
    /// The names of the enabled components, in emission order.
    pub open spec fn names_view(&self) -> Seq<Seq<char>> {
        (if self.std_lib {
        seq!["std"@]
    } else {
        Seq::empty()
    }) + (if self.core {
        seq!["core"@]
    } else {
        Seq::empty()
    }) + (if self.alloc {
        seq!["alloc"@]
    } else {
        Seq::empty()
    }) + (if self.panic_abort {
        seq!["panic_abort"@]
    } else {
        Seq::empty()
    }) + (if self.panic_unwind {
        seq!["panic_unwind"@]
    } else {
        Seq::empty()
    }) + (if self.test {
        seq!["test"@]
    } else {
        Seq::empty()
    }) + (if self.proc_macro {
        seq!["proc_macro"@]
    } else {
        Seq::empty()
    })
    }

    /// Sets `build_default`.
    pub fn with_build_default(self, build_default: bool) -> (r: Self)
        ensures
            r == (BuildStd { build_default, ..self }),
    {
        BuildStd { build_default, ..self }
    }

    /// Sets whether the `std` component is built.
    pub fn with_std(self, std_lib: bool) -> (r: Self)
        ensures
            r == (BuildStd { std_lib, ..self }),
    {
        BuildStd { std_lib, ..self }
    }

    /// Sets `core`.
    pub fn with_core(self, core: bool) -> (r: Self)
        ensures
            r == (BuildStd { core, ..self }),
    {
        BuildStd { core, ..self }
    }

    /// Sets `alloc`.
    pub fn with_alloc(self, alloc: bool) -> (r: Self)
        ensures
            r == (BuildStd { alloc, ..self }),
    {
        BuildStd { alloc, ..self }
    }

    /// Sets `panic_abort`.
    pub fn with_panic_abort(self, panic_abort: bool) -> (r: Self)
        ensures
            r == (BuildStd { panic_abort, ..self }),
    {
        BuildStd { panic_abort, ..self }
    }

    /// Sets `panic_unwind`.
    pub fn with_panic_unwind(self, panic_unwind: bool) -> (r: Self)
        ensures
            r == (BuildStd { panic_unwind, ..self }),
    {
        BuildStd { panic_unwind, ..self }
    }

    /// Sets `test`.
    pub fn with_test(self, test: bool) -> (r: Self)
        ensures
            r == (BuildStd { test, ..self }),
    {
        BuildStd { test, ..self }
    }

    /// Sets `proc_macro`.
    pub fn with_proc_macro(self, proc_macro: bool) -> (r: Self)
        ensures
            r == (BuildStd { proc_macro, ..self }),
    {
        BuildStd { proc_macro, ..self }
    }

    /// Whether `build_default` is enabled.
    pub fn get_build_default(&self) -> (r: bool)
        ensures
            r == self.build_default,
    {
        self.build_default
    }

    /// Whether the `std` component is built.
    pub fn get_std(&self) -> (r: bool)
        ensures
            r == self.std_lib,
    {
        self.std_lib
    }

    /// Whether `core` is enabled.
    pub fn get_core(&self) -> (r: bool)
        ensures
            r == self.core,
    {
        self.core
    }

    /// Whether `alloc` is enabled.
    pub fn get_alloc(&self) -> (r: bool)
        ensures
            r == self.alloc,
    {
        self.alloc
    }

    /// Whether `panic_abort` is enabled.
    pub fn get_panic_abort(&self) -> (r: bool)
        ensures
            r == self.panic_abort,
    {
        self.panic_abort
    }

    /// Whether `panic_unwind` is enabled.
    pub fn get_panic_unwind(&self) -> (r: bool)
        ensures
            r == self.panic_unwind,
    {
        self.panic_unwind
    }

    /// Whether `test` is enabled.
    pub fn get_test(&self) -> (r: bool)
        ensures
            r == self.test,
    {
        self.test
    }

    /// Whether `proc_macro` is enabled.
    pub fn get_proc_macro(&self) -> (r: bool)
        ensures
            r == self.proc_macro,
    {
        self.proc_macro
    }

}

impl ArgConverter for BuildStd {
    /// `-Z build-std=<enabled components>`; the bare `-Z build-std` when
    /// only `build_default` is enabled; nothing when nothing is enabled.
    open spec fn args_view(&self) -> Seq<Seq<char>> {
        if self.names_view().len() > 0 {
            seq!["-Z"@, "build-std="@ + join_sep(self.names_view(), ","@)]
        } else if self.build_default {
            seq!["-Z"@, "build-std"@]
        } else {
            Seq::empty()
        }
    }

    /// Converts the enabled options to arguments; see `args_view`.
    fn to_args(&self) -> (r: Vec<String>) {
        let mut names: Vec<&str> = Vec::new();
        proof {
            assert(names.deep_view() =~= Seq::<Seq<char>>::empty());
        }
        let ghost g0 = names.deep_view();
        if self.std_lib {
            names.push("std");
        }
        proof {
            assert(names.deep_view() =~= g0 + (if self.std_lib {
                seq!["std"@]
            } else {
                Seq::<Seq<char>>::empty()
            }));
        }
        let ghost g1 = names.deep_view();
        if self.core {
            names.push("core");
        }
        proof {
            assert(names.deep_view() =~= g1 + (if self.core {
                seq!["core"@]
            } else {
                Seq::<Seq<char>>::empty()
            }));
        }
        let ghost g2 = names.deep_view();
        if self.alloc {
            names.push("alloc");
        }
        proof {
            assert(names.deep_view() =~= g2 + (if self.alloc {
                seq!["alloc"@]
            } else {
                Seq::<Seq<char>>::empty()
            }));
        }
        let ghost g3 = names.deep_view();
        if self.panic_abort {
            names.push("panic_abort");
        }
        proof {
            assert(names.deep_view() =~= g3 + (if self.panic_abort {
                seq!["panic_abort"@]
            } else {
                Seq::<Seq<char>>::empty()
            }));
        }
        let ghost g4 = names.deep_view();
        if self.panic_unwind {
            names.push("panic_unwind");
        }
        proof {
            assert(names.deep_view() =~= g4 + (if self.panic_unwind {
                seq!["panic_unwind"@]
            } else {
                Seq::<Seq<char>>::empty()
            }));
        }
        let ghost g5 = names.deep_view();
        if self.test {
            names.push("test");
        }
        proof {
            assert(names.deep_view() =~= g5 + (if self.test {
                seq!["test"@]
            } else {
                Seq::<Seq<char>>::empty()
            }));
        }
        let ghost g6 = names.deep_view();
        if self.proc_macro {
            names.push("proc_macro");
        }
        proof {
            assert(names.deep_view() =~= g6 + (if self.proc_macro {
                seq!["proc_macro"@]
            } else {
                Seq::<Seq<char>>::empty()
            }));
        }
        proof {
            assert(names.deep_view() == self.names_view());
        }
        let mut out: Vec<String> = Vec::new();
        if names.len() > 0 {
            let joined = join_borrowed(&names, ",");
            let arg = str_concat("build-std=", joined.as_str());
            out.push(String::from_str("-Z"));
            out.push(arg);
            proof {
                assert(out.deep_view() =~= seq![
                    "-Z"@,
                    "build-std="@ + join_sep(self.names_view(), ","@),
                ]);
            }
        } else if self.build_default {
            out.push(String::from_str("-Z"));
            out.push(String::from_str("build-std"));
            proof {
                assert(out.deep_view() =~= seq!["-Z"@, "build-std"@]);
            }
        } else {
            proof {
                assert(out.deep_view() =~= Seq::<Seq<char>>::empty());
            }
        }
        out
    }
}

impl Default for BuildStd {
    /// Every option disabled: nothing is emitted.
    fn default() -> (r: Self)
        ensures
            r == (BuildStd {
                build_default: false,
                std_lib: false,
                core: false,
                alloc: false,
                panic_abort: false,
                panic_unwind: false,
                test: false,
                proc_macro: false,
            }),
    {
        BuildStd {
            build_default: false,
            std_lib: false,
            core: false,
            alloc: false,
            panic_abort: false,
            panic_unwind: false,
            test: false,
            proc_macro: false,
        }
    }
}

} // verus!
