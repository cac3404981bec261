//! Standard library build features for `-Z build-std-features`.

use vstd::prelude::*;
use vstd::string::*;

use crate::os_cmd::presets::cargo_build::ArgConverter;
use crate::os_cmd::text::join_borrowed;
use crate::os_cmd::text::join_sep;
use crate::os_cmd::text::str_concat;

verus! {

/// Configuration for standard library build features when using
/// `-Z build-std`. By default every feature is disabled and no argument is
/// emitted; the enabled features are named in one
/// `-Z build-std-features=<features>` argument.
#[derive(Debug, Clone)]
pub struct BuildStdFeatures {
    pub panic_immediate_abort: bool,
    pub panic_unwind: bool,
    pub backtrace: bool,
    pub optimize_for_size: bool,
    pub llvm_libunwind: bool,
    pub system_llvm_libunwind: bool,
    pub debug_refcell: bool,
    pub debug_typeid: bool,
    pub std_detect_file_io: bool,
    pub std_detect_dlsym_getauxval: bool,
    pub std_detect_env_override: bool,
    pub windows_raw_dylib: bool,
}

impl BuildStdFeatures {
    /// The names of the first half of the features, in emission order.
    pub open spec fn names_view_a(&self) -> Seq<Seq<char>> {
        (if self.panic_immediate_abort {
        seq!["panic_immediate_abort"@]
    } else {
        Seq::empty()
    }) + (if self.panic_unwind {
        seq!["panic_unwind"@]
    } else {
        Seq::empty()
    }) + (if self.backtrace {
        seq!["backtrace"@]
    } else {
        Seq::empty()
    }) + (if self.llvm_libunwind {
        seq!["llvm_libunwind"@]
    } else {
        Seq::empty()
    }) + (if self.system_llvm_libunwind {
        seq!["system_llvm_libunwind"@]
    } else {
        Seq::empty()
    }) + (if self.optimize_for_size {
        seq!["optimize_for_size"@]
    } else {
        Seq::empty()
    })
    }

    /// The names of the second half of the features, in emission order.
    pub open spec fn names_view_b(&self) -> Seq<Seq<char>> {
        (if self.debug_refcell {
        seq!["debug_refcell"@]
    } else {
        Seq::empty()
    }) + (if self.debug_typeid {
        seq!["debug_typeid"@]
    } else {
        Seq::empty()
    }) + (if self.std_detect_file_io {
        seq!["std_detect_file_io"@]
    } else {
        Seq::empty()
    }) + (if self.std_detect_dlsym_getauxval {
        seq!["std_detect_dlsym_getauxval"@]
    } else {
        Seq::empty()
    }) + (if self.std_detect_env_override {
        seq!["std_detect_env_override"@]
    } else {
        Seq::empty()
    }) + (if self.windows_raw_dylib {
        seq!["windows_raw_dylib"@]
    } else {
        Seq::empty()
    })
    }

    /// The names of the enabled features, in emission order.
    pub open spec fn names_view(&self) -> Seq<Seq<char>> {
        self.names_view_a() + self.names_view_b()
    }

    /// Pushes the enabled names of the first half.
    #[verifier::rlimit(100)]
    #[verifier::spinoff_prover]
    fn push_names_a(&self, names: &mut Vec<&'static str>)
        ensures
            final(names).deep_view() == old(names).deep_view() + self.names_view_a(),
    {
        let ghost g0 = names.deep_view();
        if self.panic_immediate_abort {
            names.push("panic_immediate_abort");
        }
        proof {
            assert(names.deep_view() =~= g0 + (if self.panic_immediate_abort {
                seq!["panic_immediate_abort"@]
            } else {
                Seq::<Seq<char>>::empty()
            }));
        }
        let ghost g1 = names.deep_view();
        if self.panic_unwind {
            names.push("panic_unwind");
        }
        proof {
            assert(names.deep_view() =~= g1 + (if self.panic_unwind {
                seq!["panic_unwind"@]
            } else {
                Seq::<Seq<char>>::empty()
            }));
        }
        let ghost g2 = names.deep_view();
        if self.backtrace {
            names.push("backtrace");
        }
        proof {
            assert(names.deep_view() =~= g2 + (if self.backtrace {
                seq!["backtrace"@]
            } else {
                Seq::<Seq<char>>::empty()
            }));
        }
        let ghost g3 = names.deep_view();
        if self.llvm_libunwind {
            names.push("llvm_libunwind");
        }
        proof {
            assert(names.deep_view() =~= g3 + (if self.llvm_libunwind {
                seq!["llvm_libunwind"@]
            } else {
                Seq::<Seq<char>>::empty()
            }));
        }
        let ghost g4 = names.deep_view();
        if self.system_llvm_libunwind {
            names.push("system_llvm_libunwind");
        }
        proof {
            assert(names.deep_view() =~= g4 + (if self.system_llvm_libunwind {
                seq!["system_llvm_libunwind"@]
            } else {
                Seq::<Seq<char>>::empty()
            }));
        }
        let ghost g5 = names.deep_view();
        if self.optimize_for_size {
            names.push("optimize_for_size");
        }
        proof {
            assert(names.deep_view() =~= g5 + (if self.optimize_for_size {
                seq!["optimize_for_size"@]
            } else {
                Seq::<Seq<char>>::empty()
            }));
        }
    }

    /// Pushes the enabled names of the second half.
    #[verifier::rlimit(100)]
    #[verifier::spinoff_prover]
    fn push_names_b(&self, names: &mut Vec<&'static str>)
        ensures
            final(names).deep_view() == old(names).deep_view() + self.names_view_b(),
    {
        let ghost g0 = names.deep_view();
        if self.debug_refcell {
            names.push("debug_refcell");
        }
        proof {
            assert(names.deep_view() =~= g0 + (if self.debug_refcell {
                seq!["debug_refcell"@]
            } else {
                Seq::<Seq<char>>::empty()
            }));
        }
        let ghost g1 = names.deep_view();
        if self.debug_typeid {
            names.push("debug_typeid");
        }
        proof {
            assert(names.deep_view() =~= g1 + (if self.debug_typeid {
                seq!["debug_typeid"@]
            } else {
                Seq::<Seq<char>>::empty()
            }));
        }
        let ghost g2 = names.deep_view();
        if self.std_detect_file_io {
            names.push("std_detect_file_io");
        }
        proof {
            assert(names.deep_view() =~= g2 + (if self.std_detect_file_io {
                seq!["std_detect_file_io"@]
            } else {
                Seq::<Seq<char>>::empty()
            }));
        }
        let ghost g3 = names.deep_view();
        if self.std_detect_dlsym_getauxval {
            names.push("std_detect_dlsym_getauxval");
        }
        proof {
            assert(names.deep_view() =~= g3 + (if self.std_detect_dlsym_getauxval {
                seq!["std_detect_dlsym_getauxval"@]
            } else {
                Seq::<Seq<char>>::empty()
            }));
        }
        let ghost g4 = names.deep_view();
        if self.std_detect_env_override {
            names.push("std_detect_env_override");
        }
        proof {
            assert(names.deep_view() =~= g4 + (if self.std_detect_env_override {
                seq!["std_detect_env_override"@]
            } else {
                Seq::<Seq<char>>::empty()
            }));
        }
        let ghost g5 = names.deep_view();
        if self.windows_raw_dylib {
            names.push("windows_raw_dylib");
        }
        proof {
            assert(names.deep_view() =~= g5 + (if self.windows_raw_dylib {
                seq!["windows_raw_dylib"@]
            } else {
                Seq::<Seq<char>>::empty()
            }));
        }
    }

    /// Sets `panic_immediate_abort`.
    pub fn with_panic_immediate_abort(self, panic_immediate_abort: bool) -> (r: Self)
        ensures
            r == (BuildStdFeatures { panic_immediate_abort, ..self }),
    {
        BuildStdFeatures { panic_immediate_abort, ..self }
    }

    /// Sets `panic_unwind`.
    pub fn with_panic_unwind(self, panic_unwind: bool) -> (r: Self)
        ensures
            r == (BuildStdFeatures { panic_unwind, ..self }),
    {
        BuildStdFeatures { panic_unwind, ..self }
    }

    /// Sets `backtrace`.
    pub fn with_backtrace(self, backtrace: bool) -> (r: Self)
        ensures
            r == (BuildStdFeatures { backtrace, ..self }),
    {
        BuildStdFeatures { backtrace, ..self }
    }

    /// Sets `optimize_for_size`.
    pub fn with_optimize_for_size(self, optimize_for_size: bool) -> (r: Self)
        ensures
            r == (BuildStdFeatures { optimize_for_size, ..self }),
    {
        BuildStdFeatures { optimize_for_size, ..self }
    }

    /// Sets `llvm_libunwind`.
    pub fn with_llvm_libunwind(self, llvm_libunwind: bool) -> (r: Self)
        ensures
            r == (BuildStdFeatures { llvm_libunwind, ..self }),
    {
        BuildStdFeatures { llvm_libunwind, ..self }
    }

    /// Sets `system_llvm_libunwind`.
    pub fn with_system_llvm_libunwind(self, system_llvm_libunwind: bool) -> (r: Self)
        ensures
            r == (BuildStdFeatures { system_llvm_libunwind, ..self }),
    {
        BuildStdFeatures { system_llvm_libunwind, ..self }
    }

    /// Sets `debug_refcell`.
    pub fn with_debug_refcell(self, debug_refcell: bool) -> (r: Self)
        ensures
            r == (BuildStdFeatures { debug_refcell, ..self }),
    {
        BuildStdFeatures { debug_refcell, ..self }
    }

    /// Sets `debug_typeid`.
    pub fn with_debug_typeid(self, debug_typeid: bool) -> (r: Self)
        ensures
            r == (BuildStdFeatures { debug_typeid, ..self }),
    {
        BuildStdFeatures { debug_typeid, ..self }
    }

    /// Sets `std_detect_file_io`.
    pub fn with_std_detect_file_io(self, std_detect_file_io: bool) -> (r: Self)
        ensures
            r == (BuildStdFeatures { std_detect_file_io, ..self }),
    {
        BuildStdFeatures { std_detect_file_io, ..self }
    }

    /// Sets `std_detect_dlsym_getauxval`.
    pub fn with_std_detect_dlsym_getauxval(self, std_detect_dlsym_getauxval: bool) -> (r: Self)
        ensures
            r == (BuildStdFeatures { std_detect_dlsym_getauxval, ..self }),
    {
        BuildStdFeatures { std_detect_dlsym_getauxval, ..self }
    }

    /// Sets `std_detect_env_override`.
    pub fn with_std_detect_env_override(self, std_detect_env_override: bool) -> (r: Self)
        ensures
            r == (BuildStdFeatures { std_detect_env_override, ..self }),
    {
        BuildStdFeatures { std_detect_env_override, ..self }
    }

    /// Sets `windows_raw_dylib`.
    pub fn with_windows_raw_dylib(self, windows_raw_dylib: bool) -> (r: Self)
        ensures
            r == (BuildStdFeatures { windows_raw_dylib, ..self }),
    {
        BuildStdFeatures { windows_raw_dylib, ..self }
    }

    /// Whether `panic_immediate_abort` is enabled.
    pub fn get_panic_immediate_abort(&self) -> (r: bool)
        ensures
            r == self.panic_immediate_abort,
    {
        self.panic_immediate_abort
    }

    /// Whether `panic_unwind` is enabled.
    pub fn get_panic_unwind(&self) -> (r: bool)
        ensures
            r == self.panic_unwind,
    {
        self.panic_unwind
    }

    /// Whether `backtrace` is enabled.
    pub fn get_backtrace(&self) -> (r: bool)
        ensures
            r == self.backtrace,
    {
        self.backtrace
    }

    /// Whether `optimize_for_size` is enabled.
    pub fn get_optimize_for_size(&self) -> (r: bool)
        ensures
            r == self.optimize_for_size,
    {
        self.optimize_for_size
    }

    /// Whether `llvm_libunwind` is enabled.
    pub fn get_llvm_libunwind(&self) -> (r: bool)
        ensures
            r == self.llvm_libunwind,
    {
        self.llvm_libunwind
    }

    /// Whether `system_llvm_libunwind` is enabled.
    pub fn get_system_llvm_libunwind(&self) -> (r: bool)
        ensures
            r == self.system_llvm_libunwind,
    {
        self.system_llvm_libunwind
    }

    /// Whether `debug_refcell` is enabled.
    pub fn get_debug_refcell(&self) -> (r: bool)
        ensures
            r == self.debug_refcell,
    {
        self.debug_refcell
    }

    /// Whether `debug_typeid` is enabled.
    pub fn get_debug_typeid(&self) -> (r: bool)
        ensures
            r == self.debug_typeid,
    {
        self.debug_typeid
    }

    /// Whether `std_detect_file_io` is enabled.
    pub fn get_std_detect_file_io(&self) -> (r: bool)
        ensures
            r == self.std_detect_file_io,
    {
        self.std_detect_file_io
    }

    /// Whether `std_detect_dlsym_getauxval` is enabled.
    pub fn get_std_detect_dlsym_getauxval(&self) -> (r: bool)
        ensures
            r == self.std_detect_dlsym_getauxval,
    {
        self.std_detect_dlsym_getauxval
    }

    /// Whether `std_detect_env_override` is enabled.
    pub fn get_std_detect_env_override(&self) -> (r: bool)
        ensures
            r == self.std_detect_env_override,
    {
        self.std_detect_env_override
    }

    /// Whether `windows_raw_dylib` is enabled.
    pub fn get_windows_raw_dylib(&self) -> (r: bool)
        ensures
            r == self.windows_raw_dylib,
    {
        self.windows_raw_dylib
    }

}

impl ArgConverter for BuildStdFeatures {
    /// `-Z build-std-features=<enabled features>`, or nothing when no
    /// feature is enabled.
    open spec fn args_view(&self) -> Seq<Seq<char>> {
        if self.names_view().len() > 0 {
            seq!["-Z"@, "build-std-features="@ + join_sep(self.names_view(), ","@)]
        } else {
            Seq::empty()
        }
    }

    /// Converts the enabled features to arguments; see `args_view`.
    fn to_args(&self) -> (r: Vec<String>) {
        let mut names: Vec<&'static str> = Vec::new();
        proof {
            assert(names.deep_view() =~= Seq::<Seq<char>>::empty());
        }
        self.push_names_a(&mut names);
        self.push_names_b(&mut names);
        proof {
            assert(Seq::<Seq<char>>::empty() + self.names_view_a() =~= self.names_view_a());
            assert(names.deep_view() == self.names_view());
        }
        let mut out: Vec<String> = Vec::new();
        if names.len() > 0 {
            let joined = join_borrowed(&names, ",");
            let arg = str_concat("build-std-features=", joined.as_str());
            out.push(String::from_str("-Z"));
            out.push(arg);
            proof {
                assert(out.deep_view() =~= seq![
                    "-Z"@,
                    "build-std-features="@ + join_sep(self.names_view(), ","@),
                ]);
            }
        } else {
            proof {
                assert(out.deep_view() =~= Seq::<Seq<char>>::empty());
            }
        }
        out
    }
}

impl Default for BuildStdFeatures {
    /// Every feature disabled: nothing is emitted.
    fn default() -> (r: Self)
        ensures
            r == (BuildStdFeatures {
                panic_immediate_abort: false,
                panic_unwind: false,
                backtrace: false,
                optimize_for_size: false,
                llvm_libunwind: false,
                system_llvm_libunwind: false,
                debug_refcell: false,
                debug_typeid: false,
                std_detect_file_io: false,
                std_detect_dlsym_getauxval: false,
                std_detect_env_override: false,
                windows_raw_dylib: false,
            }),
    {
        BuildStdFeatures {
            panic_immediate_abort: false,
            panic_unwind: false,
            backtrace: false,
            optimize_for_size: false,
            llvm_libunwind: false,
            system_llvm_libunwind: false,
            debug_refcell: false,
            debug_typeid: false,
            std_detect_file_io: false,
            std_detect_dlsym_getauxval: false,
            std_detect_env_override: false,
            windows_raw_dylib: false,
        }
    }
}

} // verus!
