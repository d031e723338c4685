//! The desired build parameters, and their deterministic mapping to the
//! argument list of the external make-based build tool, including the
//! cross-compilation toolchain selection.

use vstd::prelude::*;

use crate::error::Error;
use crate::target::{token_of, Target};
use crate::text::find_char;

verus! {

/// Width of the integer interface the produced library exposes:
/// `Narrow` is the 32-bit interface, `Wide` the 64-bit one.
#[derive(Debug, Clone, Copy, PartialEq, Eq, Hash, Structural)]
pub enum IntegerInterface {
    Narrow,
    Wide,
}

/// Optional replacements for the compilers the external tool would pick on
/// its own.  Each entry, when present, is passed through verbatim.
#[derive(Debug, Clone, PartialEq, Eq, Hash)]
pub struct CompilerOverrides {
    pub c_compiler: Option<String>,
    pub fortran_compiler: Option<String>,
    pub host_compiler: Option<String>,
    pub archiver_tool: Option<String>,
}

impl Default for CompilerOverrides {
    /// No overrides: the external tool picks every compiler itself.
    fn default() -> (r: CompilerOverrides)
        ensures
            r.c_compiler is None,
            r.fortran_compiler is None,
            r.host_compiler is None,
            r.archiver_tool is None,
    {
        CompilerOverrides { c_compiler: None, fortran_compiler: None, host_compiler: None, archiver_tool: None }
    }
}

/// Immutable description of one desired build.  The external tool includes
/// everything by default, so each `include_*` field emits an exclusion flag
/// when it is `false`, and each `use_*` field an inclusion flag when `true`.
///
/// At least one of `include_static` and `include_shared` should be true for
/// the build to be useful; this is not enforced structurally, but a build
/// with both disabled produces no artifacts and consuming it fails.
#[derive(Debug, Clone, PartialEq, Eq, Hash)]
pub struct Configuration {
    pub include_static: bool,
    pub include_shared: bool,
    pub include_cblas_layer: bool,
    pub include_lapack: bool,
    pub include_lapacke_layer: bool,
    pub use_threading: bool,
    pub use_parallel_runtime: bool,
    pub use_dynamic_arch_dispatch: bool,
    pub integer_interface: IntegerInterface,
    pub target_cpu: Option<Target>,
    pub compiler_overrides: CompilerOverrides,
}

impl Default for Configuration {
    /// Everything built, sequential runtime, narrow integers, target
    /// auto-detected, no compiler overrides.
    fn default() -> (r: Configuration)
        ensures
            r.include_static && r.include_shared && r.include_cblas_layer,
            r.include_lapack && r.include_lapacke_layer,
            !r.use_threading && !r.use_parallel_runtime && !r.use_dynamic_arch_dispatch,
            r.integer_interface == IntegerInterface::Narrow,
            r.target_cpu is None,
            r.compiler_overrides.c_compiler is None,
            r.compiler_overrides.fortran_compiler is None,
            r.compiler_overrides.host_compiler is None,
            r.compiler_overrides.archiver_tool is None,
    {
        Configuration {
            include_static: true,
            include_shared: true,
            include_cblas_layer: true,
            include_lapack: true,
            include_lapacke_layer: true,
            use_threading: false,
            use_parallel_runtime: false,
            use_dynamic_arch_dispatch: false,
            integer_interface: IntegerInterface::Narrow,
            target_cpu: None,
            compiler_overrides: CompilerOverrides {
                c_compiler: None,
                fortran_compiler: None,
                host_compiler: None,
                archiver_tool: None,
            },
        }
    }
}

/// A one-element sequence holding `flag` when `cond` holds, else empty.
pub open spec fn flag_if(cond: bool, flag: Seq<char>) -> Seq<Seq<char>> {
    if cond {
        seq![flag]
    } else {
        Seq::empty()
    }
}

/// The flags derived from the configuration fields alone, in a fixed order.
pub open spec fn base_args_spec(c: Configuration) -> Seq<Seq<char>> {
    flag_if(!c.include_static, "NO_STATIC=1"@) + flag_if(!c.include_shared, "NO_SHARED=1"@)
        + flag_if(!c.include_cblas_layer, "NO_CBLAS=1"@) + flag_if(!c.include_lapack, "NO_LAPACK=1"@)
        + flag_if(!c.include_lapacke_layer, "NO_LAPACKE=1"@) + flag_if(c.use_threading, "USE_THREAD=1"@)
        + flag_if(c.use_parallel_runtime, "USE_OPENMP=1"@) + flag_if(
        c.use_dynamic_arch_dispatch,
        "DYNAMIC_ARCH=1"@,
    ) + flag_if(c.integer_interface == IntegerInterface::Wide, "INTERFACE64=1"@) + (match c.target_cpu {
        Some(t) => seq!["TARGET="@ + token_of(t)],
        None => Seq::empty(),
    })
}

fn push_flag_if(args: &mut Vec<String>, cond: bool, flag: &'static str)
    ensures
        final(args).deep_view() == old(args).deep_view() + flag_if(cond, flag@),
{
    if cond {
        args.push(flag.to_owned());
    }
    assert(args.deep_view() =~= old(args).deep_view() + flag_if(cond, flag@)) by {
        if cond {
            assert(args@.last()@ == flag@);
        }
    }
}

/// The machine pair a build runs on: the triple of the build host and the
/// triple the artifacts are for, plus the one probe result the library
/// cannot compute itself: whether the derived cross Fortran compiler
/// candidate answered a version query.
#[derive(Debug, Clone, PartialEq, Eq)]
pub struct BuildEnvironment {
    pub host_triple: String,
    pub target_triple: String,
    pub fortran_probe_succeeded: bool,
}

/// Building for another machine than the one the build runs on?
pub open spec fn is_cross(env: BuildEnvironment) -> bool {
    env.host_triple@ != env.target_triple@
}

/// The Fortran compiler name derived from a C compiler name by the known
/// toolchain patterns, or `None` when no pattern applies.
pub open spec fn fortran_counterpart_spec(cc: Seq<char>) -> Option<Seq<char>> {
    if cc.len() >= 3 && cc.skip(cc.len() - 3) == "gcc"@ {
        Some(cc.take(cc.len() - 3) + "gfortran"@)
    } else if cc.len() >= 5 && cc.skip(cc.len() - 5) == "clang"@ {
        Some(cc.take(cc.len() - 5) + "flang"@)
    } else {
        None
    }
}

/// Derives the cross Fortran compiler candidate from a cross C compiler
/// name: a GCC-family name maps to its `gfortran` counterpart, a
/// clang-family name to `flang`; anything else has no known counterpart.
pub fn fortran_counterpart(cc: &str) -> (r: Option<String>)
    ensures
        match r {
            Some(f) => fortran_counterpart_spec(cc@) == Some(f@),
            None => fortran_counterpart_spec(cc@) is None,
        },
{
    let n = cc.unicode_len();
    if n >= 3 {
        let suffix = cc.substring_char(n - 3, n);
        if crate::text::str_eq(suffix, "gcc") {
            let prefix = cc.substring_char(0, n - 3).to_owned();
            let r = prefix.concat("gfortran");
            return Some(r);
        }
    }
    if n >= 5 {
        let suffix = cc.substring_char(n - 5, n);
        if crate::text::str_eq(suffix, "clang") {
            let prefix = cc.substring_char(0, n - 5).to_owned();
            let r = prefix.concat("flang");
            return Some(r);
        }
    }
    None
}

/// The architecture component of a target triple: everything before the
/// first `-`.
pub open spec fn triple_arch(triple: Seq<char>) -> Seq<char> {
    triple.take(find_char(triple, '-'))
}

/// The default CPU target assumed for an architecture when cross-compiling
/// without an explicit target; architectures without a known default return
/// `None`, and the flag is simply omitted.
pub open spec fn default_cpu_for_arch_spec(arch: Seq<char>) -> Option<Target> {
    if arch == "aarch64"@ {
        Some(Target::ARMV8)
    } else if arch == "arm"@ {
        Some(Target::ARMV6)
    } else if arch == "armv7"@ {
        Some(Target::ARMV7)
    } else if arch == "riscv64"@ || arch == "riscv64gc"@ {
        Some(Target::RISCV64_GENERIC)
    } else if arch == "mips64"@ || arch == "mips64el"@ {
        Some(Target::MIPS64_GENERIC)
    } else if arch == "s390x"@ {
        Some(Target::ZARCH_GENERIC)
    } else if arch == "powerpc64"@ || arch == "powerpc64le"@ {
        Some(Target::POWER8)
    } else if arch == "loongarch64"@ {
        Some(Target::LOONGSONGENERIC)
    } else if arch == "sparc64"@ {
        Some(Target::SPARC)
    } else {
        None
    }
}

pub fn default_cpu_for_arch(arch: &str) -> (r: Option<Target>)
    ensures
        r == default_cpu_for_arch_spec(arch@),
{
    if crate::text::str_eq(arch, "aarch64") {
        Some(Target::ARMV8)
    } else if crate::text::str_eq(arch, "arm") {
        Some(Target::ARMV6)
    } else if crate::text::str_eq(arch, "armv7") {
        Some(Target::ARMV7)
    } else if crate::text::str_eq(arch, "riscv64") || crate::text::str_eq(arch, "riscv64gc") {
        Some(Target::RISCV64_GENERIC)
    } else if crate::text::str_eq(arch, "mips64") || crate::text::str_eq(arch, "mips64el") {
        Some(Target::MIPS64_GENERIC)
    } else if crate::text::str_eq(arch, "s390x") {
        Some(Target::ZARCH_GENERIC)
    } else if crate::text::str_eq(arch, "powerpc64") || crate::text::str_eq(arch, "powerpc64le") {
        Some(Target::POWER8)
    } else if crate::text::str_eq(arch, "loongarch64") {
        Some(Target::LOONGSONGENERIC)
    } else if crate::text::str_eq(arch, "sparc64") {
        Some(Target::SPARC)
    } else {
        None
    }
}

/// The architecture component of a triple, as a fresh string.
pub fn arch_of_triple(triple: &str) -> (r: String)
    ensures
        r@ == triple_arch(triple@),
{
    proof {
        crate::text::lemma_find_char(triple@, '-');
    }
    let n = triple.unicode_len();
    let mut i: usize = 0;
    while i < n && triple.get_char(i) != '-'
        invariant
            n == triple@.len(),
            i <= n,
            forall|k: int| 0 <= k < i ==> triple@[k] != '-',
        decreases n - i,
    {
        i = i + 1;
    }
    assert(find_char(triple@, '-') == i) by {
        if find_char(triple@, '-') < i {
            assert(triple@[find_char(triple@, '-')] == '-');
        }
        if i < n && find_char(triple@, '-') > i {
            assert(triple@[i as int] != '-');
        }
        if i == n && find_char(triple@, '-') < n {
            assert(triple@[find_char(triple@, '-')] == '-');
        }
    }
    let r = triple.substring_char(0, i).to_owned();
    assert(r@ =~= triple_arch(triple@));
    r
}

/// The Fortran-related argument under cross-compilation, given the cross C
/// compiler: an explicit override wins; otherwise the derived candidate is
/// used when the probe succeeded; otherwise the build degrades gracefully
/// to a Fortran-free one instead of failing outright.
pub open spec fn cross_fortran_args(
    overrides: CompilerOverrides,
    cc: Seq<char>,
    probe_succeeded: bool,
) -> Seq<Seq<char>> {
    match overrides.fortran_compiler {
        Some(f) => seq!["FC="@ + f@],
        None => match fortran_counterpart_spec(cc) {
            Some(cand) => if probe_succeeded {
                seq!["FC="@ + cand]
            } else {
                seq!["NOFORTRAN=1"@]
            },
            None => seq!["NOFORTRAN=1"@],
        },
    }
}

/// The whole argument list for one build, or `None` when cross-compilation
/// was detected but no cross C compiler is known.
pub open spec fn build_args_spec(c: Configuration, env: BuildEnvironment) -> Option<Seq<Seq<char>>> {
    if !is_cross(env) {
        Some(
            base_args_spec(c) + (match c.compiler_overrides.c_compiler {
                Some(cc) => seq!["CC="@ + cc@],
                None => Seq::empty(),
            }) + (match c.compiler_overrides.fortran_compiler {
                Some(f) => seq!["FC="@ + f@],
                None => Seq::empty(),
            }) + (match c.compiler_overrides.host_compiler {
                Some(h) => seq!["HOSTCC="@ + h@],
                None => Seq::empty(),
            }) + (match c.compiler_overrides.archiver_tool {
                Some(a) => seq!["AR="@ + a@],
                None => Seq::empty(),
            }),
        )
    } else {
        match c.compiler_overrides.c_compiler {
            None => None,
            Some(cc) => Some(
                base_args_spec(c) + seq!["CC="@ + cc@] + cross_fortran_args(
                    c.compiler_overrides,
                    cc@,
                    env.fortran_probe_succeeded,
                ) + seq![
                    "HOSTCC="@ + (match c.compiler_overrides.host_compiler {
                        Some(h) => h@,
                        None => "cc"@,
                    }),
                ] + (match c.compiler_overrides.archiver_tool {
                    Some(a) => seq!["AR="@ + a@],
                    None => Seq::empty(),
                }) + (if c.target_cpu is None {
                    match default_cpu_for_arch_spec(triple_arch(env.target_triple@)) {
                        Some(t) => seq!["TARGET="@ + token_of(t)],
                        None => Seq::empty(),
                    }
                } else {
                    Seq::empty()
                }),
            ),
        }
    }
}

impl Configuration {
    /// The flags derived from the configuration fields alone, in the fixed
    /// order of `base_args_spec`.
    pub fn make_args(&self) -> (r: Vec<String>)
        ensures
            r.deep_view() == base_args_spec(*self),
    {
        let mut args: Vec<String> = Vec::new();
        push_flag_if(&mut args, !self.include_static, "NO_STATIC=1");
        push_flag_if(&mut args, !self.include_shared, "NO_SHARED=1");
        push_flag_if(&mut args, !self.include_cblas_layer, "NO_CBLAS=1");
        push_flag_if(&mut args, !self.include_lapack, "NO_LAPACK=1");
        push_flag_if(&mut args, !self.include_lapacke_layer, "NO_LAPACKE=1");
        push_flag_if(&mut args, self.use_threading, "USE_THREAD=1");
        push_flag_if(&mut args, self.use_parallel_runtime, "USE_OPENMP=1");
        push_flag_if(&mut args, self.use_dynamic_arch_dispatch, "DYNAMIC_ARCH=1");
        push_flag_if(
            &mut args,
            matches!(self.integer_interface, IntegerInterface::Wide),
            "INTERFACE64=1",
        );
        let ghost before_target = args.deep_view();
        if let Some(t) = &self.target_cpu {
            let arg = String::from_str("TARGET=").concat(t.token());
            args.push(arg);
            assert(args.deep_view() =~= before_target + seq!["TARGET="@ + token_of(self.target_cpu->0)]) by {
                assert(args@.last()@ == "TARGET="@ + token_of(self.target_cpu->0));
            }
        }
        assert(args.deep_view() =~= base_args_spec(*self));
        args
    }

    /// The full argument list for one build in the given environment.
    /// Under cross-compilation a missing cross C compiler is the one piece
    /// that cannot be defaulted and is reported as missing.
    pub fn to_build_arguments(&self, env: &BuildEnvironment) -> (r: Result<Vec<String>, Error>)
        ensures
            r matches Ok(args) ==> build_args_spec(*self, *env) == Some(args.deep_view()),
            r matches Err(e) ==> build_args_spec(*self, *env) is None && (e
                matches Error::MissingCrossCompileInfo { info } && info@ == "cross C compiler"@),
    {
        let mut args = self.make_args();
        let cross = !crate::text::str_eq(env.host_triple.as_str(), env.target_triple.as_str());
        if !cross {
            let ghost a0 = args.deep_view();
            if let Some(cc) = &self.compiler_overrides.c_compiler {
                let arg = String::from_str("CC=").concat(cc.as_str());
                args.push(arg);
            }
            assert(args.deep_view() =~= a0 + (match self.compiler_overrides.c_compiler {
                Some(cc) => seq!["CC="@ + cc@],
                None => Seq::empty(),
            }));
            let ghost a1 = args.deep_view();
            if let Some(f) = &self.compiler_overrides.fortran_compiler {
                let arg = String::from_str("FC=").concat(f.as_str());
                args.push(arg);
            }
            assert(args.deep_view() =~= a1 + (match self.compiler_overrides.fortran_compiler {
                Some(f) => seq!["FC="@ + f@],
                None => Seq::empty(),
            }));
            let ghost a2 = args.deep_view();
            if let Some(h) = &self.compiler_overrides.host_compiler {
                let arg = String::from_str("HOSTCC=").concat(h.as_str());
                args.push(arg);
            }
            assert(args.deep_view() =~= a2 + (match self.compiler_overrides.host_compiler {
                Some(h) => seq!["HOSTCC="@ + h@],
                None => Seq::empty(),
            }));
            let ghost a3 = args.deep_view();
            if let Some(a) = &self.compiler_overrides.archiver_tool {
                let arg = String::from_str("AR=").concat(a.as_str());
                args.push(arg);
            }
            assert(args.deep_view() =~= a3 + (match self.compiler_overrides.archiver_tool {
                Some(a) => seq!["AR="@ + a@],
                None => Seq::empty(),
            }));
            return Ok(args);
        }
        let cc = match &self.compiler_overrides.c_compiler {
            Some(cc) => cc,
            None => {
                return Err(
                    Error::MissingCrossCompileInfo { info: String::from_str("cross C compiler") },
                );
            },
        };
        let ghost a0 = args.deep_view();
        let arg = String::from_str("CC=").concat(cc.as_str());
        args.push(arg);
        assert(args.deep_view() =~= a0 + seq!["CC="@ + cc@]);
        let ghost a1 = args.deep_view();
        match &self.compiler_overrides.fortran_compiler {
            Some(f) => {
                let arg = String::from_str("FC=").concat(f.as_str());
                args.push(arg);
            },
            None => {
                match fortran_counterpart(cc.as_str()) {
                    Some(cand) if env.fortran_probe_succeeded => {
                        let arg = String::from_str("FC=").concat(cand.as_str());
                        args.push(arg);
                    },
                    _ => {
                        args.push(String::from_str("NOFORTRAN=1"));
                    },
                }
            },
        }
        assert(args.deep_view() =~= a1 + cross_fortran_args(
            self.compiler_overrides,
            cc@,
            env.fortran_probe_succeeded,
        ));
        let ghost a2 = args.deep_view();
        let hostcc = match &self.compiler_overrides.host_compiler {
            Some(h) => String::from_str("HOSTCC=").concat(h.as_str()),
            None => String::from_str("HOSTCC=").concat("cc"),
        };
        args.push(hostcc);
        assert(args.deep_view() =~= a2 + seq![
            "HOSTCC="@ + (match self.compiler_overrides.host_compiler {
                Some(h) => h@,
                None => "cc"@,
            }),
        ]);
        let ghost a3 = args.deep_view();
        if let Some(a) = &self.compiler_overrides.archiver_tool {
            let arg = String::from_str("AR=").concat(a.as_str());
            args.push(arg);
        }
        assert(args.deep_view() =~= a3 + (match self.compiler_overrides.archiver_tool {
            Some(a) => seq!["AR="@ + a@],
            None => Seq::empty(),
        }));
        let ghost a4 = args.deep_view();
        if self.target_cpu.is_none() {
            let arch = arch_of_triple(env.target_triple.as_str());
            if let Some(t) = default_cpu_for_arch(arch.as_str()) {
                let arg = String::from_str("TARGET=").concat(t.token());
                args.push(arg);
            }
        }
        assert(args.deep_view() =~= a4 + (if self.target_cpu is None {
            match default_cpu_for_arch_spec(triple_arch(env.target_triple@)) {
                Some(t) => seq!["TARGET="@ + token_of(t)],
                None => Seq::empty(),
            }
        } else {
            Seq::empty()
        }));
        assert(Some(args.deep_view()) =~= build_args_spec(*self, *env));
        Ok(args)
    }
}

} // verus!
