use openblas_build::config::{
    fortran_counterpart, BuildEnvironment, CompilerOverrides, Configuration, IntegerInterface,
};
use openblas_build::error::Error;
use openblas_build::inspect::ArtifactInspection;
use openblas_build::orchestrator::{BuildState, Orchestrator, OutDirObservation};
use openblas_build::report::BuildConfigReport;
use openblas_build::target::Target;

fn strings(items: &[&str]) -> Vec<String> {
    items.iter().map(|s| s.to_string()).collect()
}

fn linux_env() -> BuildEnvironment {
    BuildEnvironment {
        host_triple: "x86_64-unknown-linux-gnu".to_string(),
        target_triple: "x86_64-unknown-linux-gnu".to_string(),
        fortran_probe_succeeded: false,
    }
}

fn cross_env(target: &str, probe: bool) -> BuildEnvironment {
    BuildEnvironment {
        host_triple: "x86_64-unknown-linux-gnu".to_string(),
        target_triple: target.to_string(),
        fortran_probe_succeeded: probe,
    }
}

#[test]
fn default_configuration_builds_everything() {
    let c = Configuration::default();
    assert!(c.include_static && c.include_shared && c.include_cblas_layer);
    assert!(c.include_lapack && c.include_lapacke_layer);
    assert!(!c.use_threading && !c.use_parallel_runtime && !c.use_dynamic_arch_dispatch);
    assert_eq!(c.integer_interface, IntegerInterface::Narrow);
    assert!(c.target_cpu.is_none());
    assert_eq!(c.make_args(), strings(&[]));
}

#[test]
fn make_args_map_each_field_to_its_flag() {
    let mut c = Configuration::default();
    c.include_static = false;
    c.include_shared = false;
    c.include_cblas_layer = false;
    c.include_lapack = false;
    c.include_lapacke_layer = false;
    c.use_threading = true;
    c.use_parallel_runtime = true;
    c.use_dynamic_arch_dispatch = true;
    c.integer_interface = IntegerInterface::Wide;
    c.target_cpu = Some(Target::HASWELL);
    assert_eq!(
        c.make_args(),
        strings(&[
            "NO_STATIC=1",
            "NO_SHARED=1",
            "NO_CBLAS=1",
            "NO_LAPACK=1",
            "NO_LAPACKE=1",
            "USE_THREAD=1",
            "USE_OPENMP=1",
            "DYNAMIC_ARCH=1",
            "INTERFACE64=1",
            "TARGET=haswell",
        ])
    );
}

#[test]
fn make_args_omit_flags_for_defaults() {
    let mut c = Configuration::default();
    c.include_shared = false;
    assert_eq!(c.make_args(), strings(&["NO_SHARED=1"]));
}

#[test]
fn build_arguments_on_the_host_apply_overrides_only() {
    let mut c = Configuration::default();
    c.compiler_overrides = CompilerOverrides {
        c_compiler: Some("gcc-12".to_string()),
        fortran_compiler: None,
        host_compiler: None,
        archiver_tool: Some("ar".to_string()),
    };
    let args = c.to_build_arguments(&linux_env()).unwrap();
    assert_eq!(args, strings(&["CC=gcc-12", "AR=ar"]));
}

#[test]
fn cross_compilation_requires_a_c_compiler() {
    let c = Configuration::default();
    let err = c
        .to_build_arguments(&cross_env("aarch64-unknown-linux-gnu", true))
        .unwrap_err();
    match err {
        Error::MissingCrossCompileInfo { info } => assert_eq!(info, "cross C compiler"),
        other => panic!("wrong error: {:?}", other),
    }
}

#[test]
fn cross_compilation_probes_the_fortran_counterpart() {
    let mut c = Configuration::default();
    c.compiler_overrides.c_compiler = Some("aarch64-linux-gnu-gcc".to_string());
    let args = c
        .to_build_arguments(&cross_env("aarch64-unknown-linux-gnu", true))
        .unwrap();
    assert_eq!(
        args,
        strings(&[
            "CC=aarch64-linux-gnu-gcc",
            "FC=aarch64-linux-gnu-gfortran",
            "HOSTCC=cc",
            "TARGET=armv8",
        ])
    );
}

#[test]
fn cross_compilation_degrades_to_fortran_free() {
    let mut c = Configuration::default();
    c.compiler_overrides.c_compiler = Some("aarch64-linux-gnu-gcc".to_string());
    let args = c
        .to_build_arguments(&cross_env("aarch64-unknown-linux-gnu", false))
        .unwrap();
    assert_eq!(
        args,
        strings(&[
            "CC=aarch64-linux-gnu-gcc",
            "NOFORTRAN=1",
            "HOSTCC=cc",
            "TARGET=armv8",
        ])
    );
}

#[test]
fn cross_compilation_keeps_an_explicit_target() {
    let mut c = Configuration::default();
    c.compiler_overrides.c_compiler = Some("aarch64-linux-gnu-gcc".to_string());
    c.target_cpu = Some(Target::CORTEXA72);
    let args = c
        .to_build_arguments(&cross_env("aarch64-unknown-linux-gnu", true))
        .unwrap();
    assert_eq!(
        args,
        strings(&[
            "TARGET=cortexa72",
            "CC=aarch64-linux-gnu-gcc",
            "FC=aarch64-linux-gnu-gfortran",
            "HOSTCC=cc",
        ])
    );
}

#[test]
fn cross_compilation_omits_target_for_unknown_arch() {
    let mut c = Configuration::default();
    c.compiler_overrides.c_compiler = Some("gcc".to_string());
    let args = c
        .to_build_arguments(&cross_env("m68k-unknown-linux-gnu", false))
        .unwrap();
    // the arch has no known default target, so no TARGET flag is emitted
    assert_eq!(args, strings(&["CC=gcc", "NOFORTRAN=1", "HOSTCC=cc"]));
}

#[test]
fn fortran_counterpart_follows_toolchain_patterns() {
    assert_eq!(
        fortran_counterpart("aarch64-linux-gnu-gcc"),
        Some("aarch64-linux-gnu-gfortran".to_string())
    );
    assert_eq!(fortran_counterpart("gcc"), Some("gfortran".to_string()));
    assert_eq!(fortran_counterpart("clang"), Some("flang".to_string()));
    assert_eq!(fortran_counterpart("icc"), None);
    assert_eq!(fortran_counterpart("cc"), None);
}

fn observation(report_text: &str, static_artifact: Option<ArtifactInspection>) -> OutDirObservation {
    OutDirObservation {
        report: Ok(BuildConfigReport::parse(report_text)),
        static_artifact,
        shared_artifact: None,
        static_path: "/out/libopenblas.a".to_string(),
        shared_path: "/out/libopenblas.so".to_string(),
    }
}

fn static_inspection(symbols: &str) -> ArtifactInspection {
    ArtifactInspection::from_tool_listings("/out/libopenblas.a".to_string(), symbols, "")
}

#[test]
fn fortran_policy_fails_a_clean_build() {
    // the subprocess exited zero, yet LAPACK was requested and the report
    // says Fortran was unavailable
    let mut c = Configuration::default();
    c.include_static = true;
    c.include_shared = false;
    assert!(c.include_lapack);
    let obs = observation(
        "OSNAME=Linux\nNOFORTRAN=1\n",
        Some(static_inspection("0000000000000000 T cblas_dgemm\n")),
    );
    let orchestrator = Orchestrator { config: c, env: linux_env() };
    match orchestrator.on_validated(obs) {
        BuildState::Finished { result } => {
            assert!(matches!(result.unwrap_err(), Error::FortranCompilerNotFound));
        }
        other => panic!("wrong state: {:?}", other),
    }
}

#[test]
fn missing_requested_artifact_is_an_error() {
    let mut c = Configuration::default();
    c.include_shared = false;
    let obs = observation("OSNAME=Linux\n", None);
    match c.evaluate(obs).unwrap_err() {
        Error::LibraryNotExist { path } => assert_eq!(path, "/out/libopenblas.a"),
        other => panic!("wrong error: {:?}", other),
    }
}

#[test]
fn orchestration_is_idempotent() {
    // a completed build's observation, seen again at the cache check,
    // finishes at once with equal deliverables and never runs the tool
    let mut c = Configuration::default();
    c.include_shared = false;
    c.include_lapack = false;
    c.include_lapacke_layer = false;
    let listing = "0000000000000000 T cblas_dgemm\n";
    let first = observation("OSNAME=Linux\nNOFORTRAN=1\n", Some(static_inspection(listing)));
    let second = observation("OSNAME=Linux\nNOFORTRAN=1\n", Some(static_inspection(listing)));
    let orchestrator = Orchestrator {
        config: c,
        env: linux_env(),
    };
    let finished = orchestrator.on_validated(first);
    let shortcut = orchestrator.on_cache_checked(second);
    assert!(!matches!(shortcut, BuildState::RunTool { .. }));
    match (finished, shortcut) {
        (BuildState::Finished { result: a }, BuildState::Finished { result: b }) => {
            assert_eq!(a.unwrap(), b.unwrap());
        }
        other => panic!("wrong states: {:?}", other),
    }
}

#[test]
fn invalid_cache_goes_on_to_staging() {
    let c = Configuration::default();
    let obs = OutDirObservation {
        report: Err(Error::MakeConfNotExist { out_dir: "/out".to_string() }),
        static_artifact: None,
        shared_artifact: None,
        static_path: "/out/libopenblas.a".to_string(),
        shared_path: "/out/libopenblas.so".to_string(),
    };
    let orchestrator = Orchestrator { config: c, env: linux_env() };
    assert_eq!(orchestrator.start(), BuildState::CheckCache);
    assert_eq!(orchestrator.on_cache_checked(obs), BuildState::Stage);
}

#[test]
fn staging_leads_to_the_tool_run() {
    let mut c = Configuration::default();
    c.include_shared = false;
    let orchestrator = Orchestrator { config: c, env: linux_env() };
    match orchestrator.on_staged() {
        BuildState::RunTool { args } => {
            assert_eq!(args, strings(&["NO_SHARED=1", "all"]));
        }
        other => panic!("wrong state: {:?}", other),
    }
}

#[test]
fn tool_exit_classification() {
    let orchestrator = Orchestrator { config: Configuration::default(), env: linux_env() };
    match orchestrator.on_tool_exit(false, false, None, "no such file".to_string()) {
        BuildState::Finished { result } => match result.unwrap_err() {
            Error::SubprocessCannotStart { error } => assert_eq!(error, "no such file"),
            other => panic!("wrong error: {:?}", other),
        },
        other => panic!("wrong state: {:?}", other),
    }
    match orchestrator.on_tool_exit(true, false, Some(2), "gfortran: not found".to_string()) {
        BuildState::Finished { result } => match result.unwrap_err() {
            Error::NonZeroExitStatus { status, stderr } => {
                assert_eq!(status, 2);
                assert_eq!(stderr, "gfortran: not found");
            }
            other => panic!("wrong error: {:?}", other),
        },
        other => panic!("wrong state: {:?}", other),
    }
    assert_eq!(
        orchestrator.on_tool_exit(true, true, Some(0), String::new()),
        BuildState::Validate
    );
}

#[test]
fn static_only_build_with_lapack() {
    // static requested, shared not; the toolchain had Fortran, so the
    // static artifact carries LAPACK but no LAPACKE (it was not requested)
    let mut c = Configuration::default();
    c.include_static = true;
    c.include_shared = false;
    c.include_lapacke_layer = false;
    c.include_lapack = true;
    let listing = "0000000000000000 T cblas_dgemm\n0000000000000010 T dsyev_\n                 U free\n";
    let obs = observation("OSNAME=Linux\n", Some(static_inspection(listing)));
    let deliverables = c.evaluate(obs).unwrap();
    let static_artifact = deliverables.static_artifact.unwrap();
    assert!(static_artifact.has_lapack());
    assert!(!static_artifact.has_lapacke());
    assert!(deliverables.shared_artifact.is_none());
}
