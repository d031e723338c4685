use openblas_build::error::Error;
use openblas_build::layout::{
    report_filename, scrubbed_env_var, staging_action, stderr_log_filename, stdout_log_filename,
    Platform, StagingAction,
};
use openblas_build::source::{
    acquisition_action, confirm_unpacked, openblas_source_url, source_directory_name,
    AcquisitionAction,
};

#[test]
fn source_url_is_the_versioned_release_archive() {
    assert_eq!(
        openblas_source_url(),
        "https://github.com/OpenMathLib/OpenBLAS/releases/download/v0.3.30/OpenBLAS-0.3.30.tar.gz"
    );
}

#[test]
fn source_directory_is_versioned() {
    assert_eq!(source_directory_name(), "OpenBLAS-0.3.30");
}

#[test]
fn acquisition_reuses_an_existing_tree() {
    assert_eq!(acquisition_action(true), AcquisitionAction::UseExisting);
    assert_eq!(acquisition_action(false), AcquisitionAction::FetchAndUnpack);
}

#[test]
fn unpacking_must_produce_the_expected_directory() {
    assert!(confirm_unpacked(true).is_ok());
    assert!(matches!(
        confirm_unpacked(false).unwrap_err(),
        Error::FetchError { .. }
    ));
}

#[test]
fn fixed_file_names() {
    assert_eq!(report_filename(), "Makefile.conf");
    assert_eq!(stdout_log_filename(), "out.log");
    assert_eq!(stderr_log_filename(), "err.log");
    assert_eq!(scrubbed_env_var(), "TARGET");
}

#[test]
fn artifact_names_follow_the_platform() {
    assert_eq!(Platform::Linux.static_library_filename(), "libopenblas.a");
    assert_eq!(Platform::MacOs.static_library_filename(), "libopenblas.a");
    assert_eq!(Platform::Linux.shared_library_filename(), "libopenblas.so");
    assert_eq!(Platform::MacOs.shared_library_filename(), "libopenblas.dylib");
}

#[test]
fn staging_never_overwrites() {
    assert_eq!(staging_action(true, true, false), StagingAction::Skip);
    assert_eq!(staging_action(true, false, true), StagingAction::Skip);
    assert_eq!(staging_action(false, true, false), StagingAction::CreateDirectory);
    assert_eq!(staging_action(false, false, true), StagingAction::CopyFile);
    assert_eq!(staging_action(false, false, false), StagingAction::Ignore);
}

#[test]
fn error_descriptions_are_fixed() {
    assert_eq!(
        Error::FortranCompilerNotFound.describe(),
        "Fortran compiler not found; it is necessary to build LAPACK"
    );
    assert_eq!(
        Error::UnsupportedTarget { target: "x".to_string() }.describe(),
        "target is unsupported"
    );
}
