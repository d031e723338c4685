use openblas_build::inspect::ArtifactInspection;

// `dormbr_` comes from the reference LAPACK written in Fortran.  A build
// whose Fortran part was skipped has no such defined symbol, and the
// inspector is what detects that.
#[test]
fn test_link_lapack() {
    let with_fortran = "0000000000000000 T dsyev_\n0000000000000010 T dormbr_\n";
    let a = ArtifactInspection::from_tool_listings("/out/libopenblas.so".to_string(), with_fortran, "");
    assert!(a.has_symbol("dormbr_"));
    assert!(a.has_lapack());

    let without_fortran = "0000000000000000 T cblas_dgemm\n";
    let b =
        ArtifactInspection::from_tool_listings("/out/libopenblas.so".to_string(), without_fortran, "");
    assert!(!b.has_symbol("dormbr_"));
    assert!(!b.has_lapack());
}
