use openblas_build::error::Error;
use openblas_build::report::{BuildConfigReport, LinkRequirements};

fn strings(items: &[&str]) -> Vec<String> {
    items.iter().map(|s| s.to_string()).collect()
}

#[test]
fn link_requirements_deduplicate_and_sort() {
    let lr = LinkRequirements::parse("-L/usr/lib -L/usr/lib -lc -lm");
    assert_eq!(lr.search_paths, strings(&["/usr/lib"]));
    assert_eq!(lr.library_names, strings(&["c", "m"]));
}

#[test]
fn link_requirements_sort_is_stable_across_parses() {
    let a = LinkRequirements::parse("-lz -la -lz -L/b -L/a");
    let b = LinkRequirements::parse("-lz -la -lz -L/b -L/a");
    assert_eq!(a.library_names, strings(&["a", "z"]));
    assert_eq!(a.search_paths, strings(&["/a", "/b"]));
    assert_eq!(a, b);
}

#[test]
fn link_requirements_ignore_other_tokens() {
    let lr = LinkRequirements::parse("-pthread /opt/x.o -Wl,-rpath -lgfortran");
    assert_eq!(lr.search_paths, strings(&[]));
    assert_eq!(lr.library_names, strings(&["gfortran"]));
}

#[test]
fn report_line_parses_to_requirements() {
    let report = BuildConfigReport::parse("CEXTRALIB=-L/usr/lib -L/usr/lib -lc -lm\n");
    assert_eq!(report.c_link_requirements.search_paths, strings(&["/usr/lib"]));
    assert_eq!(report.c_link_requirements.library_names, strings(&["c", "m"]));
    assert_eq!(report.fortran_link_requirements.search_paths, strings(&[]));
    assert_eq!(report.fortran_link_requirements.library_names, strings(&[]));
}

#[test]
fn fortran_marker_is_presence_not_value() {
    let with_zero = BuildConfigReport::parse("OSNAME=Linux\nNOFORTRAN=0\n");
    assert!(with_zero.fortran_unavailable);
    let with_one = BuildConfigReport::parse("NOFORTRAN=1\n");
    assert!(with_one.fortran_unavailable);
    let without = BuildConfigReport::parse("OSNAME=Linux\nFC=gfortran\n");
    assert!(!without.fortran_unavailable);
}

#[test]
fn malformed_lines_are_skipped() {
    let report = BuildConfigReport::parse(
        "junk line without equals\nOSNAME=Linux\nA=B=C\n\nNOFORTRAN\n",
    );
    assert_eq!(report.os_name, "Linux");
    // `NOFORTRAN` without `=` is not a KEY=VALUE line, so the marker is absent
    assert!(!report.fortran_unavailable);
}

#[test]
fn later_keys_override_earlier_ones() {
    let report = BuildConfigReport::parse("OSNAME=Darwin\nOSNAME=Linux\nCEXTRALIB=-lold\nCEXTRALIB=-lnew\n");
    assert_eq!(report.os_name, "Linux");
    assert_eq!(report.c_link_requirements.library_names, strings(&["new"]));
}

#[test]
fn os_name_is_verbatim_and_cr_is_stripped() {
    let report = BuildConfigReport::parse("OSNAME= spaced value \r\n");
    assert_eq!(report.os_name, " spaced value ");
}

#[test]
fn fortran_requirements_come_from_their_own_key() {
    let report = BuildConfigReport::parse("CEXTRALIB=-lc\nFEXTRALIB=-L/f -lgfortran\n");
    assert_eq!(report.c_link_requirements.library_names, strings(&["c"]));
    assert_eq!(report.fortran_link_requirements.search_paths, strings(&["/f"]));
    assert_eq!(report.fortran_link_requirements.library_names, strings(&["gfortran"]));
}

#[test]
fn canonical_paths_replace_raw_ones() {
    let lr = LinkRequirements::parse("-L/usr/lib/../lib -lm");
    let canonical = vec![Some("/usr/lib".to_string())];
    let resolved = lr.with_canonical_paths(&canonical).unwrap();
    assert_eq!(resolved.search_paths, strings(&["/usr/lib"]));
    assert_eq!(resolved.library_names, strings(&["m"]));
}

#[test]
fn canonical_paths_merge_duplicates() {
    let lr = LinkRequirements::parse("-L/a/../lib -L/b/../lib");
    let canonical = vec![Some("/lib".to_string()), Some("/lib".to_string())];
    let resolved = lr.with_canonical_paths(&canonical).unwrap();
    assert_eq!(resolved.search_paths, strings(&["/lib"]));
}

#[test]
fn unresolvable_path_is_a_hard_error() {
    let lr = LinkRequirements::parse("-L/gone -lm");
    let canonical = vec![None];
    match lr.with_canonical_paths(&canonical).unwrap_err() {
        Error::CannotCanonicalizePath { path } => assert_eq!(path, "/gone"),
        other => panic!("wrong error: {:?}", other),
    }
}

#[test]
fn empty_report_parses_to_defaults() {
    let report = BuildConfigReport::parse("");
    assert_eq!(report.os_name, "");
    assert!(!report.fortran_unavailable);
    assert_eq!(report.c_link_requirements.search_paths, strings(&[]));
    assert_eq!(report.c_link_requirements.library_names, strings(&[]));
}
