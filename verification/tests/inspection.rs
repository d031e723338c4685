use openblas_build::inspect::{lib_name_of, sniff_format, ArtifactInspection, BinaryFormat};

const SYMBOLS: &str = "0000000000000000 T cblas_dgemm\n\
0000000000001000 T dsyev_\n\
0000000000002000 T LAPACKE_dsyev\n\
                 U free\n\
0000000000003000 D some_data\n";

const NEEDED: &str = "Dynamic Section:\n\
  NEEDED               libgfortran.so.5\n\
  NEEDED               libm.so.6\n\
  SONAME               libopenblas.so.0\n";

#[test]
fn inspection_reads_defined_symbols() {
    let a = ArtifactInspection::from_tool_listings("/out/libopenblas.so".to_string(), SYMBOLS, NEEDED);
    assert_eq!(a.path, "/out/libopenblas.so");
    assert!(a.has_cblas());
    assert!(a.has_lapack());
    assert!(a.has_lapacke());
    assert!(a.has_symbol("some_data"));
    // undefined symbols are not defined symbols
    assert!(!a.has_symbol("free"));
    assert!(!a.has_symbol("missing_entirely"));
}

#[test]
fn inspection_reads_runtime_dependencies() {
    let a = ArtifactInspection::from_tool_listings("/out/libopenblas.so".to_string(), SYMBOLS, NEEDED);
    assert!(a.has_lib("gfortran"));
    assert!(a.has_lib("m"));
    assert!(!a.has_lib("gomp"));
    // the SONAME line declares no dependency
    assert!(!a.has_lib("openblas"));
}

#[test]
fn queries_are_repeatable() {
    let a = ArtifactInspection::from_tool_listings("/x".to_string(), SYMBOLS, NEEDED);
    assert_eq!(a.has_lapack(), a.has_lapack());
    assert_eq!(a.has_lib("gfortran"), a.has_lib("gfortran"));
}

#[test]
fn macho_underscore_prefix_is_tolerated() {
    let symbols = "0000000000000000 T _cblas_dgemm\n0000000000000010 T _dsyev_\n";
    let a = ArtifactInspection::from_tool_listings("/x".to_string(), symbols, "");
    assert!(a.has_cblas());
    assert!(a.has_lapack());
    assert!(!a.has_lapacke());
}

#[test]
fn macho_dependency_listing_is_understood() {
    let needed = "/out/libopenblas.dylib:\n\
\t/usr/lib/libSystem.B.dylib (compatibility version 1.0.0, current version 1319.0.0)\n\
\t/usr/local/opt/gfortran/lib/libgfortran.5.dylib (compatibility version 6.0.0)\n";
    let a = ArtifactInspection::from_tool_listings("/out/libopenblas.dylib".to_string(), "", needed);
    assert!(a.has_lib("System"));
    assert!(a.has_lib("gfortran"));
    assert!(!a.has_lib("m"));
}

#[test]
fn empty_listings_give_an_empty_inspection() {
    let a = ArtifactInspection::from_tool_listings("/x".to_string(), "", "");
    assert!(!a.has_cblas() && !a.has_lapack() && !a.has_lapacke());
    assert!(!a.has_lib("m"));
}

#[test]
fn bare_library_names() {
    assert_eq!(lib_name_of("libgfortran.so.5"), "gfortran");
    assert_eq!(lib_name_of("libm.so.6"), "m");
    assert_eq!(lib_name_of("/usr/lib/libSystem.B.dylib"), "System");
    assert_eq!(lib_name_of("ld-linux-x86-64.so.2"), "ld-linux-x86-64");
}

#[test]
fn format_sniffing() {
    assert_eq!(sniff_format(&vec![0x7f, b'E', b'L', b'F', 2, 1, 1, 0]), BinaryFormat::Elf);
    assert_eq!(sniff_format(&vec![0xcf, 0xfa, 0xed, 0xfe, 0, 0, 0, 0]), BinaryFormat::MachO);
    assert_eq!(sniff_format(&vec![0xce, 0xfa, 0xed, 0xfe]), BinaryFormat::MachO);
    assert_eq!(sniff_format(&vec![0xca, 0xfe, 0xba, 0xbe]), BinaryFormat::MachO);
    assert_eq!(
        sniff_format(&vec![b'!', b'<', b'a', b'r', b'c', b'h', b'>', b'\n']),
        BinaryFormat::Archive
    );
    assert_eq!(sniff_format(&vec![0x7f, b'E']), BinaryFormat::Unknown);
    assert_eq!(sniff_format(&vec![]), BinaryFormat::Unknown);
    assert_eq!(sniff_format(&vec![b'#', b'!', b'/', b'b']), BinaryFormat::Unknown);
}
