use std::str::FromStr;

use openblas_build::error::Error;
use openblas_build::target::Target;

#[test]
fn target_from_str() {
    assert_eq!(Target::from_str("p2").unwrap(), Target::P2);
    assert!(matches!(
        Target::from_str("p3").unwrap_err(),
        Error::UnsupportedTarget { .. }
    ));
}

#[test]
fn target_token_round_trip() {
    let samples = [
        Target::P2,
        Target::KATMAI,
        Target::HASWELL,
        Target::SAPPHIRERAPIDS,
        Target::OPTERON_SSE3,
        Target::ZEN,
        Target::SSE_GENERIC,
        Target::POWER10,
        Target::PPC440FP2,
        Target::MIPS64_GENERIC,
        Target::I6500,
        Target::ITANIUM2,
        Target::SPARCV7,
        Target::ARMV5,
        Target::CORTEXA9,
        Target::ARMV8,
        Target::THUNDERX3T110,
        Target::NEOVERSEV1,
        Target::FT2000,
        Target::ZARCH_GENERIC,
        Target::C910V,
        Target::LOONGSON2K1000,
        Target::E2K,
        Target::EV6,
    ];
    for t in samples {
        assert_eq!(Target::parse(t.token()).unwrap(), t);
    }
}

#[test]
fn target_parse_is_case_insensitive() {
    assert_eq!(Target::parse("HASWELL").unwrap(), Target::HASWELL);
    assert_eq!(Target::parse("HasWell").unwrap(), Target::HASWELL);
    assert_eq!(Target::parse("neoversen1").unwrap(), Target::NEOVERSEN1);
    assert_eq!(Target::parse("NEOVERSEN1").unwrap(), Target::NEOVERSEN1);
}

#[test]
fn target_parse_rejects_unknown_token() {
    let err = Target::parse("hal9000").unwrap_err();
    match err {
        Error::UnsupportedTarget { target } => assert_eq!(target, "hal9000"),
        other => panic!("wrong error: {:?}", other),
    }
    assert!(matches!(
        Target::parse("").unwrap_err(),
        Error::UnsupportedTarget { .. }
    ));
}

#[test]
fn target_tokens_are_canonical_lowercase() {
    assert_eq!(Target::HASWELL.token(), "haswell");
    assert_eq!(Target::P2.token(), "p2");
    assert_eq!(Target::OPTERON_SSE3.token(), "opteron_sse3");
    assert_eq!(Target::THUNDERX2T99.token(), "thunderx2t99");
}
