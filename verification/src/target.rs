//! The closed list of CPU microarchitecture targets understood by the
//! external build tool, with its bidirectional mapping between enum
//! variants and canonical lowercase string tokens.  Parsing is
//! ASCII-case-insensitive; an unknown token is a reportable error.

use vstd::prelude::*;

use crate::error::Error;
use crate::text::{lower, str_eq_ignore_ascii_case};

verus! {

/// A CPU microarchitecture identifier from the target list of the
/// external build tool.
#[derive(Debug, Clone, Copy, PartialEq, Eq, Hash, Structural)]
#[allow(non_camel_case_types)]
pub enum Target {
    // X86/X86_64 Intel
    P2,
    KATMAI,
    COPPERMINE,
    NORTHWOOD,
    PRESCOTT,
    BANIAS,
    YONAH,
    CORE2,
    PENRYN,
    DUNNINGTON,
    NEHALEM,
    SANDYBRIDGE,
    HASWELL,
    SKYLAKEX,
    ATOM,
    COOPERLAKE,
    SAPPHIRERAPIDS,
    // X86/X86_64 AMD
    ATHLON,
    OPTERON,
    OPTERON_SSE3,
    BARCELONA,
    SHANGHAI,
    ISTANBUL,
    BOBCAT,
    BULLDOZER,
    PILEDRIVER,
    STEAMROLLER,
    EXCAVATOR,
    ZEN,
    // X86/X86_64 generic and POWER
    SSE_GENERIC,
    VIAC3,
    NANO,
    POWER4,
    POWER5,
    POWER6,
    POWER7,
    POWER8,
    POWER9,
    POWER10,
    PPCG4,
    PPC970,
    PPC970MP,
    PPC440,
    PPC440FP2,
    CELL,
    // MIPS, MIPS64, IA64 and SPARC
    P5600,
    MIPS1004K,
    MIPS24K,
    MIPS64_GENERIC,
    SICORTEX,
    LOONGSON3A,
    LOONGSON3B,
    I6400,
    P6600,
    I6500,
    ITANIUM2,
    SPARC,
    SPARCV7,
    // ARM
    CORTEXA15,
    CORTEXA9,
    ARMV7,
    ARMV6,
    ARMV5,
    // ARM64
    ARMV8,
    CORTEXA53,
    CORTEXA57,
    CORTEXA72,
    CORTEXA73,
    CORTEXA510,
    CORTEXA710,
    CORTEXX1,
    CORTEXX2,
    NEOVERSEN1,
    NEOVERSEV1,
    NEOVERSEN2,
    CORTEXA55,
    EMAG8180,
    FALKOR,
    THUNDERX,
    THUNDERX2T99,
    TSV110,
    THUNDERX3T110,
    VORTEX,
    A64FX,
    ARMV8SVE,
    FT2000,
    // System Z, RISC-V 64, LOONGARCH64, Elbrus E2000 and Alpha
    ZARCH_GENERIC,
    Z13,
    Z14,
    RISCV64_GENERIC,
    C910V,
    LOONGSONGENERIC,
    LOONGSON3R5,
    LOONGSON2K1000,
    E2K,
    EV4,
    EV5,
    EV6,
}

/// The canonical lowercase token of each target.
pub open spec fn token_of(t: Target) -> Seq<char> {
    match t {
        Target::P2 => "p2"@,
        Target::KATMAI => "katamai"@,
        Target::COPPERMINE => "coppermine"@,
        Target::NORTHWOOD => "northwood"@,
        Target::PRESCOTT => "prescott"@,
        Target::BANIAS => "banias"@,
        Target::YONAH => "yonah"@,
        Target::CORE2 => "core2"@,
        Target::PENRYN => "penryn"@,
        Target::DUNNINGTON => "dunnington"@,
        Target::NEHALEM => "nehalem"@,
        Target::SANDYBRIDGE => "sandybridge"@,
        Target::HASWELL => "haswell"@,
        Target::SKYLAKEX => "skylakex"@,
        Target::ATOM => "atom"@,
        Target::COOPERLAKE => "cooperlake"@,
        Target::SAPPHIRERAPIDS => "sapphirerapids"@,
        Target::ATHLON => "athlon"@,
        Target::OPTERON => "opteron"@,
        Target::OPTERON_SSE3 => "opteron_sse3"@,
        Target::BARCELONA => "barcelona"@,
        Target::SHANGHAI => "shanghai"@,
        Target::ISTANBUL => "istanbul"@,
        Target::BOBCAT => "bobcat"@,
        Target::BULLDOZER => "bulldozer"@,
        Target::PILEDRIVER => "piledriver"@,
        Target::STEAMROLLER => "steamroller"@,
        Target::EXCAVATOR => "excavator"@,
        Target::ZEN => "zen"@,
        Target::SSE_GENERIC => "sse_generic"@,
        Target::VIAC3 => "viac3"@,
        Target::NANO => "nano"@,
        Target::POWER4 => "power4"@,
        Target::POWER5 => "power5"@,
        Target::POWER6 => "power6"@,
        Target::POWER7 => "power7"@,
        Target::POWER8 => "power8"@,
        Target::POWER9 => "power9"@,
        Target::POWER10 => "power10"@,
        Target::PPCG4 => "ppcg4"@,
        Target::PPC970 => "ppc970"@,
        Target::PPC970MP => "ppc970mp"@,
        Target::PPC440 => "ppc440"@,
        Target::PPC440FP2 => "ppc440fp2"@,
        Target::CELL => "cell"@,
        Target::P5600 => "p5600"@,
        Target::MIPS1004K => "mips1004k"@,
        Target::MIPS24K => "mips24k"@,
        Target::MIPS64_GENERIC => "mips64_generic"@,
        Target::SICORTEX => "sicortex"@,
        Target::LOONGSON3A => "loongson3a"@,
        Target::LOONGSON3B => "loongson3b"@,
        Target::I6400 => "i6400"@,
        Target::P6600 => "p6600"@,
        Target::I6500 => "i6500"@,
        Target::ITANIUM2 => "itanium2"@,
        Target::SPARC => "sparc"@,
        Target::SPARCV7 => "sparcv7"@,
        Target::CORTEXA15 => "cortexa15"@,
        Target::CORTEXA9 => "cortexa9"@,
        Target::ARMV7 => "armv7"@,
        Target::ARMV6 => "armv6"@,
        Target::ARMV5 => "armv5"@,
        Target::ARMV8 => "armv8"@,
        Target::CORTEXA53 => "cortexa53"@,
        Target::CORTEXA57 => "cortexa57"@,
        Target::CORTEXA72 => "cortexa72"@,
        Target::CORTEXA73 => "cortexa73"@,
        Target::CORTEXA510 => "cortexa510"@,
        Target::CORTEXA710 => "cortexa710"@,
        Target::CORTEXX1 => "cortexx1"@,
        Target::CORTEXX2 => "cortexx2"@,
        Target::NEOVERSEN1 => "neoversen1"@,
        Target::NEOVERSEV1 => "neoversev1"@,
        Target::NEOVERSEN2 => "neoversen2"@,
        Target::CORTEXA55 => "cortexa55"@,
        Target::EMAG8180 => "emag8180"@,
        Target::FALKOR => "falkor"@,
        Target::THUNDERX => "thunderx"@,
        Target::THUNDERX2T99 => "thunderx2t99"@,
        Target::TSV110 => "tsv110"@,
        Target::THUNDERX3T110 => "thunderx3t110"@,
        Target::VORTEX => "vortex"@,
        Target::A64FX => "a64fx"@,
        Target::ARMV8SVE => "armv8sve"@,
        Target::FT2000 => "ft2000"@,
        Target::ZARCH_GENERIC => "zarch_generic"@,
        Target::Z13 => "z13"@,
        Target::Z14 => "z14"@,
        Target::RISCV64_GENERIC => "riscv64_generic"@,
        Target::C910V => "c910v"@,
        Target::LOONGSONGENERIC => "loongsongeneric"@,
        Target::LOONGSON3R5 => "loongson3r5"@,
        Target::LOONGSON2K1000 => "loongson2k1000"@,
        Target::E2K => "e2k"@,
        Target::EV4 => "ev4"@,
        Target::EV5 => "ev5"@,
        Target::EV6 => "ev6"@,
    }
}

pub open spec fn in_x86_intel(t: Target) -> bool {
    match t {
        Target::P2 | Target::KATMAI | Target::COPPERMINE | Target::NORTHWOOD | Target::PRESCOTT | Target::BANIAS | Target::YONAH | Target::CORE2 | Target::PENRYN | Target::DUNNINGTON | Target::NEHALEM | Target::SANDYBRIDGE | Target::HASWELL | Target::SKYLAKEX | Target::ATOM | Target::COOPERLAKE | Target::SAPPHIRERAPIDS => true,
        _ => false,
    }
}

pub open spec fn parse_x86_intel(s: Seq<char>) -> Option<Target> {
    if s == "p2"@ {
        Some(Target::P2)
    } else if s == "katamai"@ {
        Some(Target::KATMAI)
    } else if s == "coppermine"@ {
        Some(Target::COPPERMINE)
    } else if s == "northwood"@ {
        Some(Target::NORTHWOOD)
    } else if s == "prescott"@ {
        Some(Target::PRESCOTT)
    } else if s == "banias"@ {
        Some(Target::BANIAS)
    } else if s == "yonah"@ {
        Some(Target::YONAH)
    } else if s == "core2"@ {
        Some(Target::CORE2)
    } else if s == "penryn"@ {
        Some(Target::PENRYN)
    } else if s == "dunnington"@ {
        Some(Target::DUNNINGTON)
    } else if s == "nehalem"@ {
        Some(Target::NEHALEM)
    } else if s == "sandybridge"@ {
        Some(Target::SANDYBRIDGE)
    } else if s == "haswell"@ {
        Some(Target::HASWELL)
    } else if s == "skylakex"@ {
        Some(Target::SKYLAKEX)
    } else if s == "atom"@ {
        Some(Target::ATOM)
    } else if s == "cooperlake"@ {
        Some(Target::COOPERLAKE)
    } else if s == "sapphirerapids"@ {
        Some(Target::SAPPHIRERAPIDS)
    } else {
        None
    }
}

pub open spec fn in_x86_amd(t: Target) -> bool {
    match t {
        Target::ATHLON | Target::OPTERON | Target::OPTERON_SSE3 | Target::BARCELONA | Target::SHANGHAI | Target::ISTANBUL | Target::BOBCAT | Target::BULLDOZER | Target::PILEDRIVER | Target::STEAMROLLER | Target::EXCAVATOR | Target::ZEN => true,
        _ => false,
    }
}

pub open spec fn parse_x86_amd(s: Seq<char>) -> Option<Target> {
    if s == "athlon"@ {
        Some(Target::ATHLON)
    } else if s == "opteron"@ {
        Some(Target::OPTERON)
    } else if s == "opteron_sse3"@ {
        Some(Target::OPTERON_SSE3)
    } else if s == "barcelona"@ {
        Some(Target::BARCELONA)
    } else if s == "shanghai"@ {
        Some(Target::SHANGHAI)
    } else if s == "istanbul"@ {
        Some(Target::ISTANBUL)
    } else if s == "bobcat"@ {
        Some(Target::BOBCAT)
    } else if s == "bulldozer"@ {
        Some(Target::BULLDOZER)
    } else if s == "piledriver"@ {
        Some(Target::PILEDRIVER)
    } else if s == "steamroller"@ {
        Some(Target::STEAMROLLER)
    } else if s == "excavator"@ {
        Some(Target::EXCAVATOR)
    } else if s == "zen"@ {
        Some(Target::ZEN)
    } else {
        None
    }
}

pub open spec fn in_x86_generic_power(t: Target) -> bool {
    match t {
        Target::SSE_GENERIC | Target::VIAC3 | Target::NANO | Target::POWER4 | Target::POWER5 | Target::POWER6 | Target::POWER7 | Target::POWER8 | Target::POWER9 | Target::POWER10 | Target::PPCG4 | Target::PPC970 | Target::PPC970MP | Target::PPC440 | Target::PPC440FP2 | Target::CELL => true,
        _ => false,
    }
}

pub open spec fn parse_x86_generic_power(s: Seq<char>) -> Option<Target> {
    if s == "sse_generic"@ {
        Some(Target::SSE_GENERIC)
    } else if s == "viac3"@ {
        Some(Target::VIAC3)
    } else if s == "nano"@ {
        Some(Target::NANO)
    } else if s == "power4"@ {
        Some(Target::POWER4)
    } else if s == "power5"@ {
        Some(Target::POWER5)
    } else if s == "power6"@ {
        Some(Target::POWER6)
    } else if s == "power7"@ {
        Some(Target::POWER7)
    } else if s == "power8"@ {
        Some(Target::POWER8)
    } else if s == "power9"@ {
        Some(Target::POWER9)
    } else if s == "power10"@ {
        Some(Target::POWER10)
    } else if s == "ppcg4"@ {
        Some(Target::PPCG4)
    } else if s == "ppc970"@ {
        Some(Target::PPC970)
    } else if s == "ppc970mp"@ {
        Some(Target::PPC970MP)
    } else if s == "ppc440"@ {
        Some(Target::PPC440)
    } else if s == "ppc440fp2"@ {
        Some(Target::PPC440FP2)
    } else if s == "cell"@ {
        Some(Target::CELL)
    } else {
        None
    }
}

pub open spec fn in_mips_ia64_sparc(t: Target) -> bool {
    match t {
        Target::P5600 | Target::MIPS1004K | Target::MIPS24K | Target::MIPS64_GENERIC | Target::SICORTEX | Target::LOONGSON3A | Target::LOONGSON3B | Target::I6400 | Target::P6600 | Target::I6500 | Target::ITANIUM2 | Target::SPARC | Target::SPARCV7 => true,
        _ => false,
    }
}

pub open spec fn parse_mips_ia64_sparc(s: Seq<char>) -> Option<Target> {
    if s == "p5600"@ {
        Some(Target::P5600)
    } else if s == "mips1004k"@ {
        Some(Target::MIPS1004K)
    } else if s == "mips24k"@ {
        Some(Target::MIPS24K)
    } else if s == "mips64_generic"@ {
        Some(Target::MIPS64_GENERIC)
    } else if s == "sicortex"@ {
        Some(Target::SICORTEX)
    } else if s == "loongson3a"@ {
        Some(Target::LOONGSON3A)
    } else if s == "loongson3b"@ {
        Some(Target::LOONGSON3B)
    } else if s == "i6400"@ {
        Some(Target::I6400)
    } else if s == "p6600"@ {
        Some(Target::P6600)
    } else if s == "i6500"@ {
        Some(Target::I6500)
    } else if s == "itanium2"@ {
        Some(Target::ITANIUM2)
    } else if s == "sparc"@ {
        Some(Target::SPARC)
    } else if s == "sparcv7"@ {
        Some(Target::SPARCV7)
    } else {
        None
    }
}

pub open spec fn in_arm(t: Target) -> bool {
    match t {
        Target::CORTEXA15 | Target::CORTEXA9 | Target::ARMV7 | Target::ARMV6 | Target::ARMV5 => true,
        _ => false,
    }
}

pub open spec fn parse_arm(s: Seq<char>) -> Option<Target> {
    if s == "cortexa15"@ {
        Some(Target::CORTEXA15)
    } else if s == "cortexa9"@ {
        Some(Target::CORTEXA9)
    } else if s == "armv7"@ {
        Some(Target::ARMV7)
    } else if s == "armv6"@ {
        Some(Target::ARMV6)
    } else if s == "armv5"@ {
        Some(Target::ARMV5)
    } else {
        None
    }
}

pub open spec fn in_arm64(t: Target) -> bool {
    match t {
        Target::ARMV8 | Target::CORTEXA53 | Target::CORTEXA57 | Target::CORTEXA72 | Target::CORTEXA73 | Target::CORTEXA510 | Target::CORTEXA710 | Target::CORTEXX1 | Target::CORTEXX2 | Target::NEOVERSEN1 | Target::NEOVERSEV1 | Target::NEOVERSEN2 | Target::CORTEXA55 | Target::EMAG8180 | Target::FALKOR | Target::THUNDERX | Target::THUNDERX2T99 | Target::TSV110 | Target::THUNDERX3T110 | Target::VORTEX | Target::A64FX | Target::ARMV8SVE | Target::FT2000 => true,
        _ => false,
    }
}

pub open spec fn parse_arm64(s: Seq<char>) -> Option<Target> {
    if s == "armv8"@ {
        Some(Target::ARMV8)
    } else if s == "cortexa53"@ {
        Some(Target::CORTEXA53)
    } else if s == "cortexa57"@ {
        Some(Target::CORTEXA57)
    } else if s == "cortexa72"@ {
        Some(Target::CORTEXA72)
    } else if s == "cortexa73"@ {
        Some(Target::CORTEXA73)
    } else if s == "cortexa510"@ {
        Some(Target::CORTEXA510)
    } else if s == "cortexa710"@ {
        Some(Target::CORTEXA710)
    } else if s == "cortexx1"@ {
        Some(Target::CORTEXX1)
    } else if s == "cortexx2"@ {
        Some(Target::CORTEXX2)
    } else if s == "neoversen1"@ {
        Some(Target::NEOVERSEN1)
    } else if s == "neoversev1"@ {
        Some(Target::NEOVERSEV1)
    } else if s == "neoversen2"@ {
        Some(Target::NEOVERSEN2)
    } else if s == "cortexa55"@ {
        Some(Target::CORTEXA55)
    } else if s == "emag8180"@ {
        Some(Target::EMAG8180)
    } else if s == "falkor"@ {
        Some(Target::FALKOR)
    } else if s == "thunderx"@ {
        Some(Target::THUNDERX)
    } else if s == "thunderx2t99"@ {
        Some(Target::THUNDERX2T99)
    } else if s == "tsv110"@ {
        Some(Target::TSV110)
    } else if s == "thunderx3t110"@ {
        Some(Target::THUNDERX3T110)
    } else if s == "vortex"@ {
        Some(Target::VORTEX)
    } else if s == "a64fx"@ {
        Some(Target::A64FX)
    } else if s == "armv8sve"@ {
        Some(Target::ARMV8SVE)
    } else if s == "ft2000"@ {
        Some(Target::FT2000)
    } else {
        None
    }
}

pub open spec fn in_other_arch(t: Target) -> bool {
    match t {
        Target::ZARCH_GENERIC | Target::Z13 | Target::Z14 | Target::RISCV64_GENERIC | Target::C910V | Target::LOONGSONGENERIC | Target::LOONGSON3R5 | Target::LOONGSON2K1000 | Target::E2K | Target::EV4 | Target::EV5 | Target::EV6 => true,
        _ => false,
    }
}

pub open spec fn parse_other_arch(s: Seq<char>) -> Option<Target> {
    if s == "zarch_generic"@ {
        Some(Target::ZARCH_GENERIC)
    } else if s == "z13"@ {
        Some(Target::Z13)
    } else if s == "z14"@ {
        Some(Target::Z14)
    } else if s == "riscv64_generic"@ {
        Some(Target::RISCV64_GENERIC)
    } else if s == "c910v"@ {
        Some(Target::C910V)
    } else if s == "loongsongeneric"@ {
        Some(Target::LOONGSONGENERIC)
    } else if s == "loongson3r5"@ {
        Some(Target::LOONGSON3R5)
    } else if s == "loongson2k1000"@ {
        Some(Target::LOONGSON2K1000)
    } else if s == "e2k"@ {
        Some(Target::E2K)
    } else if s == "ev4"@ {
        Some(Target::EV4)
    } else if s == "ev5"@ {
        Some(Target::EV5)
    } else if s == "ev6"@ {
        Some(Target::EV6)
    } else {
        None
    }
}

/// What parsing a (lower-cased) token yields: the unique target with that
/// canonical token, or `None` for an unrecognized token.
pub open spec fn parse_token(s: Seq<char>) -> Option<Target> {
    if parse_x86_intel(s) is Some {
        parse_x86_intel(s)
    } else if parse_x86_amd(s) is Some {
        parse_x86_amd(s)
    } else if parse_x86_generic_power(s) is Some {
        parse_x86_generic_power(s)
    } else if parse_mips_ia64_sparc(s) is Some {
        parse_mips_ia64_sparc(s)
    } else if parse_arm(s) is Some {
        parse_arm(s)
    } else if parse_arm64(s) is Some {
        parse_arm64(s)
    } else if parse_other_arch(s) is Some {
        parse_other_arch(s)
    } else {
        None
    }
}

fn parse_x86_intel_exec(s: &str) -> (r: Option<Target>)
    ensures
        r == parse_x86_intel(lower(s@)),
{
    proof {
        reveal_strlit("p2");
        reveal_strlit("katamai");
        reveal_strlit("coppermine");
        reveal_strlit("northwood");
        reveal_strlit("prescott");
        reveal_strlit("banias");
        reveal_strlit("yonah");
        reveal_strlit("core2");
        reveal_strlit("penryn");
        reveal_strlit("dunnington");
        reveal_strlit("nehalem");
        reveal_strlit("sandybridge");
        reveal_strlit("haswell");
        reveal_strlit("skylakex");
        reveal_strlit("atom");
        reveal_strlit("cooperlake");
        reveal_strlit("sapphirerapids");
        assert(lower("p2"@) =~= "p2"@);
        assert(lower("katamai"@) =~= "katamai"@);
        assert(lower("coppermine"@) =~= "coppermine"@);
        assert(lower("northwood"@) =~= "northwood"@);
        assert(lower("prescott"@) =~= "prescott"@);
        assert(lower("banias"@) =~= "banias"@);
        assert(lower("yonah"@) =~= "yonah"@);
        assert(lower("core2"@) =~= "core2"@);
        assert(lower("penryn"@) =~= "penryn"@);
        assert(lower("dunnington"@) =~= "dunnington"@);
        assert(lower("nehalem"@) =~= "nehalem"@);
        assert(lower("sandybridge"@) =~= "sandybridge"@);
        assert(lower("haswell"@) =~= "haswell"@);
        assert(lower("skylakex"@) =~= "skylakex"@);
        assert(lower("atom"@) =~= "atom"@);
        assert(lower("cooperlake"@) =~= "cooperlake"@);
        assert(lower("sapphirerapids"@) =~= "sapphirerapids"@);
    }
    if str_eq_ignore_ascii_case(s, "p2") {
        return Some(Target::P2);
    }
    if str_eq_ignore_ascii_case(s, "katamai") {
        return Some(Target::KATMAI);
    }
    if str_eq_ignore_ascii_case(s, "coppermine") {
        return Some(Target::COPPERMINE);
    }
    if str_eq_ignore_ascii_case(s, "northwood") {
        return Some(Target::NORTHWOOD);
    }
    if str_eq_ignore_ascii_case(s, "prescott") {
        return Some(Target::PRESCOTT);
    }
    if str_eq_ignore_ascii_case(s, "banias") {
        return Some(Target::BANIAS);
    }
    if str_eq_ignore_ascii_case(s, "yonah") {
        return Some(Target::YONAH);
    }
    if str_eq_ignore_ascii_case(s, "core2") {
        return Some(Target::CORE2);
    }
    if str_eq_ignore_ascii_case(s, "penryn") {
        return Some(Target::PENRYN);
    }
    if str_eq_ignore_ascii_case(s, "dunnington") {
        return Some(Target::DUNNINGTON);
    }
    if str_eq_ignore_ascii_case(s, "nehalem") {
        return Some(Target::NEHALEM);
    }
    if str_eq_ignore_ascii_case(s, "sandybridge") {
        return Some(Target::SANDYBRIDGE);
    }
    if str_eq_ignore_ascii_case(s, "haswell") {
        return Some(Target::HASWELL);
    }
    if str_eq_ignore_ascii_case(s, "skylakex") {
        return Some(Target::SKYLAKEX);
    }
    if str_eq_ignore_ascii_case(s, "atom") {
        return Some(Target::ATOM);
    }
    if str_eq_ignore_ascii_case(s, "cooperlake") {
        return Some(Target::COOPERLAKE);
    }
    if str_eq_ignore_ascii_case(s, "sapphirerapids") {
        return Some(Target::SAPPHIRERAPIDS);
    }
    None
}

fn parse_x86_amd_exec(s: &str) -> (r: Option<Target>)
    ensures
        r == parse_x86_amd(lower(s@)),
{
    proof {
        reveal_strlit("athlon");
        reveal_strlit("opteron");
        reveal_strlit("opteron_sse3");
        reveal_strlit("barcelona");
        reveal_strlit("shanghai");
        reveal_strlit("istanbul");
        reveal_strlit("bobcat");
        reveal_strlit("bulldozer");
        reveal_strlit("piledriver");
        reveal_strlit("steamroller");
        reveal_strlit("excavator");
        reveal_strlit("zen");
        assert(lower("athlon"@) =~= "athlon"@);
        assert(lower("opteron"@) =~= "opteron"@);
        assert(lower("opteron_sse3"@) =~= "opteron_sse3"@);
        assert(lower("barcelona"@) =~= "barcelona"@);
        assert(lower("shanghai"@) =~= "shanghai"@);
        assert(lower("istanbul"@) =~= "istanbul"@);
        assert(lower("bobcat"@) =~= "bobcat"@);
        assert(lower("bulldozer"@) =~= "bulldozer"@);
        assert(lower("piledriver"@) =~= "piledriver"@);
        assert(lower("steamroller"@) =~= "steamroller"@);
        assert(lower("excavator"@) =~= "excavator"@);
        assert(lower("zen"@) =~= "zen"@);
    }
    if str_eq_ignore_ascii_case(s, "athlon") {
        return Some(Target::ATHLON);
    }
    if str_eq_ignore_ascii_case(s, "opteron") {
        return Some(Target::OPTERON);
    }
    if str_eq_ignore_ascii_case(s, "opteron_sse3") {
        return Some(Target::OPTERON_SSE3);
    }
    if str_eq_ignore_ascii_case(s, "barcelona") {
        return Some(Target::BARCELONA);
    }
    if str_eq_ignore_ascii_case(s, "shanghai") {
        return Some(Target::SHANGHAI);
    }
    if str_eq_ignore_ascii_case(s, "istanbul") {
        return Some(Target::ISTANBUL);
    }
    if str_eq_ignore_ascii_case(s, "bobcat") {
        return Some(Target::BOBCAT);
    }
    if str_eq_ignore_ascii_case(s, "bulldozer") {
        return Some(Target::BULLDOZER);
    }
    if str_eq_ignore_ascii_case(s, "piledriver") {
        return Some(Target::PILEDRIVER);
    }
    if str_eq_ignore_ascii_case(s, "steamroller") {
        return Some(Target::STEAMROLLER);
    }
    if str_eq_ignore_ascii_case(s, "excavator") {
        return Some(Target::EXCAVATOR);
    }
    if str_eq_ignore_ascii_case(s, "zen") {
        return Some(Target::ZEN);
    }
    None
}

fn parse_x86_generic_power_exec(s: &str) -> (r: Option<Target>)
    ensures
        r == parse_x86_generic_power(lower(s@)),
{
    proof {
        reveal_strlit("sse_generic");
        reveal_strlit("viac3");
        reveal_strlit("nano");
        reveal_strlit("power4");
        reveal_strlit("power5");
        reveal_strlit("power6");
        reveal_strlit("power7");
        reveal_strlit("power8");
        reveal_strlit("power9");
        reveal_strlit("power10");
        reveal_strlit("ppcg4");
        reveal_strlit("ppc970");
        reveal_strlit("ppc970mp");
        reveal_strlit("ppc440");
        reveal_strlit("ppc440fp2");
        reveal_strlit("cell");
        assert(lower("sse_generic"@) =~= "sse_generic"@);
        assert(lower("viac3"@) =~= "viac3"@);
        assert(lower("nano"@) =~= "nano"@);
        assert(lower("power4"@) =~= "power4"@);
        assert(lower("power5"@) =~= "power5"@);
        assert(lower("power6"@) =~= "power6"@);
        assert(lower("power7"@) =~= "power7"@);
        assert(lower("power8"@) =~= "power8"@);
        assert(lower("power9"@) =~= "power9"@);
        assert(lower("power10"@) =~= "power10"@);
        assert(lower("ppcg4"@) =~= "ppcg4"@);
        assert(lower("ppc970"@) =~= "ppc970"@);
        assert(lower("ppc970mp"@) =~= "ppc970mp"@);
        assert(lower("ppc440"@) =~= "ppc440"@);
        assert(lower("ppc440fp2"@) =~= "ppc440fp2"@);
        assert(lower("cell"@) =~= "cell"@);
    }
    if str_eq_ignore_ascii_case(s, "sse_generic") {
        return Some(Target::SSE_GENERIC);
    }
    if str_eq_ignore_ascii_case(s, "viac3") {
        return Some(Target::VIAC3);
    }
    if str_eq_ignore_ascii_case(s, "nano") {
        return Some(Target::NANO);
    }
    if str_eq_ignore_ascii_case(s, "power4") {
        return Some(Target::POWER4);
    }
    if str_eq_ignore_ascii_case(s, "power5") {
        return Some(Target::POWER5);
    }
    if str_eq_ignore_ascii_case(s, "power6") {
        return Some(Target::POWER6);
    }
    if str_eq_ignore_ascii_case(s, "power7") {
        return Some(Target::POWER7);
    }
    if str_eq_ignore_ascii_case(s, "power8") {
        return Some(Target::POWER8);
    }
    if str_eq_ignore_ascii_case(s, "power9") {
        return Some(Target::POWER9);
    }
    if str_eq_ignore_ascii_case(s, "power10") {
        return Some(Target::POWER10);
    }
    if str_eq_ignore_ascii_case(s, "ppcg4") {
        return Some(Target::PPCG4);
    }
    if str_eq_ignore_ascii_case(s, "ppc970") {
        return Some(Target::PPC970);
    }
    if str_eq_ignore_ascii_case(s, "ppc970mp") {
        return Some(Target::PPC970MP);
    }
    if str_eq_ignore_ascii_case(s, "ppc440") {
        return Some(Target::PPC440);
    }
    if str_eq_ignore_ascii_case(s, "ppc440fp2") {
        return Some(Target::PPC440FP2);
    }
    if str_eq_ignore_ascii_case(s, "cell") {
        return Some(Target::CELL);
    }
    None
}

fn parse_mips_ia64_sparc_exec(s: &str) -> (r: Option<Target>)
    ensures
        r == parse_mips_ia64_sparc(lower(s@)),
{
    proof {
        reveal_strlit("p5600");
        reveal_strlit("mips1004k");
        reveal_strlit("mips24k");
        reveal_strlit("mips64_generic");
        reveal_strlit("sicortex");
        reveal_strlit("loongson3a");
        reveal_strlit("loongson3b");
        reveal_strlit("i6400");
        reveal_strlit("p6600");
        reveal_strlit("i6500");
        reveal_strlit("itanium2");
        reveal_strlit("sparc");
        reveal_strlit("sparcv7");
        assert(lower("p5600"@) =~= "p5600"@);
        assert(lower("mips1004k"@) =~= "mips1004k"@);
        assert(lower("mips24k"@) =~= "mips24k"@);
        assert(lower("mips64_generic"@) =~= "mips64_generic"@);
        assert(lower("sicortex"@) =~= "sicortex"@);
        assert(lower("loongson3a"@) =~= "loongson3a"@);
        assert(lower("loongson3b"@) =~= "loongson3b"@);
        assert(lower("i6400"@) =~= "i6400"@);
        assert(lower("p6600"@) =~= "p6600"@);
        assert(lower("i6500"@) =~= "i6500"@);
        assert(lower("itanium2"@) =~= "itanium2"@);
        assert(lower("sparc"@) =~= "sparc"@);
        assert(lower("sparcv7"@) =~= "sparcv7"@);
    }
    if str_eq_ignore_ascii_case(s, "p5600") {
        return Some(Target::P5600);
    }
    if str_eq_ignore_ascii_case(s, "mips1004k") {
        return Some(Target::MIPS1004K);
    }
    if str_eq_ignore_ascii_case(s, "mips24k") {
        return Some(Target::MIPS24K);
    }
    if str_eq_ignore_ascii_case(s, "mips64_generic") {
        return Some(Target::MIPS64_GENERIC);
    }
    if str_eq_ignore_ascii_case(s, "sicortex") {
        return Some(Target::SICORTEX);
    }
    if str_eq_ignore_ascii_case(s, "loongson3a") {
        return Some(Target::LOONGSON3A);
    }
    if str_eq_ignore_ascii_case(s, "loongson3b") {
        return Some(Target::LOONGSON3B);
    }
    if str_eq_ignore_ascii_case(s, "i6400") {
        return Some(Target::I6400);
    }
    if str_eq_ignore_ascii_case(s, "p6600") {
        return Some(Target::P6600);
    }
    if str_eq_ignore_ascii_case(s, "i6500") {
        return Some(Target::I6500);
    }
    if str_eq_ignore_ascii_case(s, "itanium2") {
        return Some(Target::ITANIUM2);
    }
    if str_eq_ignore_ascii_case(s, "sparc") {
        return Some(Target::SPARC);
    }
    if str_eq_ignore_ascii_case(s, "sparcv7") {
        return Some(Target::SPARCV7);
    }
    None
}

fn parse_arm_exec(s: &str) -> (r: Option<Target>)
    ensures
        r == parse_arm(lower(s@)),
{
    proof {
        reveal_strlit("cortexa15");
        reveal_strlit("cortexa9");
        reveal_strlit("armv7");
        reveal_strlit("armv6");
        reveal_strlit("armv5");
        assert(lower("cortexa15"@) =~= "cortexa15"@);
        assert(lower("cortexa9"@) =~= "cortexa9"@);
        assert(lower("armv7"@) =~= "armv7"@);
        assert(lower("armv6"@) =~= "armv6"@);
        assert(lower("armv5"@) =~= "armv5"@);
    }
    if str_eq_ignore_ascii_case(s, "cortexa15") {
        return Some(Target::CORTEXA15);
    }
    if str_eq_ignore_ascii_case(s, "cortexa9") {
        return Some(Target::CORTEXA9);
    }
    if str_eq_ignore_ascii_case(s, "armv7") {
        return Some(Target::ARMV7);
    }
    if str_eq_ignore_ascii_case(s, "armv6") {
        return Some(Target::ARMV6);
    }
    if str_eq_ignore_ascii_case(s, "armv5") {
        return Some(Target::ARMV5);
    }
    None
}

fn parse_arm64_exec(s: &str) -> (r: Option<Target>)
    ensures
        r == parse_arm64(lower(s@)),
{
    proof {
        reveal_strlit("armv8");
        reveal_strlit("cortexa53");
        reveal_strlit("cortexa57");
        reveal_strlit("cortexa72");
        reveal_strlit("cortexa73");
        reveal_strlit("cortexa510");
        reveal_strlit("cortexa710");
        reveal_strlit("cortexx1");
        reveal_strlit("cortexx2");
        reveal_strlit("neoversen1");
        reveal_strlit("neoversev1");
        reveal_strlit("neoversen2");
        reveal_strlit("cortexa55");
        reveal_strlit("emag8180");
        reveal_strlit("falkor");
        reveal_strlit("thunderx");
        reveal_strlit("thunderx2t99");
        reveal_strlit("tsv110");
        reveal_strlit("thunderx3t110");
        reveal_strlit("vortex");
        reveal_strlit("a64fx");
        reveal_strlit("armv8sve");
        reveal_strlit("ft2000");
        assert(lower("armv8"@) =~= "armv8"@);
        assert(lower("cortexa53"@) =~= "cortexa53"@);
        assert(lower("cortexa57"@) =~= "cortexa57"@);
        assert(lower("cortexa72"@) =~= "cortexa72"@);
        assert(lower("cortexa73"@) =~= "cortexa73"@);
        assert(lower("cortexa510"@) =~= "cortexa510"@);
        assert(lower("cortexa710"@) =~= "cortexa710"@);
        assert(lower("cortexx1"@) =~= "cortexx1"@);
        assert(lower("cortexx2"@) =~= "cortexx2"@);
        assert(lower("neoversen1"@) =~= "neoversen1"@);
        assert(lower("neoversev1"@) =~= "neoversev1"@);
        assert(lower("neoversen2"@) =~= "neoversen2"@);
        assert(lower("cortexa55"@) =~= "cortexa55"@);
        assert(lower("emag8180"@) =~= "emag8180"@);
        assert(lower("falkor"@) =~= "falkor"@);
        assert(lower("thunderx"@) =~= "thunderx"@);
        assert(lower("thunderx2t99"@) =~= "thunderx2t99"@);
        assert(lower("tsv110"@) =~= "tsv110"@);
        assert(lower("thunderx3t110"@) =~= "thunderx3t110"@);
        assert(lower("vortex"@) =~= "vortex"@);
        assert(lower("a64fx"@) =~= "a64fx"@);
        assert(lower("armv8sve"@) =~= "armv8sve"@);
        assert(lower("ft2000"@) =~= "ft2000"@);
    }
    if str_eq_ignore_ascii_case(s, "armv8") {
        return Some(Target::ARMV8);
    }
    if str_eq_ignore_ascii_case(s, "cortexa53") {
        return Some(Target::CORTEXA53);
    }
    if str_eq_ignore_ascii_case(s, "cortexa57") {
        return Some(Target::CORTEXA57);
    }
    if str_eq_ignore_ascii_case(s, "cortexa72") {
        return Some(Target::CORTEXA72);
    }
    if str_eq_ignore_ascii_case(s, "cortexa73") {
        return Some(Target::CORTEXA73);
    }
    if str_eq_ignore_ascii_case(s, "cortexa510") {
        return Some(Target::CORTEXA510);
    }
    if str_eq_ignore_ascii_case(s, "cortexa710") {
        return Some(Target::CORTEXA710);
    }
    if str_eq_ignore_ascii_case(s, "cortexx1") {
        return Some(Target::CORTEXX1);
    }
    if str_eq_ignore_ascii_case(s, "cortexx2") {
        return Some(Target::CORTEXX2);
    }
    if str_eq_ignore_ascii_case(s, "neoversen1") {
        return Some(Target::NEOVERSEN1);
    }
    if str_eq_ignore_ascii_case(s, "neoversev1") {
        return Some(Target::NEOVERSEV1);
    }
    if str_eq_ignore_ascii_case(s, "neoversen2") {
        return Some(Target::NEOVERSEN2);
    }
    if str_eq_ignore_ascii_case(s, "cortexa55") {
        return Some(Target::CORTEXA55);
    }
    if str_eq_ignore_ascii_case(s, "emag8180") {
        return Some(Target::EMAG8180);
    }
    if str_eq_ignore_ascii_case(s, "falkor") {
        return Some(Target::FALKOR);
    }
    if str_eq_ignore_ascii_case(s, "thunderx") {
        return Some(Target::THUNDERX);
    }
    if str_eq_ignore_ascii_case(s, "thunderx2t99") {
        return Some(Target::THUNDERX2T99);
    }
    if str_eq_ignore_ascii_case(s, "tsv110") {
        return Some(Target::TSV110);
    }
    if str_eq_ignore_ascii_case(s, "thunderx3t110") {
        return Some(Target::THUNDERX3T110);
    }
    if str_eq_ignore_ascii_case(s, "vortex") {
        return Some(Target::VORTEX);
    }
    if str_eq_ignore_ascii_case(s, "a64fx") {
        return Some(Target::A64FX);
    }
    if str_eq_ignore_ascii_case(s, "armv8sve") {
        return Some(Target::ARMV8SVE);
    }
    if str_eq_ignore_ascii_case(s, "ft2000") {
        return Some(Target::FT2000);
    }
    None
}

fn parse_other_arch_exec(s: &str) -> (r: Option<Target>)
    ensures
        r == parse_other_arch(lower(s@)),
{
    proof {
        reveal_strlit("zarch_generic");
        reveal_strlit("z13");
        reveal_strlit("z14");
        reveal_strlit("riscv64_generic");
        reveal_strlit("c910v");
        reveal_strlit("loongsongeneric");
        reveal_strlit("loongson3r5");
        reveal_strlit("loongson2k1000");
        reveal_strlit("e2k");
        reveal_strlit("ev4");
        reveal_strlit("ev5");
        reveal_strlit("ev6");
        assert(lower("zarch_generic"@) =~= "zarch_generic"@);
        assert(lower("z13"@) =~= "z13"@);
        assert(lower("z14"@) =~= "z14"@);
        assert(lower("riscv64_generic"@) =~= "riscv64_generic"@);
        assert(lower("c910v"@) =~= "c910v"@);
        assert(lower("loongsongeneric"@) =~= "loongsongeneric"@);
        assert(lower("loongson3r5"@) =~= "loongson3r5"@);
        assert(lower("loongson2k1000"@) =~= "loongson2k1000"@);
        assert(lower("e2k"@) =~= "e2k"@);
        assert(lower("ev4"@) =~= "ev4"@);
        assert(lower("ev5"@) =~= "ev5"@);
        assert(lower("ev6"@) =~= "ev6"@);
    }
    if str_eq_ignore_ascii_case(s, "zarch_generic") {
        return Some(Target::ZARCH_GENERIC);
    }
    if str_eq_ignore_ascii_case(s, "z13") {
        return Some(Target::Z13);
    }
    if str_eq_ignore_ascii_case(s, "z14") {
        return Some(Target::Z14);
    }
    if str_eq_ignore_ascii_case(s, "riscv64_generic") {
        return Some(Target::RISCV64_GENERIC);
    }
    if str_eq_ignore_ascii_case(s, "c910v") {
        return Some(Target::C910V);
    }
    if str_eq_ignore_ascii_case(s, "loongsongeneric") {
        return Some(Target::LOONGSONGENERIC);
    }
    if str_eq_ignore_ascii_case(s, "loongson3r5") {
        return Some(Target::LOONGSON3R5);
    }
    if str_eq_ignore_ascii_case(s, "loongson2k1000") {
        return Some(Target::LOONGSON2K1000);
    }
    if str_eq_ignore_ascii_case(s, "e2k") {
        return Some(Target::E2K);
    }
    if str_eq_ignore_ascii_case(s, "ev4") {
        return Some(Target::EV4);
    }
    if str_eq_ignore_ascii_case(s, "ev5") {
        return Some(Target::EV5);
    }
    if str_eq_ignore_ascii_case(s, "ev6") {
        return Some(Target::EV6);
    }
    None
}

proof fn lemma_x86_intel_token_contents()
    ensures
        "p2"@ == seq!['p', '2'],
        "katamai"@ == seq!['k', 'a', 't', 'a', 'm', 'a', 'i'],
        "coppermine"@ == seq!['c', 'o', 'p', 'p', 'e', 'r', 'm', 'i', 'n', 'e'],
        "northwood"@ == seq!['n', 'o', 'r', 't', 'h', 'w', 'o', 'o', 'd'],
        "prescott"@ == seq!['p', 'r', 'e', 's', 'c', 'o', 't', 't'],
        "banias"@ == seq!['b', 'a', 'n', 'i', 'a', 's'],
        "yonah"@ == seq!['y', 'o', 'n', 'a', 'h'],
        "core2"@ == seq!['c', 'o', 'r', 'e', '2'],
        "penryn"@ == seq!['p', 'e', 'n', 'r', 'y', 'n'],
        "dunnington"@ == seq!['d', 'u', 'n', 'n', 'i', 'n', 'g', 't', 'o', 'n'],
        "nehalem"@ == seq!['n', 'e', 'h', 'a', 'l', 'e', 'm'],
        "sandybridge"@ == seq!['s', 'a', 'n', 'd', 'y', 'b', 'r', 'i', 'd', 'g', 'e'],
        "haswell"@ == seq!['h', 'a', 's', 'w', 'e', 'l', 'l'],
        "skylakex"@ == seq!['s', 'k', 'y', 'l', 'a', 'k', 'e', 'x'],
        "atom"@ == seq!['a', 't', 'o', 'm'],
        "cooperlake"@ == seq!['c', 'o', 'o', 'p', 'e', 'r', 'l', 'a', 'k', 'e'],
        "sapphirerapids"@ == seq!['s', 'a', 'p', 'p', 'h', 'i', 'r', 'e', 'r', 'a', 'p', 'i', 'd', 's'],
{
    reveal_strlit("p2");
    reveal_strlit("katamai");
    reveal_strlit("coppermine");
    reveal_strlit("northwood");
    reveal_strlit("prescott");
    reveal_strlit("banias");
    reveal_strlit("yonah");
    reveal_strlit("core2");
    reveal_strlit("penryn");
    reveal_strlit("dunnington");
    reveal_strlit("nehalem");
    reveal_strlit("sandybridge");
    reveal_strlit("haswell");
    reveal_strlit("skylakex");
    reveal_strlit("atom");
    reveal_strlit("cooperlake");
    reveal_strlit("sapphirerapids");
    assert("p2"@ =~= seq!['p', '2']);
    assert("katamai"@ =~= seq!['k', 'a', 't', 'a', 'm', 'a', 'i']);
    assert("coppermine"@ =~= seq!['c', 'o', 'p', 'p', 'e', 'r', 'm', 'i', 'n', 'e']);
    assert("northwood"@ =~= seq!['n', 'o', 'r', 't', 'h', 'w', 'o', 'o', 'd']);
    assert("prescott"@ =~= seq!['p', 'r', 'e', 's', 'c', 'o', 't', 't']);
    assert("banias"@ =~= seq!['b', 'a', 'n', 'i', 'a', 's']);
    assert("yonah"@ =~= seq!['y', 'o', 'n', 'a', 'h']);
    assert("core2"@ =~= seq!['c', 'o', 'r', 'e', '2']);
    assert("penryn"@ =~= seq!['p', 'e', 'n', 'r', 'y', 'n']);
    assert("dunnington"@ =~= seq!['d', 'u', 'n', 'n', 'i', 'n', 'g', 't', 'o', 'n']);
    assert("nehalem"@ =~= seq!['n', 'e', 'h', 'a', 'l', 'e', 'm']);
    assert("sandybridge"@ =~= seq!['s', 'a', 'n', 'd', 'y', 'b', 'r', 'i', 'd', 'g', 'e']);
    assert("haswell"@ =~= seq!['h', 'a', 's', 'w', 'e', 'l', 'l']);
    assert("skylakex"@ =~= seq!['s', 'k', 'y', 'l', 'a', 'k', 'e', 'x']);
    assert("atom"@ =~= seq!['a', 't', 'o', 'm']);
    assert("cooperlake"@ =~= seq!['c', 'o', 'o', 'p', 'e', 'r', 'l', 'a', 'k', 'e']);
    assert("sapphirerapids"@ =~= seq!['s', 'a', 'p', 'p', 'h', 'i', 'r', 'e', 'r', 'a', 'p', 'i', 'd', 's']);
}

proof fn lemma_x86_amd_token_contents()
    ensures
        "athlon"@ == seq!['a', 't', 'h', 'l', 'o', 'n'],
        "opteron"@ == seq!['o', 'p', 't', 'e', 'r', 'o', 'n'],
        "opteron_sse3"@ == seq!['o', 'p', 't', 'e', 'r', 'o', 'n', '_', 's', 's', 'e', '3'],
        "barcelona"@ == seq!['b', 'a', 'r', 'c', 'e', 'l', 'o', 'n', 'a'],
        "shanghai"@ == seq!['s', 'h', 'a', 'n', 'g', 'h', 'a', 'i'],
        "istanbul"@ == seq!['i', 's', 't', 'a', 'n', 'b', 'u', 'l'],
        "bobcat"@ == seq!['b', 'o', 'b', 'c', 'a', 't'],
        "bulldozer"@ == seq!['b', 'u', 'l', 'l', 'd', 'o', 'z', 'e', 'r'],
        "piledriver"@ == seq!['p', 'i', 'l', 'e', 'd', 'r', 'i', 'v', 'e', 'r'],
        "steamroller"@ == seq!['s', 't', 'e', 'a', 'm', 'r', 'o', 'l', 'l', 'e', 'r'],
        "excavator"@ == seq!['e', 'x', 'c', 'a', 'v', 'a', 't', 'o', 'r'],
        "zen"@ == seq!['z', 'e', 'n'],
{
    reveal_strlit("athlon");
    reveal_strlit("opteron");
    reveal_strlit("opteron_sse3");
    reveal_strlit("barcelona");
    reveal_strlit("shanghai");
    reveal_strlit("istanbul");
    reveal_strlit("bobcat");
    reveal_strlit("bulldozer");
    reveal_strlit("piledriver");
    reveal_strlit("steamroller");
    reveal_strlit("excavator");
    reveal_strlit("zen");
    assert("athlon"@ =~= seq!['a', 't', 'h', 'l', 'o', 'n']);
    assert("opteron"@ =~= seq!['o', 'p', 't', 'e', 'r', 'o', 'n']);
    assert("opteron_sse3"@ =~= seq!['o', 'p', 't', 'e', 'r', 'o', 'n', '_', 's', 's', 'e', '3']);
    assert("barcelona"@ =~= seq!['b', 'a', 'r', 'c', 'e', 'l', 'o', 'n', 'a']);
    assert("shanghai"@ =~= seq!['s', 'h', 'a', 'n', 'g', 'h', 'a', 'i']);
    assert("istanbul"@ =~= seq!['i', 's', 't', 'a', 'n', 'b', 'u', 'l']);
    assert("bobcat"@ =~= seq!['b', 'o', 'b', 'c', 'a', 't']);
    assert("bulldozer"@ =~= seq!['b', 'u', 'l', 'l', 'd', 'o', 'z', 'e', 'r']);
    assert("piledriver"@ =~= seq!['p', 'i', 'l', 'e', 'd', 'r', 'i', 'v', 'e', 'r']);
    assert("steamroller"@ =~= seq!['s', 't', 'e', 'a', 'm', 'r', 'o', 'l', 'l', 'e', 'r']);
    assert("excavator"@ =~= seq!['e', 'x', 'c', 'a', 'v', 'a', 't', 'o', 'r']);
    assert("zen"@ =~= seq!['z', 'e', 'n']);
}

proof fn lemma_x86_generic_power_token_contents()
    ensures
        "sse_generic"@ == seq!['s', 's', 'e', '_', 'g', 'e', 'n', 'e', 'r', 'i', 'c'],
        "viac3"@ == seq!['v', 'i', 'a', 'c', '3'],
        "nano"@ == seq!['n', 'a', 'n', 'o'],
        "power4"@ == seq!['p', 'o', 'w', 'e', 'r', '4'],
        "power5"@ == seq!['p', 'o', 'w', 'e', 'r', '5'],
        "power6"@ == seq!['p', 'o', 'w', 'e', 'r', '6'],
        "power7"@ == seq!['p', 'o', 'w', 'e', 'r', '7'],
        "power8"@ == seq!['p', 'o', 'w', 'e', 'r', '8'],
        "power9"@ == seq!['p', 'o', 'w', 'e', 'r', '9'],
        "power10"@ == seq!['p', 'o', 'w', 'e', 'r', '1', '0'],
        "ppcg4"@ == seq!['p', 'p', 'c', 'g', '4'],
        "ppc970"@ == seq!['p', 'p', 'c', '9', '7', '0'],
        "ppc970mp"@ == seq!['p', 'p', 'c', '9', '7', '0', 'm', 'p'],
        "ppc440"@ == seq!['p', 'p', 'c', '4', '4', '0'],
        "ppc440fp2"@ == seq!['p', 'p', 'c', '4', '4', '0', 'f', 'p', '2'],
        "cell"@ == seq!['c', 'e', 'l', 'l'],
{
    reveal_strlit("sse_generic");
    reveal_strlit("viac3");
    reveal_strlit("nano");
    reveal_strlit("power4");
    reveal_strlit("power5");
    reveal_strlit("power6");
    reveal_strlit("power7");
    reveal_strlit("power8");
    reveal_strlit("power9");
    reveal_strlit("power10");
    reveal_strlit("ppcg4");
    reveal_strlit("ppc970");
    reveal_strlit("ppc970mp");
    reveal_strlit("ppc440");
    reveal_strlit("ppc440fp2");
    reveal_strlit("cell");
    assert("sse_generic"@ =~= seq!['s', 's', 'e', '_', 'g', 'e', 'n', 'e', 'r', 'i', 'c']);
    assert("viac3"@ =~= seq!['v', 'i', 'a', 'c', '3']);
    assert("nano"@ =~= seq!['n', 'a', 'n', 'o']);
    assert("power4"@ =~= seq!['p', 'o', 'w', 'e', 'r', '4']);
    assert("power5"@ =~= seq!['p', 'o', 'w', 'e', 'r', '5']);
    assert("power6"@ =~= seq!['p', 'o', 'w', 'e', 'r', '6']);
    assert("power7"@ =~= seq!['p', 'o', 'w', 'e', 'r', '7']);
    assert("power8"@ =~= seq!['p', 'o', 'w', 'e', 'r', '8']);
    assert("power9"@ =~= seq!['p', 'o', 'w', 'e', 'r', '9']);
    assert("power10"@ =~= seq!['p', 'o', 'w', 'e', 'r', '1', '0']);
    assert("ppcg4"@ =~= seq!['p', 'p', 'c', 'g', '4']);
    assert("ppc970"@ =~= seq!['p', 'p', 'c', '9', '7', '0']);
    assert("ppc970mp"@ =~= seq!['p', 'p', 'c', '9', '7', '0', 'm', 'p']);
    assert("ppc440"@ =~= seq!['p', 'p', 'c', '4', '4', '0']);
    assert("ppc440fp2"@ =~= seq!['p', 'p', 'c', '4', '4', '0', 'f', 'p', '2']);
    assert("cell"@ =~= seq!['c', 'e', 'l', 'l']);
}

proof fn lemma_mips_ia64_sparc_token_contents()
    ensures
        "p5600"@ == seq!['p', '5', '6', '0', '0'],
        "mips1004k"@ == seq!['m', 'i', 'p', 's', '1', '0', '0', '4', 'k'],
        "mips24k"@ == seq!['m', 'i', 'p', 's', '2', '4', 'k'],
        "mips64_generic"@ == seq!['m', 'i', 'p', 's', '6', '4', '_', 'g', 'e', 'n', 'e', 'r', 'i', 'c'],
        "sicortex"@ == seq!['s', 'i', 'c', 'o', 'r', 't', 'e', 'x'],
        "loongson3a"@ == seq!['l', 'o', 'o', 'n', 'g', 's', 'o', 'n', '3', 'a'],
        "loongson3b"@ == seq!['l', 'o', 'o', 'n', 'g', 's', 'o', 'n', '3', 'b'],
        "i6400"@ == seq!['i', '6', '4', '0', '0'],
        "p6600"@ == seq!['p', '6', '6', '0', '0'],
        "i6500"@ == seq!['i', '6', '5', '0', '0'],
        "itanium2"@ == seq!['i', 't', 'a', 'n', 'i', 'u', 'm', '2'],
        "sparc"@ == seq!['s', 'p', 'a', 'r', 'c'],
        "sparcv7"@ == seq!['s', 'p', 'a', 'r', 'c', 'v', '7'],
{
    reveal_strlit("p5600");
    reveal_strlit("mips1004k");
    reveal_strlit("mips24k");
    reveal_strlit("mips64_generic");
    reveal_strlit("sicortex");
    reveal_strlit("loongson3a");
    reveal_strlit("loongson3b");
    reveal_strlit("i6400");
    reveal_strlit("p6600");
    reveal_strlit("i6500");
    reveal_strlit("itanium2");
    reveal_strlit("sparc");
    reveal_strlit("sparcv7");
    assert("p5600"@ =~= seq!['p', '5', '6', '0', '0']);
    assert("mips1004k"@ =~= seq!['m', 'i', 'p', 's', '1', '0', '0', '4', 'k']);
    assert("mips24k"@ =~= seq!['m', 'i', 'p', 's', '2', '4', 'k']);
    assert("mips64_generic"@ =~= seq!['m', 'i', 'p', 's', '6', '4', '_', 'g', 'e', 'n', 'e', 'r', 'i', 'c']);
    assert("sicortex"@ =~= seq!['s', 'i', 'c', 'o', 'r', 't', 'e', 'x']);
    assert("loongson3a"@ =~= seq!['l', 'o', 'o', 'n', 'g', 's', 'o', 'n', '3', 'a']);
    assert("loongson3b"@ =~= seq!['l', 'o', 'o', 'n', 'g', 's', 'o', 'n', '3', 'b']);
    assert("i6400"@ =~= seq!['i', '6', '4', '0', '0']);
    assert("p6600"@ =~= seq!['p', '6', '6', '0', '0']);
    assert("i6500"@ =~= seq!['i', '6', '5', '0', '0']);
    assert("itanium2"@ =~= seq!['i', 't', 'a', 'n', 'i', 'u', 'm', '2']);
    assert("sparc"@ =~= seq!['s', 'p', 'a', 'r', 'c']);
    assert("sparcv7"@ =~= seq!['s', 'p', 'a', 'r', 'c', 'v', '7']);
}

proof fn lemma_arm_token_contents()
    ensures
        "cortexa15"@ == seq!['c', 'o', 'r', 't', 'e', 'x', 'a', '1', '5'],
        "cortexa9"@ == seq!['c', 'o', 'r', 't', 'e', 'x', 'a', '9'],
        "armv7"@ == seq!['a', 'r', 'm', 'v', '7'],
        "armv6"@ == seq!['a', 'r', 'm', 'v', '6'],
        "armv5"@ == seq!['a', 'r', 'm', 'v', '5'],
{
    reveal_strlit("cortexa15");
    reveal_strlit("cortexa9");
    reveal_strlit("armv7");
    reveal_strlit("armv6");
    reveal_strlit("armv5");
    assert("cortexa15"@ =~= seq!['c', 'o', 'r', 't', 'e', 'x', 'a', '1', '5']);
    assert("cortexa9"@ =~= seq!['c', 'o', 'r', 't', 'e', 'x', 'a', '9']);
    assert("armv7"@ =~= seq!['a', 'r', 'm', 'v', '7']);
    assert("armv6"@ =~= seq!['a', 'r', 'm', 'v', '6']);
    assert("armv5"@ =~= seq!['a', 'r', 'm', 'v', '5']);
}

proof fn lemma_arm64_token_contents()
    ensures
        "armv8"@ == seq!['a', 'r', 'm', 'v', '8'],
        "cortexa53"@ == seq!['c', 'o', 'r', 't', 'e', 'x', 'a', '5', '3'],
        "cortexa57"@ == seq!['c', 'o', 'r', 't', 'e', 'x', 'a', '5', '7'],
        "cortexa72"@ == seq!['c', 'o', 'r', 't', 'e', 'x', 'a', '7', '2'],
        "cortexa73"@ == seq!['c', 'o', 'r', 't', 'e', 'x', 'a', '7', '3'],
        "cortexa510"@ == seq!['c', 'o', 'r', 't', 'e', 'x', 'a', '5', '1', '0'],
        "cortexa710"@ == seq!['c', 'o', 'r', 't', 'e', 'x', 'a', '7', '1', '0'],
        "cortexx1"@ == seq!['c', 'o', 'r', 't', 'e', 'x', 'x', '1'],
        "cortexx2"@ == seq!['c', 'o', 'r', 't', 'e', 'x', 'x', '2'],
        "neoversen1"@ == seq!['n', 'e', 'o', 'v', 'e', 'r', 's', 'e', 'n', '1'],
        "neoversev1"@ == seq!['n', 'e', 'o', 'v', 'e', 'r', 's', 'e', 'v', '1'],
        "neoversen2"@ == seq!['n', 'e', 'o', 'v', 'e', 'r', 's', 'e', 'n', '2'],
        "cortexa55"@ == seq!['c', 'o', 'r', 't', 'e', 'x', 'a', '5', '5'],
        "emag8180"@ == seq!['e', 'm', 'a', 'g', '8', '1', '8', '0'],
        "falkor"@ == seq!['f', 'a', 'l', 'k', 'o', 'r'],
        "thunderx"@ == seq!['t', 'h', 'u', 'n', 'd', 'e', 'r', 'x'],
        "thunderx2t99"@ == seq!['t', 'h', 'u', 'n', 'd', 'e', 'r', 'x', '2', 't', '9', '9'],
        "tsv110"@ == seq!['t', 's', 'v', '1', '1', '0'],
        "thunderx3t110"@ == seq!['t', 'h', 'u', 'n', 'd', 'e', 'r', 'x', '3', 't', '1', '1', '0'],
        "vortex"@ == seq!['v', 'o', 'r', 't', 'e', 'x'],
        "a64fx"@ == seq!['a', '6', '4', 'f', 'x'],
        "armv8sve"@ == seq!['a', 'r', 'm', 'v', '8', 's', 'v', 'e'],
        "ft2000"@ == seq!['f', 't', '2', '0', '0', '0'],
{
    reveal_strlit("armv8");
    reveal_strlit("cortexa53");
    reveal_strlit("cortexa57");
    reveal_strlit("cortexa72");
    reveal_strlit("cortexa73");
    reveal_strlit("cortexa510");
    reveal_strlit("cortexa710");
    reveal_strlit("cortexx1");
    reveal_strlit("cortexx2");
    reveal_strlit("neoversen1");
    reveal_strlit("neoversev1");
    reveal_strlit("neoversen2");
    reveal_strlit("cortexa55");
    reveal_strlit("emag8180");
    reveal_strlit("falkor");
    reveal_strlit("thunderx");
    reveal_strlit("thunderx2t99");
    reveal_strlit("tsv110");
    reveal_strlit("thunderx3t110");
    reveal_strlit("vortex");
    reveal_strlit("a64fx");
    reveal_strlit("armv8sve");
    reveal_strlit("ft2000");
    assert("armv8"@ =~= seq!['a', 'r', 'm', 'v', '8']);
    assert("cortexa53"@ =~= seq!['c', 'o', 'r', 't', 'e', 'x', 'a', '5', '3']);
    assert("cortexa57"@ =~= seq!['c', 'o', 'r', 't', 'e', 'x', 'a', '5', '7']);
    assert("cortexa72"@ =~= seq!['c', 'o', 'r', 't', 'e', 'x', 'a', '7', '2']);
    assert("cortexa73"@ =~= seq!['c', 'o', 'r', 't', 'e', 'x', 'a', '7', '3']);
    assert("cortexa510"@ =~= seq!['c', 'o', 'r', 't', 'e', 'x', 'a', '5', '1', '0']);
    assert("cortexa710"@ =~= seq!['c', 'o', 'r', 't', 'e', 'x', 'a', '7', '1', '0']);
    assert("cortexx1"@ =~= seq!['c', 'o', 'r', 't', 'e', 'x', 'x', '1']);
    assert("cortexx2"@ =~= seq!['c', 'o', 'r', 't', 'e', 'x', 'x', '2']);
    assert("neoversen1"@ =~= seq!['n', 'e', 'o', 'v', 'e', 'r', 's', 'e', 'n', '1']);
    assert("neoversev1"@ =~= seq!['n', 'e', 'o', 'v', 'e', 'r', 's', 'e', 'v', '1']);
    assert("neoversen2"@ =~= seq!['n', 'e', 'o', 'v', 'e', 'r', 's', 'e', 'n', '2']);
    assert("cortexa55"@ =~= seq!['c', 'o', 'r', 't', 'e', 'x', 'a', '5', '5']);
    assert("emag8180"@ =~= seq!['e', 'm', 'a', 'g', '8', '1', '8', '0']);
    assert("falkor"@ =~= seq!['f', 'a', 'l', 'k', 'o', 'r']);
    assert("thunderx"@ =~= seq!['t', 'h', 'u', 'n', 'd', 'e', 'r', 'x']);
    assert("thunderx2t99"@ =~= seq!['t', 'h', 'u', 'n', 'd', 'e', 'r', 'x', '2', 't', '9', '9']);
    assert("tsv110"@ =~= seq!['t', 's', 'v', '1', '1', '0']);
    assert("thunderx3t110"@ =~= seq!['t', 'h', 'u', 'n', 'd', 'e', 'r', 'x', '3', 't', '1', '1', '0']);
    assert("vortex"@ =~= seq!['v', 'o', 'r', 't', 'e', 'x']);
    assert("a64fx"@ =~= seq!['a', '6', '4', 'f', 'x']);
    assert("armv8sve"@ =~= seq!['a', 'r', 'm', 'v', '8', 's', 'v', 'e']);
    assert("ft2000"@ =~= seq!['f', 't', '2', '0', '0', '0']);
}

proof fn lemma_other_arch_token_contents()
    ensures
        "zarch_generic"@ == seq!['z', 'a', 'r', 'c', 'h', '_', 'g', 'e', 'n', 'e', 'r', 'i', 'c'],
        "z13"@ == seq!['z', '1', '3'],
        "z14"@ == seq!['z', '1', '4'],
        "riscv64_generic"@ == seq!['r', 'i', 's', 'c', 'v', '6', '4', '_', 'g', 'e', 'n', 'e', 'r', 'i', 'c'],
        "c910v"@ == seq!['c', '9', '1', '0', 'v'],
        "loongsongeneric"@ == seq!['l', 'o', 'o', 'n', 'g', 's', 'o', 'n', 'g', 'e', 'n', 'e', 'r', 'i', 'c'],
        "loongson3r5"@ == seq!['l', 'o', 'o', 'n', 'g', 's', 'o', 'n', '3', 'r', '5'],
        "loongson2k1000"@ == seq!['l', 'o', 'o', 'n', 'g', 's', 'o', 'n', '2', 'k', '1', '0', '0', '0'],
        "e2k"@ == seq!['e', '2', 'k'],
        "ev4"@ == seq!['e', 'v', '4'],
        "ev5"@ == seq!['e', 'v', '5'],
        "ev6"@ == seq!['e', 'v', '6'],
{
    reveal_strlit("zarch_generic");
    reveal_strlit("z13");
    reveal_strlit("z14");
    reveal_strlit("riscv64_generic");
    reveal_strlit("c910v");
    reveal_strlit("loongsongeneric");
    reveal_strlit("loongson3r5");
    reveal_strlit("loongson2k1000");
    reveal_strlit("e2k");
    reveal_strlit("ev4");
    reveal_strlit("ev5");
    reveal_strlit("ev6");
    assert("zarch_generic"@ =~= seq!['z', 'a', 'r', 'c', 'h', '_', 'g', 'e', 'n', 'e', 'r', 'i', 'c']);
    assert("z13"@ =~= seq!['z', '1', '3']);
    assert("z14"@ =~= seq!['z', '1', '4']);
    assert("riscv64_generic"@ =~= seq!['r', 'i', 's', 'c', 'v', '6', '4', '_', 'g', 'e', 'n', 'e', 'r', 'i', 'c']);
    assert("c910v"@ =~= seq!['c', '9', '1', '0', 'v']);
    assert("loongsongeneric"@ =~= seq!['l', 'o', 'o', 'n', 'g', 's', 'o', 'n', 'g', 'e', 'n', 'e', 'r', 'i', 'c']);
    assert("loongson3r5"@ =~= seq!['l', 'o', 'o', 'n', 'g', 's', 'o', 'n', '3', 'r', '5']);
    assert("loongson2k1000"@ =~= seq!['l', 'o', 'o', 'n', 'g', 's', 'o', 'n', '2', 'k', '1', '0', '0', '0']);
    assert("e2k"@ =~= seq!['e', '2', 'k']);
    assert("ev4"@ =~= seq!['e', 'v', '4']);
    assert("ev5"@ =~= seq!['e', 'v', '5']);
    assert("ev6"@ =~= seq!['e', 'v', '6']);
}

#[verifier::spinoff_prover]
#[verifier::rlimit(60)]
proof fn lemma_round_trip_x86_intel(t: Target)
    requires
        in_x86_intel(t),
    ensures
        lower(token_of(t)) == token_of(t),
        parse_token(token_of(t)) == Some(t),
{
    lemma_x86_intel_token_contents();
    match t {
        Target::P2 => {
            reveal_strlit("p2");
            assert(lower("p2"@) =~= "p2"@);
            assert(parse_x86_intel("p2"@) == Some(Target::P2));
        }
        Target::KATMAI => {
            reveal_strlit("katamai");
            assert(lower("katamai"@) =~= "katamai"@);
            assert(parse_x86_intel("katamai"@) == Some(Target::KATMAI));
        }
        Target::COPPERMINE => {
            reveal_strlit("coppermine");
            assert(lower("coppermine"@) =~= "coppermine"@);
            assert(parse_x86_intel("coppermine"@) == Some(Target::COPPERMINE));
        }
        Target::NORTHWOOD => {
            reveal_strlit("northwood");
            assert(lower("northwood"@) =~= "northwood"@);
            assert(parse_x86_intel("northwood"@) == Some(Target::NORTHWOOD));
        }
        Target::PRESCOTT => {
            reveal_strlit("prescott");
            assert(lower("prescott"@) =~= "prescott"@);
            assert(parse_x86_intel("prescott"@) == Some(Target::PRESCOTT));
        }
        Target::BANIAS => {
            reveal_strlit("banias");
            assert(lower("banias"@) =~= "banias"@);
            assert(parse_x86_intel("banias"@) == Some(Target::BANIAS));
        }
        Target::YONAH => {
            reveal_strlit("yonah");
            assert(lower("yonah"@) =~= "yonah"@);
            assert(parse_x86_intel("yonah"@) == Some(Target::YONAH));
        }
        Target::CORE2 => {
            reveal_strlit("core2");
            assert(lower("core2"@) =~= "core2"@);
            assert(parse_x86_intel("core2"@) == Some(Target::CORE2));
        }
        Target::PENRYN => {
            reveal_strlit("penryn");
            assert(lower("penryn"@) =~= "penryn"@);
            assert(parse_x86_intel("penryn"@) == Some(Target::PENRYN));
        }
        Target::DUNNINGTON => {
            reveal_strlit("dunnington");
            assert(lower("dunnington"@) =~= "dunnington"@);
            assert(parse_x86_intel("dunnington"@) == Some(Target::DUNNINGTON));
        }
        Target::NEHALEM => {
            reveal_strlit("nehalem");
            assert(lower("nehalem"@) =~= "nehalem"@);
            assert(parse_x86_intel("nehalem"@) == Some(Target::NEHALEM));
        }
        Target::SANDYBRIDGE => {
            reveal_strlit("sandybridge");
            assert(lower("sandybridge"@) =~= "sandybridge"@);
            assert(parse_x86_intel("sandybridge"@) == Some(Target::SANDYBRIDGE));
        }
        Target::HASWELL => {
            reveal_strlit("haswell");
            assert(lower("haswell"@) =~= "haswell"@);
            assert(parse_x86_intel("haswell"@) == Some(Target::HASWELL));
        }
        Target::SKYLAKEX => {
            reveal_strlit("skylakex");
            assert(lower("skylakex"@) =~= "skylakex"@);
            assert(parse_x86_intel("skylakex"@) == Some(Target::SKYLAKEX));
        }
        Target::ATOM => {
            reveal_strlit("atom");
            assert(lower("atom"@) =~= "atom"@);
            assert(parse_x86_intel("atom"@) == Some(Target::ATOM));
        }
        Target::COOPERLAKE => {
            reveal_strlit("cooperlake");
            assert(lower("cooperlake"@) =~= "cooperlake"@);
            assert(parse_x86_intel("cooperlake"@) == Some(Target::COOPERLAKE));
        }
        Target::SAPPHIRERAPIDS => {
            reveal_strlit("sapphirerapids");
            assert(lower("sapphirerapids"@) =~= "sapphirerapids"@);
            assert(parse_x86_intel("sapphirerapids"@) == Some(Target::SAPPHIRERAPIDS));
        }
        _ => { }
    }
}

#[verifier::spinoff_prover]
#[verifier::rlimit(60)]
proof fn lemma_round_trip_x86_amd(t: Target)
    requires
        in_x86_amd(t),
    ensures
        lower(token_of(t)) == token_of(t),
        parse_token(token_of(t)) == Some(t),
{
    lemma_x86_intel_token_contents();
    lemma_x86_amd_token_contents();
    match t {
        Target::ATHLON => {
            reveal_strlit("athlon");
            assert(lower("athlon"@) =~= "athlon"@);
            assert(parse_x86_intel("athlon"@) is None);
            assert(parse_x86_amd("athlon"@) == Some(Target::ATHLON));
        }
        Target::OPTERON => {
            reveal_strlit("opteron");
            assert(lower("opteron"@) =~= "opteron"@);
            assert(parse_x86_intel("opteron"@) is None);
            assert(parse_x86_amd("opteron"@) == Some(Target::OPTERON));
        }
        Target::OPTERON_SSE3 => {
            reveal_strlit("opteron_sse3");
            assert(lower("opteron_sse3"@) =~= "opteron_sse3"@);
            assert(parse_x86_intel("opteron_sse3"@) is None);
            assert(parse_x86_amd("opteron_sse3"@) == Some(Target::OPTERON_SSE3));
        }
        Target::BARCELONA => {
            reveal_strlit("barcelona");
            assert(lower("barcelona"@) =~= "barcelona"@);
            assert(parse_x86_intel("barcelona"@) is None);
            assert(parse_x86_amd("barcelona"@) == Some(Target::BARCELONA));
        }
        Target::SHANGHAI => {
            reveal_strlit("shanghai");
            assert(lower("shanghai"@) =~= "shanghai"@);
            assert(parse_x86_intel("shanghai"@) is None);
            assert(parse_x86_amd("shanghai"@) == Some(Target::SHANGHAI));
        }
        Target::ISTANBUL => {
            reveal_strlit("istanbul");
            assert(lower("istanbul"@) =~= "istanbul"@);
            assert(parse_x86_intel("istanbul"@) is None);
            assert(parse_x86_amd("istanbul"@) == Some(Target::ISTANBUL));
        }
        Target::BOBCAT => {
            reveal_strlit("bobcat");
            assert(lower("bobcat"@) =~= "bobcat"@);
            assert(parse_x86_intel("bobcat"@) is None);
            assert(parse_x86_amd("bobcat"@) == Some(Target::BOBCAT));
        }
        Target::BULLDOZER => {
            reveal_strlit("bulldozer");
            assert(lower("bulldozer"@) =~= "bulldozer"@);
            assert(parse_x86_intel("bulldozer"@) is None);
            assert(parse_x86_amd("bulldozer"@) == Some(Target::BULLDOZER));
        }
        Target::PILEDRIVER => {
            reveal_strlit("piledriver");
            assert(lower("piledriver"@) =~= "piledriver"@);
            assert(parse_x86_intel("piledriver"@) is None);
            assert(parse_x86_amd("piledriver"@) == Some(Target::PILEDRIVER));
        }
        Target::STEAMROLLER => {
            reveal_strlit("steamroller");
            assert(lower("steamroller"@) =~= "steamroller"@);
            assert(parse_x86_intel("steamroller"@) is None);
            assert(parse_x86_amd("steamroller"@) == Some(Target::STEAMROLLER));
        }
        Target::EXCAVATOR => {
            reveal_strlit("excavator");
            assert(lower("excavator"@) =~= "excavator"@);
            assert(parse_x86_intel("excavator"@) is None);
            assert(parse_x86_amd("excavator"@) == Some(Target::EXCAVATOR));
        }
        Target::ZEN => {
            reveal_strlit("zen");
            assert(lower("zen"@) =~= "zen"@);
            assert(parse_x86_intel("zen"@) is None);
            assert(parse_x86_amd("zen"@) == Some(Target::ZEN));
        }
        _ => { }
    }
}

#[verifier::spinoff_prover]
#[verifier::rlimit(60)]
proof fn lemma_round_trip_x86_generic_power(t: Target)
    requires
        in_x86_generic_power(t),
    ensures
        lower(token_of(t)) == token_of(t),
        parse_token(token_of(t)) == Some(t),
{
    lemma_x86_intel_token_contents();
    lemma_x86_amd_token_contents();
    lemma_x86_generic_power_token_contents();
    match t {
        Target::SSE_GENERIC => {
            reveal_strlit("sse_generic");
            assert(lower("sse_generic"@) =~= "sse_generic"@);
            assert(parse_x86_intel("sse_generic"@) is None);
            assert(parse_x86_amd("sse_generic"@) is None);
            assert(parse_x86_generic_power("sse_generic"@) == Some(Target::SSE_GENERIC));
        }
        Target::VIAC3 => {
            reveal_strlit("viac3");
            assert(lower("viac3"@) =~= "viac3"@);
            assert(parse_x86_intel("viac3"@) is None);
            assert(parse_x86_amd("viac3"@) is None);
            assert(parse_x86_generic_power("viac3"@) == Some(Target::VIAC3));
        }
        Target::NANO => {
            reveal_strlit("nano");
            assert(lower("nano"@) =~= "nano"@);
            assert(parse_x86_intel("nano"@) is None);
            assert(parse_x86_amd("nano"@) is None);
            assert(parse_x86_generic_power("nano"@) == Some(Target::NANO));
        }
        Target::POWER4 => {
            reveal_strlit("power4");
            assert(lower("power4"@) =~= "power4"@);
            assert(parse_x86_intel("power4"@) is None);
            assert(parse_x86_amd("power4"@) is None);
            assert(parse_x86_generic_power("power4"@) == Some(Target::POWER4));
        }
        Target::POWER5 => {
            reveal_strlit("power5");
            assert(lower("power5"@) =~= "power5"@);
            assert(parse_x86_intel("power5"@) is None);
            assert(parse_x86_amd("power5"@) is None);
            assert(parse_x86_generic_power("power5"@) == Some(Target::POWER5));
        }
        Target::POWER6 => {
            reveal_strlit("power6");
            assert(lower("power6"@) =~= "power6"@);
            assert(parse_x86_intel("power6"@) is None);
            assert(parse_x86_amd("power6"@) is None);
            assert(parse_x86_generic_power("power6"@) == Some(Target::POWER6));
        }
        Target::POWER7 => {
            reveal_strlit("power7");
            assert(lower("power7"@) =~= "power7"@);
            assert(parse_x86_intel("power7"@) is None);
            assert(parse_x86_amd("power7"@) is None);
            assert(parse_x86_generic_power("power7"@) == Some(Target::POWER7));
        }
        Target::POWER8 => {
            reveal_strlit("power8");
            assert(lower("power8"@) =~= "power8"@);
            assert(parse_x86_intel("power8"@) is None);
            assert(parse_x86_amd("power8"@) is None);
            assert(parse_x86_generic_power("power8"@) == Some(Target::POWER8));
        }
        Target::POWER9 => {
            reveal_strlit("power9");
            assert(lower("power9"@) =~= "power9"@);
            assert(parse_x86_intel("power9"@) is None);
            assert(parse_x86_amd("power9"@) is None);
            assert(parse_x86_generic_power("power9"@) == Some(Target::POWER9));
        }
        Target::POWER10 => {
            reveal_strlit("power10");
            assert(lower("power10"@) =~= "power10"@);
            assert(parse_x86_intel("power10"@) is None);
            assert(parse_x86_amd("power10"@) is None);
            assert(parse_x86_generic_power("power10"@) == Some(Target::POWER10));
        }
        Target::PPCG4 => {
            reveal_strlit("ppcg4");
            assert(lower("ppcg4"@) =~= "ppcg4"@);
            assert(parse_x86_intel("ppcg4"@) is None);
            assert(parse_x86_amd("ppcg4"@) is None);
            assert(parse_x86_generic_power("ppcg4"@) == Some(Target::PPCG4));
        }
        Target::PPC970 => {
            reveal_strlit("ppc970");
            assert(lower("ppc970"@) =~= "ppc970"@);
            assert(parse_x86_intel("ppc970"@) is None);
            assert(parse_x86_amd("ppc970"@) is None);
            assert(parse_x86_generic_power("ppc970"@) == Some(Target::PPC970));
        }
        Target::PPC970MP => {
            reveal_strlit("ppc970mp");
            assert(lower("ppc970mp"@) =~= "ppc970mp"@);
            assert(parse_x86_intel("ppc970mp"@) is None);
            assert(parse_x86_amd("ppc970mp"@) is None);
            assert(parse_x86_generic_power("ppc970mp"@) == Some(Target::PPC970MP));
        }
        Target::PPC440 => {
            reveal_strlit("ppc440");
            assert(lower("ppc440"@) =~= "ppc440"@);
            assert(parse_x86_intel("ppc440"@) is None);
            assert(parse_x86_amd("ppc440"@) is None);
            assert(parse_x86_generic_power("ppc440"@) == Some(Target::PPC440));
        }
        Target::PPC440FP2 => {
            reveal_strlit("ppc440fp2");
            assert(lower("ppc440fp2"@) =~= "ppc440fp2"@);
            assert(parse_x86_intel("ppc440fp2"@) is None);
            assert(parse_x86_amd("ppc440fp2"@) is None);
            assert(parse_x86_generic_power("ppc440fp2"@) == Some(Target::PPC440FP2));
        }
        Target::CELL => {
            reveal_strlit("cell");
            assert(lower("cell"@) =~= "cell"@);
            assert(parse_x86_intel("cell"@) is None);
            assert(parse_x86_amd("cell"@) is None);
            assert(parse_x86_generic_power("cell"@) == Some(Target::CELL));
        }
        _ => { }
    }
}

#[verifier::spinoff_prover]
#[verifier::rlimit(60)]
proof fn lemma_round_trip_mips_ia64_sparc(t: Target)
    requires
        in_mips_ia64_sparc(t),
    ensures
        lower(token_of(t)) == token_of(t),
        parse_token(token_of(t)) == Some(t),
{
    lemma_x86_intel_token_contents();
    lemma_x86_amd_token_contents();
    lemma_x86_generic_power_token_contents();
    lemma_mips_ia64_sparc_token_contents();
    match t {
        Target::P5600 => {
            reveal_strlit("p5600");
            assert(lower("p5600"@) =~= "p5600"@);
            assert(parse_x86_intel("p5600"@) is None);
            assert(parse_x86_amd("p5600"@) is None);
            assert(parse_x86_generic_power("p5600"@) is None);
            assert(parse_mips_ia64_sparc("p5600"@) == Some(Target::P5600));
        }
        Target::MIPS1004K => {
            reveal_strlit("mips1004k");
            assert(lower("mips1004k"@) =~= "mips1004k"@);
            assert(parse_x86_intel("mips1004k"@) is None);
            assert(parse_x86_amd("mips1004k"@) is None);
            assert(parse_x86_generic_power("mips1004k"@) is None);
            assert(parse_mips_ia64_sparc("mips1004k"@) == Some(Target::MIPS1004K));
        }
        Target::MIPS24K => {
            reveal_strlit("mips24k");
            assert(lower("mips24k"@) =~= "mips24k"@);
            assert(parse_x86_intel("mips24k"@) is None);
            assert(parse_x86_amd("mips24k"@) is None);
            assert(parse_x86_generic_power("mips24k"@) is None);
            assert(parse_mips_ia64_sparc("mips24k"@) == Some(Target::MIPS24K));
        }
        Target::MIPS64_GENERIC => {
            reveal_strlit("mips64_generic");
            assert(lower("mips64_generic"@) =~= "mips64_generic"@);
            assert(parse_x86_intel("mips64_generic"@) is None);
            assert(parse_x86_amd("mips64_generic"@) is None);
            assert(parse_x86_generic_power("mips64_generic"@) is None);
            assert(parse_mips_ia64_sparc("mips64_generic"@) == Some(Target::MIPS64_GENERIC));
        }
        Target::SICORTEX => {
            reveal_strlit("sicortex");
            assert(lower("sicortex"@) =~= "sicortex"@);
            assert(parse_x86_intel("sicortex"@) is None);
            assert(parse_x86_amd("sicortex"@) is None);
            assert(parse_x86_generic_power("sicortex"@) is None);
            assert(parse_mips_ia64_sparc("sicortex"@) == Some(Target::SICORTEX));
        }
        Target::LOONGSON3A => {
            reveal_strlit("loongson3a");
            assert(lower("loongson3a"@) =~= "loongson3a"@);
            assert(parse_x86_intel("loongson3a"@) is None);
            assert(parse_x86_amd("loongson3a"@) is None);
            assert(parse_x86_generic_power("loongson3a"@) is None);
            assert(parse_mips_ia64_sparc("loongson3a"@) == Some(Target::LOONGSON3A));
        }
        Target::LOONGSON3B => {
            reveal_strlit("loongson3b");
            assert(lower("loongson3b"@) =~= "loongson3b"@);
            assert(parse_x86_intel("loongson3b"@) is None);
            assert(parse_x86_amd("loongson3b"@) is None);
            assert(parse_x86_generic_power("loongson3b"@) is None);
            assert(parse_mips_ia64_sparc("loongson3b"@) == Some(Target::LOONGSON3B));
        }
        Target::I6400 => {
            reveal_strlit("i6400");
            assert(lower("i6400"@) =~= "i6400"@);
            assert(parse_x86_intel("i6400"@) is None);
            assert(parse_x86_amd("i6400"@) is None);
            assert(parse_x86_generic_power("i6400"@) is None);
            assert(parse_mips_ia64_sparc("i6400"@) == Some(Target::I6400));
        }
        Target::P6600 => {
            reveal_strlit("p6600");
            assert(lower("p6600"@) =~= "p6600"@);
            assert(parse_x86_intel("p6600"@) is None);
            assert(parse_x86_amd("p6600"@) is None);
            assert(parse_x86_generic_power("p6600"@) is None);
            assert(parse_mips_ia64_sparc("p6600"@) == Some(Target::P6600));
        }
        Target::I6500 => {
            reveal_strlit("i6500");
            assert(lower("i6500"@) =~= "i6500"@);
            assert(parse_x86_intel("i6500"@) is None);
            assert(parse_x86_amd("i6500"@) is None);
            assert(parse_x86_generic_power("i6500"@) is None);
            assert(parse_mips_ia64_sparc("i6500"@) == Some(Target::I6500));
        }
        Target::ITANIUM2 => {
            reveal_strlit("itanium2");
            assert(lower("itanium2"@) =~= "itanium2"@);
            assert(parse_x86_intel("itanium2"@) is None);
            assert(parse_x86_amd("itanium2"@) is None);
            assert(parse_x86_generic_power("itanium2"@) is None);
            assert(parse_mips_ia64_sparc("itanium2"@) == Some(Target::ITANIUM2));
        }
        Target::SPARC => {
            reveal_strlit("sparc");
            assert(lower("sparc"@) =~= "sparc"@);
            assert(parse_x86_intel("sparc"@) is None);
            assert(parse_x86_amd("sparc"@) is None);
            assert(parse_x86_generic_power("sparc"@) is None);
            assert(parse_mips_ia64_sparc("sparc"@) == Some(Target::SPARC));
        }
        Target::SPARCV7 => {
            reveal_strlit("sparcv7");
            assert(lower("sparcv7"@) =~= "sparcv7"@);
            assert(parse_x86_intel("sparcv7"@) is None);
            assert(parse_x86_amd("sparcv7"@) is None);
            assert(parse_x86_generic_power("sparcv7"@) is None);
            assert(parse_mips_ia64_sparc("sparcv7"@) == Some(Target::SPARCV7));
        }
        _ => { }
    }
}

#[verifier::spinoff_prover]
#[verifier::rlimit(60)]
proof fn lemma_round_trip_arm(t: Target)
    requires
        in_arm(t),
    ensures
        lower(token_of(t)) == token_of(t),
        parse_token(token_of(t)) == Some(t),
{
    lemma_x86_intel_token_contents();
    lemma_x86_amd_token_contents();
    lemma_x86_generic_power_token_contents();
    lemma_mips_ia64_sparc_token_contents();
    lemma_arm_token_contents();
    match t {
        Target::CORTEXA15 => {
            reveal_strlit("cortexa15");
            assert(lower("cortexa15"@) =~= "cortexa15"@);
            assert(parse_x86_intel("cortexa15"@) is None);
            assert(parse_x86_amd("cortexa15"@) is None);
            assert(parse_x86_generic_power("cortexa15"@) is None);
            assert(parse_mips_ia64_sparc("cortexa15"@) is None);
            assert(parse_arm("cortexa15"@) == Some(Target::CORTEXA15));
        }
        Target::CORTEXA9 => {
            reveal_strlit("cortexa9");
            assert(lower("cortexa9"@) =~= "cortexa9"@);
            assert(parse_x86_intel("cortexa9"@) is None);
            assert(parse_x86_amd("cortexa9"@) is None);
            assert(parse_x86_generic_power("cortexa9"@) is None);
            assert(parse_mips_ia64_sparc("cortexa9"@) is None);
            assert(parse_arm("cortexa9"@) == Some(Target::CORTEXA9));
        }
        Target::ARMV7 => {
            reveal_strlit("armv7");
            assert(lower("armv7"@) =~= "armv7"@);
            assert(parse_x86_intel("armv7"@) is None);
            assert(parse_x86_amd("armv7"@) is None);
            assert(parse_x86_generic_power("armv7"@) is None);
            assert(parse_mips_ia64_sparc("armv7"@) is None);
            assert(parse_arm("armv7"@) == Some(Target::ARMV7));
        }
        Target::ARMV6 => {
            reveal_strlit("armv6");
            assert(lower("armv6"@) =~= "armv6"@);
            assert(parse_x86_intel("armv6"@) is None);
            assert(parse_x86_amd("armv6"@) is None);
            assert(parse_x86_generic_power("armv6"@) is None);
            assert(parse_mips_ia64_sparc("armv6"@) is None);
            assert(parse_arm("armv6"@) == Some(Target::ARMV6));
        }
        Target::ARMV5 => {
            reveal_strlit("armv5");
            assert(lower("armv5"@) =~= "armv5"@);
            assert(parse_x86_intel("armv5"@) is None);
            assert(parse_x86_amd("armv5"@) is None);
            assert(parse_x86_generic_power("armv5"@) is None);
            assert(parse_mips_ia64_sparc("armv5"@) is None);
            assert(parse_arm("armv5"@) == Some(Target::ARMV5));
        }
        _ => { }
    }
}

#[verifier::spinoff_prover]
#[verifier::rlimit(60)]
proof fn lemma_round_trip_arm64(t: Target)
    requires
        in_arm64(t),
    ensures
        lower(token_of(t)) == token_of(t),
        parse_token(token_of(t)) == Some(t),
{
    lemma_x86_intel_token_contents();
    lemma_x86_amd_token_contents();
    lemma_x86_generic_power_token_contents();
    lemma_mips_ia64_sparc_token_contents();
    lemma_arm_token_contents();
    lemma_arm64_token_contents();
    match t {
        Target::ARMV8 => {
            reveal_strlit("armv8");
            assert(lower("armv8"@) =~= "armv8"@);
            assert(parse_x86_intel("armv8"@) is None);
            assert(parse_x86_amd("armv8"@) is None);
            assert(parse_x86_generic_power("armv8"@) is None);
            assert(parse_mips_ia64_sparc("armv8"@) is None);
            assert(parse_arm("armv8"@) is None);
            assert(parse_arm64("armv8"@) == Some(Target::ARMV8));
        }
        Target::CORTEXA53 => {
            reveal_strlit("cortexa53");
            assert(lower("cortexa53"@) =~= "cortexa53"@);
            assert(parse_x86_intel("cortexa53"@) is None);
            assert(parse_x86_amd("cortexa53"@) is None);
            assert(parse_x86_generic_power("cortexa53"@) is None);
            assert(parse_mips_ia64_sparc("cortexa53"@) is None);
            assert(parse_arm("cortexa53"@) is None);
            assert(parse_arm64("cortexa53"@) == Some(Target::CORTEXA53));
        }
        Target::CORTEXA57 => {
            reveal_strlit("cortexa57");
            assert(lower("cortexa57"@) =~= "cortexa57"@);
            assert(parse_x86_intel("cortexa57"@) is None);
            assert(parse_x86_amd("cortexa57"@) is None);
            assert(parse_x86_generic_power("cortexa57"@) is None);
            assert(parse_mips_ia64_sparc("cortexa57"@) is None);
            assert(parse_arm("cortexa57"@) is None);
            assert(parse_arm64("cortexa57"@) == Some(Target::CORTEXA57));
        }
        Target::CORTEXA72 => {
            reveal_strlit("cortexa72");
            assert(lower("cortexa72"@) =~= "cortexa72"@);
            assert(parse_x86_intel("cortexa72"@) is None);
            assert(parse_x86_amd("cortexa72"@) is None);
            assert(parse_x86_generic_power("cortexa72"@) is None);
            assert(parse_mips_ia64_sparc("cortexa72"@) is None);
            assert(parse_arm("cortexa72"@) is None);
            assert(parse_arm64("cortexa72"@) == Some(Target::CORTEXA72));
        }
        Target::CORTEXA73 => {
            reveal_strlit("cortexa73");
            assert(lower("cortexa73"@) =~= "cortexa73"@);
            assert(parse_x86_intel("cortexa73"@) is None);
            assert(parse_x86_amd("cortexa73"@) is None);
            assert(parse_x86_generic_power("cortexa73"@) is None);
            assert(parse_mips_ia64_sparc("cortexa73"@) is None);
            assert(parse_arm("cortexa73"@) is None);
            assert(parse_arm64("cortexa73"@) == Some(Target::CORTEXA73));
        }
        Target::CORTEXA510 => {
            reveal_strlit("cortexa510");
            assert(lower("cortexa510"@) =~= "cortexa510"@);
            assert(parse_x86_intel("cortexa510"@) is None);
            assert(parse_x86_amd("cortexa510"@) is None);
            assert(parse_x86_generic_power("cortexa510"@) is None);
            assert(parse_mips_ia64_sparc("cortexa510"@) is None);
            assert(parse_arm("cortexa510"@) is None);
            assert(parse_arm64("cortexa510"@) == Some(Target::CORTEXA510));
        }
        Target::CORTEXA710 => {
            reveal_strlit("cortexa710");
            assert(lower("cortexa710"@) =~= "cortexa710"@);
            assert(parse_x86_intel("cortexa710"@) is None);
            assert(parse_x86_amd("cortexa710"@) is None);
            assert(parse_x86_generic_power("cortexa710"@) is None);
            assert(parse_mips_ia64_sparc("cortexa710"@) is None);
            assert(parse_arm("cortexa710"@) is None);
            assert(parse_arm64("cortexa710"@) == Some(Target::CORTEXA710));
        }
        Target::CORTEXX1 => {
            reveal_strlit("cortexx1");
            assert(lower("cortexx1"@) =~= "cortexx1"@);
            assert(parse_x86_intel("cortexx1"@) is None);
            assert(parse_x86_amd("cortexx1"@) is None);
            assert(parse_x86_generic_power("cortexx1"@) is None);
            assert(parse_mips_ia64_sparc("cortexx1"@) is None);
            assert(parse_arm("cortexx1"@) is None);
            assert(parse_arm64("cortexx1"@) == Some(Target::CORTEXX1));
        }
        Target::CORTEXX2 => {
            reveal_strlit("cortexx2");
            assert(lower("cortexx2"@) =~= "cortexx2"@);
            assert(parse_x86_intel("cortexx2"@) is None);
            assert(parse_x86_amd("cortexx2"@) is None);
            assert(parse_x86_generic_power("cortexx2"@) is None);
            assert(parse_mips_ia64_sparc("cortexx2"@) is None);
            assert(parse_arm("cortexx2"@) is None);
            assert(parse_arm64("cortexx2"@) == Some(Target::CORTEXX2));
        }
        Target::NEOVERSEN1 => {
            reveal_strlit("neoversen1");
            assert(lower("neoversen1"@) =~= "neoversen1"@);
            assert(parse_x86_intel("neoversen1"@) is None);
            assert(parse_x86_amd("neoversen1"@) is None);
            assert(parse_x86_generic_power("neoversen1"@) is None);
            assert(parse_mips_ia64_sparc("neoversen1"@) is None);
            assert(parse_arm("neoversen1"@) is None);
            assert(parse_arm64("neoversen1"@) == Some(Target::NEOVERSEN1));
        }
        Target::NEOVERSEV1 => {
            reveal_strlit("neoversev1");
            assert(lower("neoversev1"@) =~= "neoversev1"@);
            assert(parse_x86_intel("neoversev1"@) is None);
            assert(parse_x86_amd("neoversev1"@) is None);
            assert(parse_x86_generic_power("neoversev1"@) is None);
            assert(parse_mips_ia64_sparc("neoversev1"@) is None);
            assert(parse_arm("neoversev1"@) is None);
            assert(parse_arm64("neoversev1"@) == Some(Target::NEOVERSEV1));
        }
        Target::NEOVERSEN2 => {
            reveal_strlit("neoversen2");
            assert(lower("neoversen2"@) =~= "neoversen2"@);
            assert(parse_x86_intel("neoversen2"@) is None);
            assert(parse_x86_amd("neoversen2"@) is None);
            assert(parse_x86_generic_power("neoversen2"@) is None);
            assert(parse_mips_ia64_sparc("neoversen2"@) is None);
            assert(parse_arm("neoversen2"@) is None);
            assert(parse_arm64("neoversen2"@) == Some(Target::NEOVERSEN2));
        }
        Target::CORTEXA55 => {
            reveal_strlit("cortexa55");
            assert(lower("cortexa55"@) =~= "cortexa55"@);
            assert(parse_x86_intel("cortexa55"@) is None);
            assert(parse_x86_amd("cortexa55"@) is None);
            assert(parse_x86_generic_power("cortexa55"@) is None);
            assert(parse_mips_ia64_sparc("cortexa55"@) is None);
            assert(parse_arm("cortexa55"@) is None);
            assert(parse_arm64("cortexa55"@) == Some(Target::CORTEXA55));
        }
        Target::EMAG8180 => {
            reveal_strlit("emag8180");
            assert(lower("emag8180"@) =~= "emag8180"@);
            assert(parse_x86_intel("emag8180"@) is None);
            assert(parse_x86_amd("emag8180"@) is None);
            assert(parse_x86_generic_power("emag8180"@) is None);
            assert(parse_mips_ia64_sparc("emag8180"@) is None);
            assert(parse_arm("emag8180"@) is None);
            assert(parse_arm64("emag8180"@) == Some(Target::EMAG8180));
        }
        Target::FALKOR => {
            reveal_strlit("falkor");
            assert(lower("falkor"@) =~= "falkor"@);
            assert(parse_x86_intel("falkor"@) is None);
            assert(parse_x86_amd("falkor"@) is None);
            assert(parse_x86_generic_power("falkor"@) is None);
            assert(parse_mips_ia64_sparc("falkor"@) is None);
            assert(parse_arm("falkor"@) is None);
            assert(parse_arm64("falkor"@) == Some(Target::FALKOR));
        }
        Target::THUNDERX => {
            reveal_strlit("thunderx");
            assert(lower("thunderx"@) =~= "thunderx"@);
            assert(parse_x86_intel("thunderx"@) is None);
            assert(parse_x86_amd("thunderx"@) is None);
            assert(parse_x86_generic_power("thunderx"@) is None);
            assert(parse_mips_ia64_sparc("thunderx"@) is None);
            assert(parse_arm("thunderx"@) is None);
            assert(parse_arm64("thunderx"@) == Some(Target::THUNDERX));
        }
        Target::THUNDERX2T99 => {
            reveal_strlit("thunderx2t99");
            assert(lower("thunderx2t99"@) =~= "thunderx2t99"@);
            assert(parse_x86_intel("thunderx2t99"@) is None);
            assert(parse_x86_amd("thunderx2t99"@) is None);
            assert(parse_x86_generic_power("thunderx2t99"@) is None);
            assert(parse_mips_ia64_sparc("thunderx2t99"@) is None);
            assert(parse_arm("thunderx2t99"@) is None);
            assert(parse_arm64("thunderx2t99"@) == Some(Target::THUNDERX2T99));
        }
        Target::TSV110 => {
            reveal_strlit("tsv110");
            assert(lower("tsv110"@) =~= "tsv110"@);
            assert(parse_x86_intel("tsv110"@) is None);
            assert(parse_x86_amd("tsv110"@) is None);
            assert(parse_x86_generic_power("tsv110"@) is None);
            assert(parse_mips_ia64_sparc("tsv110"@) is None);
            assert(parse_arm("tsv110"@) is None);
            assert(parse_arm64("tsv110"@) == Some(Target::TSV110));
        }
        Target::THUNDERX3T110 => {
            reveal_strlit("thunderx3t110");
            assert(lower("thunderx3t110"@) =~= "thunderx3t110"@);
            assert(parse_x86_intel("thunderx3t110"@) is None);
            assert(parse_x86_amd("thunderx3t110"@) is None);
            assert(parse_x86_generic_power("thunderx3t110"@) is None);
            assert(parse_mips_ia64_sparc("thunderx3t110"@) is None);
            assert(parse_arm("thunderx3t110"@) is None);
            assert(parse_arm64("thunderx3t110"@) == Some(Target::THUNDERX3T110));
        }
        Target::VORTEX => {
            reveal_strlit("vortex");
            assert(lower("vortex"@) =~= "vortex"@);
            assert(parse_x86_intel("vortex"@) is None);
            assert(parse_x86_amd("vortex"@) is None);
            assert(parse_x86_generic_power("vortex"@) is None);
            assert(parse_mips_ia64_sparc("vortex"@) is None);
            assert(parse_arm("vortex"@) is None);
            assert(parse_arm64("vortex"@) == Some(Target::VORTEX));
        }
        Target::A64FX => {
            reveal_strlit("a64fx");
            assert(lower("a64fx"@) =~= "a64fx"@);
            assert(parse_x86_intel("a64fx"@) is None);
            assert(parse_x86_amd("a64fx"@) is None);
            assert(parse_x86_generic_power("a64fx"@) is None);
            assert(parse_mips_ia64_sparc("a64fx"@) is None);
            assert(parse_arm("a64fx"@) is None);
            assert(parse_arm64("a64fx"@) == Some(Target::A64FX));
        }
        Target::ARMV8SVE => {
            reveal_strlit("armv8sve");
            assert(lower("armv8sve"@) =~= "armv8sve"@);
            assert(parse_x86_intel("armv8sve"@) is None);
            assert(parse_x86_amd("armv8sve"@) is None);
            assert(parse_x86_generic_power("armv8sve"@) is None);
            assert(parse_mips_ia64_sparc("armv8sve"@) is None);
            assert(parse_arm("armv8sve"@) is None);
            assert(parse_arm64("armv8sve"@) == Some(Target::ARMV8SVE));
        }
        Target::FT2000 => {
            reveal_strlit("ft2000");
            assert(lower("ft2000"@) =~= "ft2000"@);
            assert(parse_x86_intel("ft2000"@) is None);
            assert(parse_x86_amd("ft2000"@) is None);
            assert(parse_x86_generic_power("ft2000"@) is None);
            assert(parse_mips_ia64_sparc("ft2000"@) is None);
            assert(parse_arm("ft2000"@) is None);
            assert(parse_arm64("ft2000"@) == Some(Target::FT2000));
        }
        _ => { }
    }
}

#[verifier::spinoff_prover]
#[verifier::rlimit(60)]
proof fn lemma_round_trip_other_arch(t: Target)
    requires
        in_other_arch(t),
    ensures
        lower(token_of(t)) == token_of(t),
        parse_token(token_of(t)) == Some(t),
{
    lemma_x86_intel_token_contents();
    lemma_x86_amd_token_contents();
    lemma_x86_generic_power_token_contents();
    lemma_mips_ia64_sparc_token_contents();
    lemma_arm_token_contents();
    lemma_arm64_token_contents();
    lemma_other_arch_token_contents();
    match t {
        Target::ZARCH_GENERIC => {
            reveal_strlit("zarch_generic");
            assert(lower("zarch_generic"@) =~= "zarch_generic"@);
            assert(parse_x86_intel("zarch_generic"@) is None);
            assert(parse_x86_amd("zarch_generic"@) is None);
            assert(parse_x86_generic_power("zarch_generic"@) is None);
            assert(parse_mips_ia64_sparc("zarch_generic"@) is None);
            assert(parse_arm("zarch_generic"@) is None);
            assert(parse_arm64("zarch_generic"@) is None);
            assert(parse_other_arch("zarch_generic"@) == Some(Target::ZARCH_GENERIC));
        }
        Target::Z13 => {
            reveal_strlit("z13");
            assert(lower("z13"@) =~= "z13"@);
            assert(parse_x86_intel("z13"@) is None);
            assert(parse_x86_amd("z13"@) is None);
            assert(parse_x86_generic_power("z13"@) is None);
            assert(parse_mips_ia64_sparc("z13"@) is None);
            assert(parse_arm("z13"@) is None);
            assert(parse_arm64("z13"@) is None);
            assert(parse_other_arch("z13"@) == Some(Target::Z13));
        }
        Target::Z14 => {
            reveal_strlit("z14");
            assert(lower("z14"@) =~= "z14"@);
            assert(parse_x86_intel("z14"@) is None);
            assert(parse_x86_amd("z14"@) is None);
            assert(parse_x86_generic_power("z14"@) is None);
            assert(parse_mips_ia64_sparc("z14"@) is None);
            assert(parse_arm("z14"@) is None);
            assert(parse_arm64("z14"@) is None);
            assert(parse_other_arch("z14"@) == Some(Target::Z14));
        }
        Target::RISCV64_GENERIC => {
            reveal_strlit("riscv64_generic");
            assert(lower("riscv64_generic"@) =~= "riscv64_generic"@);
            assert(parse_x86_intel("riscv64_generic"@) is None);
            assert(parse_x86_amd("riscv64_generic"@) is None);
            assert(parse_x86_generic_power("riscv64_generic"@) is None);
            assert(parse_mips_ia64_sparc("riscv64_generic"@) is None);
            assert(parse_arm("riscv64_generic"@) is None);
            assert(parse_arm64("riscv64_generic"@) is None);
            assert(parse_other_arch("riscv64_generic"@) == Some(Target::RISCV64_GENERIC));
        }
        Target::C910V => {
            reveal_strlit("c910v");
            assert(lower("c910v"@) =~= "c910v"@);
            assert(parse_x86_intel("c910v"@) is None);
            assert(parse_x86_amd("c910v"@) is None);
            assert(parse_x86_generic_power("c910v"@) is None);
            assert(parse_mips_ia64_sparc("c910v"@) is None);
            assert(parse_arm("c910v"@) is None);
            assert(parse_arm64("c910v"@) is None);
            assert(parse_other_arch("c910v"@) == Some(Target::C910V));
        }
        Target::LOONGSONGENERIC => {
            reveal_strlit("loongsongeneric");
            assert(lower("loongsongeneric"@) =~= "loongsongeneric"@);
            assert(parse_x86_intel("loongsongeneric"@) is None);
            assert(parse_x86_amd("loongsongeneric"@) is None);
            assert(parse_x86_generic_power("loongsongeneric"@) is None);
            assert(parse_mips_ia64_sparc("loongsongeneric"@) is None);
            assert(parse_arm("loongsongeneric"@) is None);
            assert(parse_arm64("loongsongeneric"@) is None);
            assert(parse_other_arch("loongsongeneric"@) == Some(Target::LOONGSONGENERIC));
        }
        Target::LOONGSON3R5 => {
            reveal_strlit("loongson3r5");
            assert(lower("loongson3r5"@) =~= "loongson3r5"@);
            assert(parse_x86_intel("loongson3r5"@) is None);
            assert(parse_x86_amd("loongson3r5"@) is None);
            assert(parse_x86_generic_power("loongson3r5"@) is None);
            assert(parse_mips_ia64_sparc("loongson3r5"@) is None);
            assert(parse_arm("loongson3r5"@) is None);
            assert(parse_arm64("loongson3r5"@) is None);
            assert(parse_other_arch("loongson3r5"@) == Some(Target::LOONGSON3R5));
        }
        Target::LOONGSON2K1000 => {
            reveal_strlit("loongson2k1000");
            assert(lower("loongson2k1000"@) =~= "loongson2k1000"@);
            assert(parse_x86_intel("loongson2k1000"@) is None);
            assert(parse_x86_amd("loongson2k1000"@) is None);
            assert(parse_x86_generic_power("loongson2k1000"@) is None);
            assert(parse_mips_ia64_sparc("loongson2k1000"@) is None);
            assert(parse_arm("loongson2k1000"@) is None);
            assert(parse_arm64("loongson2k1000"@) is None);
            assert(parse_other_arch("loongson2k1000"@) == Some(Target::LOONGSON2K1000));
        }
        Target::E2K => {
            reveal_strlit("e2k");
            assert(lower("e2k"@) =~= "e2k"@);
            assert(parse_x86_intel("e2k"@) is None);
            assert(parse_x86_amd("e2k"@) is None);
            assert(parse_x86_generic_power("e2k"@) is None);
            assert(parse_mips_ia64_sparc("e2k"@) is None);
            assert(parse_arm("e2k"@) is None);
            assert(parse_arm64("e2k"@) is None);
            assert(parse_other_arch("e2k"@) == Some(Target::E2K));
        }
        Target::EV4 => {
            reveal_strlit("ev4");
            assert(lower("ev4"@) =~= "ev4"@);
            assert(parse_x86_intel("ev4"@) is None);
            assert(parse_x86_amd("ev4"@) is None);
            assert(parse_x86_generic_power("ev4"@) is None);
            assert(parse_mips_ia64_sparc("ev4"@) is None);
            assert(parse_arm("ev4"@) is None);
            assert(parse_arm64("ev4"@) is None);
            assert(parse_other_arch("ev4"@) == Some(Target::EV4));
        }
        Target::EV5 => {
            reveal_strlit("ev5");
            assert(lower("ev5"@) =~= "ev5"@);
            assert(parse_x86_intel("ev5"@) is None);
            assert(parse_x86_amd("ev5"@) is None);
            assert(parse_x86_generic_power("ev5"@) is None);
            assert(parse_mips_ia64_sparc("ev5"@) is None);
            assert(parse_arm("ev5"@) is None);
            assert(parse_arm64("ev5"@) is None);
            assert(parse_other_arch("ev5"@) == Some(Target::EV5));
        }
        Target::EV6 => {
            reveal_strlit("ev6");
            assert(lower("ev6"@) =~= "ev6"@);
            assert(parse_x86_intel("ev6"@) is None);
            assert(parse_x86_amd("ev6"@) is None);
            assert(parse_x86_generic_power("ev6"@) is None);
            assert(parse_mips_ia64_sparc("ev6"@) is None);
            assert(parse_arm("ev6"@) is None);
            assert(parse_arm64("ev6"@) is None);
            assert(parse_other_arch("ev6"@) == Some(Target::EV6));
        }
        _ => { }
    }
}
/// Round trip: parsing the canonical token of any target, in any ASCII
/// case, yields that same target.
pub proof fn lemma_token_round_trip(t: Target)
    ensures
        lower(token_of(t)) == token_of(t),
        parse_token(token_of(t)) == Some(t),
{
    if in_x86_intel(t) {
        lemma_round_trip_x86_intel(t);
    } else if in_x86_amd(t) {
        lemma_round_trip_x86_amd(t);
    } else if in_x86_generic_power(t) {
        lemma_round_trip_x86_generic_power(t);
    } else if in_mips_ia64_sparc(t) {
        lemma_round_trip_mips_ia64_sparc(t);
    } else if in_arm(t) {
        lemma_round_trip_arm(t);
    } else if in_arm64(t) {
        lemma_round_trip_arm64(t);
    } else if in_other_arch(t) {
        lemma_round_trip_other_arch(t);
    } else {
        assert(false);
    }
}

impl Target {
    /// The canonical lowercase token of this target, as the external
    /// build tool expects it.
    pub fn token(&self) -> (r: &'static str)
        ensures
            r@ == token_of(*self),
    {
        match self {
            Target::P2 => "p2",
            Target::KATMAI => "katamai",
            Target::COPPERMINE => "coppermine",
            Target::NORTHWOOD => "northwood",
            Target::PRESCOTT => "prescott",
            Target::BANIAS => "banias",
            Target::YONAH => "yonah",
            Target::CORE2 => "core2",
            Target::PENRYN => "penryn",
            Target::DUNNINGTON => "dunnington",
            Target::NEHALEM => "nehalem",
            Target::SANDYBRIDGE => "sandybridge",
            Target::HASWELL => "haswell",
            Target::SKYLAKEX => "skylakex",
            Target::ATOM => "atom",
            Target::COOPERLAKE => "cooperlake",
            Target::SAPPHIRERAPIDS => "sapphirerapids",
            Target::ATHLON => "athlon",
            Target::OPTERON => "opteron",
            Target::OPTERON_SSE3 => "opteron_sse3",
            Target::BARCELONA => "barcelona",
            Target::SHANGHAI => "shanghai",
            Target::ISTANBUL => "istanbul",
            Target::BOBCAT => "bobcat",
            Target::BULLDOZER => "bulldozer",
            Target::PILEDRIVER => "piledriver",
            Target::STEAMROLLER => "steamroller",
            Target::EXCAVATOR => "excavator",
            Target::ZEN => "zen",
            Target::SSE_GENERIC => "sse_generic",
            Target::VIAC3 => "viac3",
            Target::NANO => "nano",
            Target::POWER4 => "power4",
            Target::POWER5 => "power5",
            Target::POWER6 => "power6",
            Target::POWER7 => "power7",
            Target::POWER8 => "power8",
            Target::POWER9 => "power9",
            Target::POWER10 => "power10",
            Target::PPCG4 => "ppcg4",
            Target::PPC970 => "ppc970",
            Target::PPC970MP => "ppc970mp",
            Target::PPC440 => "ppc440",
            Target::PPC440FP2 => "ppc440fp2",
            Target::CELL => "cell",
            Target::P5600 => "p5600",
            Target::MIPS1004K => "mips1004k",
            Target::MIPS24K => "mips24k",
            Target::MIPS64_GENERIC => "mips64_generic",
            Target::SICORTEX => "sicortex",
            Target::LOONGSON3A => "loongson3a",
            Target::LOONGSON3B => "loongson3b",
            Target::I6400 => "i6400",
            Target::P6600 => "p6600",
            Target::I6500 => "i6500",
            Target::ITANIUM2 => "itanium2",
            Target::SPARC => "sparc",
            Target::SPARCV7 => "sparcv7",
            Target::CORTEXA15 => "cortexa15",
            Target::CORTEXA9 => "cortexa9",
            Target::ARMV7 => "armv7",
            Target::ARMV6 => "armv6",
            Target::ARMV5 => "armv5",
            Target::ARMV8 => "armv8",
            Target::CORTEXA53 => "cortexa53",
            Target::CORTEXA57 => "cortexa57",
            Target::CORTEXA72 => "cortexa72",
            Target::CORTEXA73 => "cortexa73",
            Target::CORTEXA510 => "cortexa510",
            Target::CORTEXA710 => "cortexa710",
            Target::CORTEXX1 => "cortexx1",
            Target::CORTEXX2 => "cortexx2",
            Target::NEOVERSEN1 => "neoversen1",
            Target::NEOVERSEV1 => "neoversev1",
            Target::NEOVERSEN2 => "neoversen2",
            Target::CORTEXA55 => "cortexa55",
            Target::EMAG8180 => "emag8180",
            Target::FALKOR => "falkor",
            Target::THUNDERX => "thunderx",
            Target::THUNDERX2T99 => "thunderx2t99",
            Target::TSV110 => "tsv110",
            Target::THUNDERX3T110 => "thunderx3t110",
            Target::VORTEX => "vortex",
            Target::A64FX => "a64fx",
            Target::ARMV8SVE => "armv8sve",
            Target::FT2000 => "ft2000",
            Target::ZARCH_GENERIC => "zarch_generic",
            Target::Z13 => "z13",
            Target::Z14 => "z14",
            Target::RISCV64_GENERIC => "riscv64_generic",
            Target::C910V => "c910v",
            Target::LOONGSONGENERIC => "loongsongeneric",
            Target::LOONGSON3R5 => "loongson3r5",
            Target::LOONGSON2K1000 => "loongson2k1000",
            Target::E2K => "e2k",
            Target::EV4 => "ev4",
            Target::EV5 => "ev5",
            Target::EV6 => "ev6",
        }
    }

    /// Parses a token, ignoring ASCII case.  An unrecognized token is
    /// reported as `UnsupportedTarget`, never a panic.
    pub fn parse(s: &str) -> (r: Result<Target, Error>)
        ensures
            r matches Ok(t) ==> parse_token(lower(s@)) == Some(t),
            r matches Err(e) ==> parse_token(lower(s@)) is None && (e matches Error::UnsupportedTarget { target } && target@ == s@),
    {
        if let Some(t) = parse_x86_intel_exec(s) {
            return Ok(t);
        }
        if let Some(t) = parse_x86_amd_exec(s) {
            return Ok(t);
        }
        if let Some(t) = parse_x86_generic_power_exec(s) {
            return Ok(t);
        }
        if let Some(t) = parse_mips_ia64_sparc_exec(s) {
            return Ok(t);
        }
        if let Some(t) = parse_arm_exec(s) {
            return Ok(t);
        }
        if let Some(t) = parse_arm64_exec(s) {
            return Ok(t);
        }
        if let Some(t) = parse_other_arch_exec(s) {
            return Ok(t);
        }
        Err(Error::UnsupportedTarget { target: s.to_owned() })
    }
}

impl core::str::FromStr for Target {
    type Err = Error;

    fn from_str(s: &str) -> Result<Target, Error> {
        Target::parse(s)
    }
}

} // verus!
