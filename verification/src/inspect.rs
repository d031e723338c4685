//! Artifact inspector: which optional capabilities a compiled library was
//! built with, read off its defined-symbol table and its declared runtime
//! dependencies.  The two tables arrive as the textual listings produced by
//! the platform binary-inspection tools; this module parses the listings
//! and answers the capability queries as pure predicates.

use vstd::prelude::*;

use crate::report::{report_lines, split_tokens, tokens};
use crate::text::{find_char, lemma_find_char, str_eq};

verus! {

/// A symbol name with the Mach-O leading underscore removed; symbols from
/// binaries of either convention then compare equal.
pub open spec fn normalize_symbol(s: Seq<char>) -> Seq<char> {
    if s.len() > 0 && s[0] == '_' {
        s.drop_first()
    } else {
        s
    }
}

fn normalize_symbol_exec(s: &str) -> (r: String)
    ensures
        r@ == normalize_symbol(s@),
{
    let n = s.unicode_len();
    if n > 0 && s.get_char(0) == '_' {
        let r = s.substring_char(1, n).to_owned();
        assert(r@ =~= s@.drop_first());
        r
    } else {
        s.to_owned()
    }
}

/// A line of the symbol listing that names a defined symbol: address, a
/// one-letter symbol kind that is not `U` (undefined), and the name.
pub open spec fn is_symbol_line(l: Seq<char>) -> bool {
    &&& tokens(l).len() == 3
    &&& tokens(l)[1].len() == 1
    &&& tokens(l)[1] != "U"@
}

/// The normalized defined symbols of a symbol listing, in order.
pub open spec fn symbols_in(lines: Seq<Seq<char>>) -> Seq<Seq<char>>
    decreases lines.len(),
{
    if lines.len() == 0 {
        Seq::empty()
    } else {
        let rest = symbols_in(lines.drop_last());
        if is_symbol_line(lines.last()) {
            rest.push(normalize_symbol(tokens(lines.last())[2]))
        } else {
            rest
        }
    }
}

/// A line of an ELF dependency listing that declares a needed library.
pub open spec fn is_needed_line(l: Seq<char>) -> bool {
    tokens(l).len() == 2 && tokens(l)[0] == "NEEDED"@
}

/// A line of a Mach-O dependency listing: its first token is the path of a
/// shared object.
pub open spec fn is_dylib_line(l: Seq<char>) -> bool {
    &&& tokens(l).len() >= 1
    &&& tokens(l)[0].len() >= 6
    &&& tokens(l)[0].skip(tokens(l)[0].len() - 6) == ".dylib"@
}

/// The library a dependency line declares, under either convention, or
/// `None` for any other line.
pub open spec fn declared_lib(l: Seq<char>) -> Option<Seq<char>> {
    if is_needed_line(l) {
        Some(lib_name(tokens(l)[1]))
    } else if is_dylib_line(l) {
        Some(lib_name(tokens(l)[0]))
    } else {
        None
    }
}

/// Index of the first character after the last `/`, or 0 without one.
pub open spec fn suffix_start(s: Seq<char>) -> int
    decreases s.len(),
{
    if s.len() == 0 {
        0
    } else if s.last() == '/' {
        s.len() as int
    } else {
        suffix_start(s.drop_last())
    }
}

pub proof fn lemma_suffix_start(s: Seq<char>)
    ensures
        0 <= suffix_start(s) <= s.len(),
        forall|k: int| suffix_start(s) <= k < s.len() ==> s[k] != '/',
        suffix_start(s) > 0 ==> s[suffix_start(s) - 1] == '/',
    decreases s.len(),
{
    if s.len() > 0 && s.last() != '/' {
        lemma_suffix_start(s.drop_last());
        assert(forall|k: int| 0 <= k < s.len() - 1 ==> s[k] == s.drop_last()[k]);
    }
}

/// The bare library name of a shared-object file name: the part after the
/// last `/`, without a `lib` prefix, cut at the first `.`; so a dependency
/// on a versioned shared object compares equal to its plain name.
pub open spec fn lib_name(s: Seq<char>) -> Seq<char> {
    let base = s.skip(suffix_start(s));
    let bare = if base.len() >= 3 && base.take(3) == "lib"@ {
        base.skip(3)
    } else {
        base
    };
    bare.take(find_char(bare, '.'))
}

/// Extracts the bare library name from a shared-object file name.
pub fn lib_name_of(s: &str) -> (r: String)
    ensures
        r@ == lib_name(s@),
{
    proof {
        lemma_suffix_start(s@);
        reveal_strlit("lib");
        assert("lib"@ =~= seq!['l', 'i', 'b']);
    }
    let n = s.unicode_len();
    let mut j: usize = n;
    while j > 0 && s.get_char(j - 1) != '/'
        invariant
            n == s@.len(),
            j <= n,
            forall|k: int| j <= k < n ==> s@[k] != '/',
        decreases j,
    {
        j = j - 1;
    }
    assert(suffix_start(s@) == j) by {
        lemma_suffix_start(s@);
        if suffix_start(s@) < j {
            assert(s@[j - 1] == '/');
        }
        if suffix_start(s@) > j {
            assert(s@[suffix_start(s@) - 1] != '/');
        }
    }
    let base = s.substring_char(j, n);
    assert(base@ == s@.skip(suffix_start(s@)));
    let bn = base.unicode_len();
    let bare = if bn >= 3 && base.get_char(0) == 'l' && base.get_char(1) == 'i' && base.get_char(2)
        == 'b' {
        proof {
            assert(base@.take(3) =~= "lib"@);
        }
        base.substring_char(3, bn)
    } else {
        proof {
            if base@.len() >= 3 {
                assert(base@.take(3)[0] == base@[0]);
                assert(base@.take(3)[1] == base@[1]);
                assert(base@.take(3)[2] == base@[2]);
            }
        }
        base
    };
    proof {
        lemma_find_char(bare@, '.');
    }
    let m = bare.unicode_len();
    let mut k: usize = 0;
    while k < m && bare.get_char(k) != '.'
        invariant
            m == bare@.len(),
            k <= m,
            forall|t: int| 0 <= t < k ==> bare@[t] != '.',
        decreases m - k,
    {
        k = k + 1;
    }
    assert(find_char(bare@, '.') == k) by {
        lemma_find_char(bare@, '.');
        if find_char(bare@, '.') < k {
            assert(bare@[find_char(bare@, '.')] == '.');
        }
        if k < m && find_char(bare@, '.') > k {
            assert(bare@[k as int] != '.');
        }
        if k == m && find_char(bare@, '.') < m {
            assert(bare@[find_char(bare@, '.')] == '.');
        }
    }
    let r = bare.substring_char(0, k).to_owned();
    assert(r@ =~= lib_name(s@));
    r
}

/// The bare names of the declared runtime dependencies, in order.
pub open spec fn needed_libs_in(lines: Seq<Seq<char>>) -> Seq<Seq<char>>
    decreases lines.len(),
{
    if lines.len() == 0 {
        Seq::empty()
    } else {
        let rest = needed_libs_in(lines.drop_last());
        match declared_lib(lines.last()) {
            Some(name) => rest.push(name),
            None => rest,
        }
    }
}

/// What one binary artifact was built with: its path, the normalized
/// defined symbols, and the bare names of its declared runtime
/// dependencies.  Inspection never mutates the binary; every query is a
/// pure predicate over the extracted tables.
#[derive(Debug, Clone, PartialEq, Eq)]
pub struct ArtifactInspection {
    pub path: String,
    pub symbols: Vec<String>,
    pub linked_libs: Vec<String>,
}

impl ArtifactInspection {
    /// Builds an inspection from the two textual listings of the platform
    /// binary-inspection tools: the symbol table and the dynamic
    /// dependency table.
    pub fn from_tool_listings(path: String, symbol_listing: &str, dependency_listing: &str) -> (r:
        ArtifactInspection)
        ensures
            r.path == path,
            r.symbols.deep_view() == symbols_in(report_lines(symbol_listing@)),
            r.linked_libs.deep_view() == needed_libs_in(report_lines(dependency_listing@)),
    {
        let sym_lines = crate::report::split_lines(symbol_listing);
        let dep_lines = crate::report::split_lines(dependency_listing);
        let ghost sv = sym_lines.deep_view();
        let ghost dv = dep_lines.deep_view();
        let mut symbols: Vec<String> = Vec::new();
        let mut i: usize = 0;
        proof {
            assert(sv.take(0) =~= Seq::<Seq<char>>::empty());
        }
        while i < sym_lines.len()
            invariant
                sym_lines.deep_view() == sv,
                sv.len() == sym_lines@.len(),
                i <= sym_lines@.len(),
                symbols.deep_view() == symbols_in(sv.take(i as int)),
            decreases sym_lines@.len() - i,
        {
            proof {
                assert(sv[i as int] == sym_lines@[i as int]@);
                assert(sv.take(i + 1).drop_last() =~= sv.take(i as int));
                assert(sv.take(i + 1).last() == sv[i as int]);
            }
            let toks = split_tokens(sym_lines[i].as_str());
            if toks.len() == 3 {
                let kind = &toks[1];
                proof {
                    assert(toks.deep_view()[1] == toks@[1]@);
                    assert(toks.deep_view()[2] == toks@[2]@);
                }
                if kind.as_str().unicode_len() == 1 && !str_eq(kind.as_str(), "U") {
                    let sym = normalize_symbol_exec(toks[2].as_str());
                    symbols.push(sym);
                    proof {
                        assert(symbols.deep_view() =~= symbols_in(sv.take(i + 1)));
                    }
                }
            }
            proof {
                assert(symbols.deep_view() =~= symbols_in(sv.take(i + 1)));
            }
            i = i + 1;
        }
        proof {
            assert(sv.take(sv.len() as int) =~= sv);
        }
        let mut linked_libs: Vec<String> = Vec::new();
        let mut j: usize = 0;
        proof {
            assert(dv.take(0) =~= Seq::<Seq<char>>::empty());
        }
        while j < dep_lines.len()
            invariant
                dep_lines.deep_view() == dv,
                dv.len() == dep_lines@.len(),
                j <= dep_lines@.len(),
                linked_libs.deep_view() == needed_libs_in(dv.take(j as int)),
            decreases dep_lines@.len() - j,
        {
            proof {
                assert(dv[j as int] == dep_lines@[j as int]@);
                assert(dv.take(j + 1).drop_last() =~= dv.take(j as int));
                assert(dv.take(j + 1).last() == dv[j as int]);
            }
            let toks = split_tokens(dep_lines[j].as_str());
            if toks.len() == 2 && str_eq(toks[0].as_str(), "NEEDED") {
                proof {
                    assert(toks.deep_view()[0] == toks@[0]@);
                    assert(toks.deep_view()[1] == toks@[1]@);
                }
                let name = lib_name_of(toks[1].as_str());
                linked_libs.push(name);
            } else if toks.len() >= 1 {
                proof {
                    assert(toks.deep_view()[0] == toks@[0]@);
                }
                let first = &toks[0];
                let fn_len = first.as_str().unicode_len();
                if fn_len >= 6 && str_eq(first.as_str().substring_char(fn_len - 6, fn_len), ".dylib")
                {
                    proof {
                        assert(toks.deep_view()[0].skip(toks.deep_view()[0].len() - 6) =~= ".dylib"@);
                    }
                    let name = lib_name_of(first.as_str());
                    linked_libs.push(name);
                }
            }
            proof {
                assert(linked_libs.deep_view() =~= needed_libs_in(dv.take(j + 1)));
            }
            j = j + 1;
        }
        proof {
            assert(dv.take(dv.len() as int) =~= dv);
        }
        ArtifactInspection { path, symbols, linked_libs }
    }

    /// Whether the defined-symbol table holds this (normalized) name.
    pub fn has_symbol(&self, name: &str) -> (r: bool)
        ensures
            r == self.symbols.deep_view().contains(name@),
    {
        let mut i: usize = 0;
        while i < self.symbols.len()
            invariant
                i <= self.symbols@.len(),
                forall|k: int| 0 <= k < i ==> self.symbols.deep_view()[k] != name@,
            decreases self.symbols@.len() - i,
        {
            if str_eq(self.symbols[i].as_str(), name) {
                assert(self.symbols.deep_view()[i as int] == name@);
                return true;
            }
            proof {
                assert(self.symbols.deep_view()[i as int] == self.symbols@[i as int]@);
            }
            i = i + 1;
        }
        false
    }

    /// Whether the LAPACK routine family is present.
    pub fn has_lapack(&self) -> (r: bool)
        ensures
            r == self.symbols.deep_view().contains("dsyev_"@),
    {
        self.has_symbol("dsyev_")
    }

    /// Whether the LAPACKE C interface is present.
    pub fn has_lapacke(&self) -> (r: bool)
        ensures
            r == self.symbols.deep_view().contains("LAPACKE_dsyev"@),
    {
        self.has_symbol("LAPACKE_dsyev")
    }

    /// Whether the CBLAS interface is present.
    pub fn has_cblas(&self) -> (r: bool)
        ensures
            r == self.symbols.deep_view().contains("cblas_dgemm"@),
    {
        self.has_symbol("cblas_dgemm")
    }

    /// Whether the artifact declares a runtime dependency with this bare
    /// name (for a dynamic artifact; a static archive declares none).
    pub fn has_lib(&self, name: &str) -> (r: bool)
        ensures
            r == self.linked_libs.deep_view().contains(name@),
    {
        let mut i: usize = 0;
        while i < self.linked_libs.len()
            invariant
                i <= self.linked_libs@.len(),
                forall|k: int| 0 <= k < i ==> self.linked_libs.deep_view()[k] != name@,
            decreases self.linked_libs@.len() - i,
        {
            if str_eq(self.linked_libs[i].as_str(), name) {
                assert(self.linked_libs.deep_view()[i as int] == name@);
                return true;
            }
            proof {
                assert(self.linked_libs.deep_view()[i as int] == self.linked_libs@[i as int]@);
            }
            i = i + 1;
        }
        false
    }
}

/// The binary container format, recognized by the file's first bytes, so
/// that no single format parser is hardcoded.
#[derive(Debug, Clone, Copy, PartialEq, Eq, Structural)]
pub enum BinaryFormat {
    /// ELF object or shared object.
    Elf,
    /// Mach-O object, shared object, or fat binary.
    MachO,
    /// A static archive.
    Archive,
    Unknown,
}

/// The format a file with these leading bytes is in.
pub open spec fn sniffed_format(h: Seq<u8>) -> BinaryFormat {
    if h.len() >= 4 && h[0] == 0x7f && h[1] == 0x45 && h[2] == 0x4c && h[3] == 0x46 {
        BinaryFormat::Elf
    } else if h.len() >= 4 && ((h[0] == 0xcf && h[1] == 0xfa && h[2] == 0xed && h[3] == 0xfe) || (
    h[0] == 0xce && h[1] == 0xfa && h[2] == 0xed && h[3] == 0xfe) || (h[0] == 0xca && h[1] == 0xfe
        && h[2] == 0xba && h[3] == 0xbe)) {
        BinaryFormat::MachO
    } else if h.len() >= 8 && h[0] == 0x21 && h[1] == 0x3c && h[2] == 0x61 && h[3] == 0x72 && h[4]
        == 0x63 && h[5] == 0x68 && h[6] == 0x3e && h[7] == 0x0a {
        BinaryFormat::Archive
    } else {
        BinaryFormat::Unknown
    }
}

/// Recognizes the binary container format from the file's first bytes:
/// the ELF magic, the Mach-O magics, or the static-archive signature.
pub fn sniff_format(head: &Vec<u8>) -> (r: BinaryFormat)
    ensures
        r == sniffed_format(head@),
{
    if head.len() >= 4 && head[0] == 0x7f && head[1] == 0x45 && head[2] == 0x4c && head[3] == 0x46 {
        BinaryFormat::Elf
    } else if head.len() >= 4 && ((head[0] == 0xcf && head[1] == 0xfa && head[2] == 0xed && head[3]
        == 0xfe) || (head[0] == 0xce && head[1] == 0xfa && head[2] == 0xed && head[3] == 0xfe) || (
    head[0] == 0xca && head[1] == 0xfe && head[2] == 0xba && head[3] == 0xbe)) {
        BinaryFormat::MachO
    } else if head.len() >= 8 && head[0] == 0x21 && head[1] == 0x3c && head[2] == 0x61 && head[3]
        == 0x72 && head[4] == 0x63 && head[5] == 0x68 && head[6] == 0x3e && head[7] == 0x0a {
        BinaryFormat::Archive
    } else {
        BinaryFormat::Unknown
    }
}

} // verus!
