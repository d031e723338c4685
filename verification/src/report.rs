//! Parser for the build-config report the external tool emits: a text file
//! of `KEY=VALUE` lines.  Lines without exactly one `=` are skipped, a later
//! occurrence of a key overrides an earlier one, and the two linker-flag
//! values are tokenized into deduplicated, sorted link requirements.

use vstd::prelude::*;

use crate::error::Error;
use crate::text::{
    find_char, insert_sorted, lemma_strictly_sorted_unique, line_key, line_value, split_kv, str_eq,
    strictly_sorted, wf_kv_line,
};

verus! {

/// Whitespace that separates linker-flag tokens.
pub open spec fn is_space(c: char) -> bool {
    c == ' ' || c == '\t' || c == '\r'
}

fn is_space_exec(c: char) -> (r: bool)
    ensures
        r == is_space(c),
{
    c == ' ' || c == '\t' || c == '\r'
}

/// The whitespace-separated tokens of `s`, with `cur` the token read so far.
pub open spec fn tokens_acc(s: Seq<char>, cur: Seq<char>) -> Seq<Seq<char>>
    decreases s.len(),
{
    if s.len() == 0 {
        if cur.len() == 0 {
            Seq::empty()
        } else {
            seq![cur]
        }
    } else if is_space(s[0]) {
        if cur.len() == 0 {
            tokens_acc(s.drop_first(), Seq::empty())
        } else {
            seq![cur] + tokens_acc(s.drop_first(), Seq::empty())
        }
    } else {
        tokens_acc(s.drop_first(), cur.push(s[0]))
    }
}

/// The whitespace-separated tokens of `s`, in order.
pub open spec fn tokens(s: Seq<char>) -> Seq<Seq<char>> {
    tokens_acc(s, Seq::empty())
}

/// Splits a string into its whitespace-separated tokens.
pub fn split_tokens(s: &str) -> (r: Vec<String>)
    ensures
        r.deep_view() == tokens(s@),
{
    let n = s.unicode_len();
    let mut out: Vec<String> = Vec::new();
    let mut start: usize = 0;
    let mut i: usize = 0;
    proof {
        assert(s@.skip(0) =~= s@);
        assert(s@.subrange(0, 0) =~= Seq::<char>::empty());
    }
    while i < n
        invariant
            n == s@.len(),
            start <= i <= n,
            tokens(s@) == out.deep_view() + tokens_acc(
                s@.skip(i as int),
                s@.subrange(start as int, i as int),
            ),
        decreases n - i,
    {
        let c = s.get_char(i);
        proof {
            assert(s@.skip(i as int)[0] == s@[i as int]);
            assert(s@.skip(i as int).drop_first() =~= s@.skip(i + 1));
            assert(s@.subrange(i + 1, i + 1) =~= Seq::<char>::empty());
        }
        if is_space_exec(c) {
            if i > start {
                let tok = s.substring_char(start, i).to_owned();
                let ghost cur = s@.subrange(start as int, i as int);
                out.push(tok);
                proof {
                    assert(out.deep_view() =~= out.deep_view().drop_last().push(cur));
                    assert(out.deep_view().drop_last().push(cur) =~= out.deep_view().drop_last()
                        + seq![cur]);
                    assert(out.deep_view().drop_last() + (seq![cur] + tokens_acc(
                        s@.skip(i + 1),
                        Seq::empty(),
                    )) =~= (out.deep_view().drop_last() + seq![cur]) + tokens_acc(
                        s@.skip(i + 1),
                        Seq::empty(),
                    ));
                }
            }
            start = i + 1;
        } else {
            proof {
                assert(s@.subrange(start as int, i as int).push(s@[i as int]) =~= s@.subrange(
                    start as int,
                    i + 1,
                ));
            }
        }
        i = i + 1;
    }
    proof {
        assert(s@.skip(n as int).len() == 0);
    }
    if i > start {
        let tok = s.substring_char(start, n).to_owned();
        let ghost cur = s@.subrange(start as int, n as int);
        out.push(tok);
        proof {
            assert(out.deep_view() =~= out.deep_view().drop_last().push(cur));
            assert(out.deep_view().drop_last().push(cur) =~= out.deep_view().drop_last() + seq![cur]);
        }
    }
    out
}

/// The payloads of the tokens carrying the two-character flag `flag`.
pub open spec fn flag_payloads(toks: Seq<Seq<char>>, flag: Seq<char>) -> Set<Seq<char>> {
    Set::new(
        |p: Seq<char>|
            exists|i: int|
                0 <= i < toks.len() && #[trigger] toks[i].len() >= 2 && toks[i].take(2) == flag && p
                    == toks[i].skip(2),
    )
}

/// The search paths named by `-L` tokens.
pub open spec fn path_flag_payloads(toks: Seq<Seq<char>>) -> Set<Seq<char>> {
    flag_payloads(toks, "-L"@)
}

/// The library names named by `-l` tokens.
pub open spec fn lib_flag_payloads(toks: Seq<Seq<char>>) -> Set<Seq<char>> {
    flag_payloads(toks, "-l"@)
}

proof fn lemma_flag_payloads_step(toks: Seq<Seq<char>>, i: int, flag: Seq<char>)
    requires
        0 <= i < toks.len(),
    ensures
        toks[i].len() >= 2 && toks[i].take(2) == flag ==> flag_payloads(toks.take(i + 1), flag)
            == flag_payloads(toks.take(i), flag).insert(toks[i].skip(2)),
        !(toks[i].len() >= 2 && toks[i].take(2) == flag) ==> flag_payloads(toks.take(i + 1), flag)
            == flag_payloads(toks.take(i), flag),
{
    let pre = toks.take(i);
    let post = toks.take(i + 1);
    assert(forall|j: int| 0 <= j < i ==> post[j] == toks[j] && pre[j] == toks[j]);
    assert(post[i] == toks[i]);
    if toks[i].len() >= 2 && toks[i].take(2) == flag {
        assert(flag_payloads(post, flag) =~= flag_payloads(pre, flag).insert(toks[i].skip(2))) by {
            assert forall|p: Seq<char>|
                flag_payloads(pre, flag).insert(toks[i].skip(2)).contains(p) implies flag_payloads(
                post,
                flag,
            ).contains(p) by {
                if p == toks[i].skip(2) {
                    assert(post[i].len() >= 2 && post[i].take(2) == flag && p == post[i].skip(2));
                } else {
                    let j = choose|j: int|
                        0 <= j < pre.len() && #[trigger] pre[j].len() >= 2 && pre[j].take(2) == flag
                            && p == pre[j].skip(2);
                    assert(post[j].len() >= 2 && post[j].take(2) == flag && p == post[j].skip(2));
                }
            }
            assert forall|p: Seq<char>| flag_payloads(post, flag).contains(p) implies flag_payloads(
                pre,
                flag,
            ).insert(toks[i].skip(2)).contains(p) by {
                let j = choose|j: int|
                    0 <= j < post.len() && #[trigger] post[j].len() >= 2 && post[j].take(2) == flag
                        && p == post[j].skip(2);
                if j < i {
                    assert(pre[j].len() >= 2 && pre[j].take(2) == flag && p == pre[j].skip(2));
                }
            }
        }
    } else {
        assert(flag_payloads(post, flag) =~= flag_payloads(pre, flag)) by {
            assert forall|p: Seq<char>| flag_payloads(post, flag).contains(p) implies flag_payloads(
                pre,
                flag,
            ).contains(p) by {
                let j = choose|j: int|
                    0 <= j < post.len() && #[trigger] post[j].len() >= 2 && post[j].take(2) == flag
                        && p == post[j].skip(2);
                assert(j != i);
                assert(pre[j].len() >= 2 && pre[j].take(2) == flag && p == pre[j].skip(2));
            }
            assert forall|p: Seq<char>| flag_payloads(pre, flag).contains(p) implies flag_payloads(
                post,
                flag,
            ).contains(p) by {
                let j = choose|j: int|
                    0 <= j < pre.len() && #[trigger] pre[j].len() >= 2 && pre[j].take(2) == flag
                        && p == pre[j].skip(2);
                assert(post[j].len() >= 2 && post[j].take(2) == flag && p == post[j].skip(2));
            }
        }
    }
}

/// The linker requirements parsed from one report value: the `-L` search
/// paths and `-l` library names, each deduplicated and sorted; every other
/// token is ignored.
#[derive(Debug, Clone, PartialEq, Eq)]
pub struct LinkRequirements {
    pub search_paths: Vec<String>,
    pub library_names: Vec<String>,
}

impl LinkRequirements {
    /// Both vectors are strictly sorted, hence duplicate-free.
    pub open spec fn wf(&self) -> bool {
        strictly_sorted(self.search_paths.deep_view()) && strictly_sorted(
            self.library_names.deep_view(),
        )
    }

    /// Tokenizes a linker-flag value.  The result is canonical: sorted,
    /// deduplicated, and containing exactly the `-L` and `-l` payloads.
    pub fn parse(value: &str) -> (r: LinkRequirements)
        ensures
            r.wf(),
            r.search_paths.deep_view().to_set() == path_flag_payloads(tokens(value@)),
            r.library_names.deep_view().to_set() == lib_flag_payloads(tokens(value@)),
    {
        proof {
            reveal_strlit("-L");
            reveal_strlit("-l");
            assert("-L"@ =~= seq!['-', 'L']);
            assert("-l"@ =~= seq!['-', 'l']);
        }
        let toks = split_tokens(value);
        let ghost tv = toks.deep_view();
        let mut paths: Vec<String> = Vec::new();
        let mut libs: Vec<String> = Vec::new();
        let mut i: usize = 0;
        proof {
            assert(tv.take(0) =~= Seq::<Seq<char>>::empty());
            assert(paths.deep_view().to_set() =~= flag_payloads(tv.take(0), "-L"@));
            assert(libs.deep_view().to_set() =~= flag_payloads(tv.take(0), "-l"@));
        }
        while i < toks.len()
            invariant
                toks.deep_view() == tv,
                tv == tokens(value@),
                tv.len() == toks@.len(),
                i <= toks@.len(),
                strictly_sorted(paths.deep_view()),
                strictly_sorted(libs.deep_view()),
                paths.deep_view().to_set() == flag_payloads(tv.take(i as int), "-L"@),
                libs.deep_view().to_set() == flag_payloads(tv.take(i as int), "-l"@),
                "-L"@ == seq!['-', 'L'],
                "-l"@ == seq!['-', 'l'],
            decreases toks@.len() - i,
        {
            let t = &toks[i];
            proof {
                assert(tv[i as int] == toks@[i as int]@);
            }
            let tn = t.unicode_len();
            if tn >= 2 && t.get_char(0) == '-' && t.get_char(1) == 'L' {
                proof {
                    assert(tv[i as int].take(2) =~= "-L"@);
                }
                let payload = t.substring_char(2, tn).to_owned();
                assert(payload@ =~= tv[i as int].skip(2));
                insert_sorted(&mut paths, payload);
            } else if tn >= 2 && t.get_char(0) == '-' && t.get_char(1) == 'l' {
                proof {
                    assert(tv[i as int].take(2) =~= "-l"@);
                    if tv[i as int].take(2) == "-L"@ {
                        assert(tv[i as int].take(2)[1] == 'l');
                    }
                }
                let payload = t.substring_char(2, tn).to_owned();
                assert(payload@ =~= tv[i as int].skip(2));
                insert_sorted(&mut libs, payload);
            } else {
                proof {
                    if tv[i as int].len() >= 2 {
                        assert(tv[i as int].take(2)[0] == tv[i as int][0]);
                        assert(tv[i as int].take(2)[1] == tv[i as int][1]);
                    }
                }
            }
            proof {
                if tv[i as int].len() >= 2 && tv[i as int].take(2) == "-L"@ {
                    assert(tv[i as int].take(2)[1] == 'L');
                }
                lemma_flag_payloads_step(tv, i as int, "-L"@);
                lemma_flag_payloads_step(tv, i as int, "-l"@);
            }
            i = i + 1;
        }
        proof {
            assert(tv.take(tv.len() as int) =~= tv);
        }
        LinkRequirements { search_paths: paths, library_names: libs }
    }
}

/// The canonical forms handed back for the raw search paths; `None` marks a
/// path that could not be canonicalized.
pub open spec fn canonical_payloads(c: Seq<Option<String>>) -> Set<Seq<char>> {
    Set::new(|p: Seq<char>| exists|i: int| 0 <= i < c.len() && #[trigger] c[i] is Some && p == c[i]->0@)
}

/// Index of the first `None`, or the length when every entry is `Some`.
pub open spec fn first_unresolved(c: Seq<Option<String>>) -> int
    decreases c.len(),
{
    if c.len() == 0 {
        0
    } else if c[0] is None {
        0
    } else {
        1 + first_unresolved(c.drop_first())
    }
}

pub proof fn lemma_first_unresolved(c: Seq<Option<String>>)
    ensures
        0 <= first_unresolved(c) <= c.len(),
        forall|k: int| 0 <= k < first_unresolved(c) ==> c[k] is Some,
        first_unresolved(c) < c.len() ==> c[first_unresolved(c)] is None,
    decreases c.len(),
{
    if c.len() > 0 && c[0] is Some {
        lemma_first_unresolved(c.drop_first());
        assert(forall|k: int| 1 <= k < c.len() ==> c[k] == c.drop_first()[k - 1]);
    }
}

proof fn lemma_canonical_payloads_step(c: Seq<Option<String>>, i: int)
    requires
        0 <= i < c.len(),
        c[i] is Some,
    ensures
        canonical_payloads(c.take(i + 1)) == canonical_payloads(c.take(i)).insert(c[i]->0@),
{
    let pre = c.take(i);
    let post = c.take(i + 1);
    assert(canonical_payloads(post) =~= canonical_payloads(pre).insert(c[i]->0@)) by {
        assert forall|p: Seq<char>|
            canonical_payloads(pre).insert(c[i]->0@).contains(p) implies canonical_payloads(
            post,
        ).contains(p) by {
            if p == c[i]->0@ {
                assert(post[i] is Some && p == post[i]->0@);
            } else {
                let j = choose|j: int| 0 <= j < pre.len() && #[trigger] pre[j] is Some && p == pre[j]->0@;
                assert(post[j] is Some && p == post[j]->0@);
            }
        }
        assert forall|p: Seq<char>| canonical_payloads(post).contains(p) implies canonical_payloads(
            pre,
        ).insert(c[i]->0@).contains(p) by {
            let j = choose|j: int| 0 <= j < post.len() && #[trigger] post[j] is Some && p == post[j]->0@;
            if j < i {
                assert(pre[j] is Some && p == pre[j]->0@);
            }
        }
    }
}

impl LinkRequirements {
    /// Replaces the raw search paths by the canonical forms the embedding
    /// program computed, one for each raw path in order.  A path that could
    /// not be canonicalized is a hard error naming the first such path; the
    /// library names pass through unchanged.
    pub fn with_canonical_paths(&self, canonical: &Vec<Option<String>>) -> (r: Result<
        LinkRequirements,
        Error,
    >)
        requires
            self.wf(),
            canonical@.len() == self.search_paths@.len(),
        ensures
            (r is Ok) <==> first_unresolved(canonical@) == canonical@.len(),
            r matches Ok(lr) ==> lr.wf() && lr.search_paths.deep_view().to_set()
                == canonical_payloads(canonical@) && lr.library_names@ == self.library_names@,
            r matches Err(e) ==> first_unresolved(canonical@) < canonical@.len() && (e
                matches Error::CannotCanonicalizePath { path } && path@ == self.search_paths@[
                first_unresolved(canonical@)
            ]@),
    {
        proof {
            lemma_first_unresolved(canonical@);
        }
        let mut out: Vec<String> = Vec::new();
        let mut i: usize = 0;
        proof {
            assert(canonical@.take(0) =~= Seq::<Option<String>>::empty());
            assert(out.deep_view().to_set() =~= canonical_payloads(canonical@.take(0)));
        }
        while i < canonical.len()
            invariant
                canonical@.len() == self.search_paths@.len(),
                i <= canonical@.len(),
                forall|k: int| 0 <= k < i ==> canonical@[k] is Some,
                strictly_sorted(out.deep_view()),
                out.deep_view().to_set() == canonical_payloads(canonical@.take(i as int)),
            decreases canonical@.len() - i,
        {
            match &canonical[i] {
                Some(p) => {
                    insert_sorted(&mut out, p.clone());
                    proof {
                        lemma_canonical_payloads_step(canonical@, i as int);
                    }
                },
                None => {
                    proof {
                        lemma_first_unresolved(canonical@);
                        if first_unresolved(canonical@) < i {
                            assert(canonical@[first_unresolved(canonical@)] is Some);
                        }
                        if first_unresolved(canonical@) > i {
                            assert(canonical@[i as int] is None);
                        }
                    }
                    return Err(
                        Error::CannotCanonicalizePath { path: self.search_paths[i].clone() },
                    );
                },
            }
            i = i + 1;
        }
        proof {
            lemma_first_unresolved(canonical@);
            if first_unresolved(canonical@) < canonical@.len() {
                assert(canonical@[first_unresolved(canonical@)] is None);
            }
            assert(canonical@.take(canonical@.len() as int) =~= canonical@);
        }
        let library_names = self.library_names.clone();
        proof {
            assert forall|k: int| 0 <= k < library_names@.len() implies library_names@[k]
                == self.library_names@[k] by {
                assert(cloned::<String>(self.library_names[k], library_names[k]));
            }
            assert(library_names@ =~= self.library_names@);
            assert forall|i: int, j: int|
                0 <= i < j < library_names.deep_view().len() implies crate::text::lex_lt(
                library_names.deep_view()[i],
                library_names.deep_view()[j],
            ) by {
                assert(library_names.deep_view()[i] == self.library_names.deep_view()[i]);
                assert(library_names.deep_view()[j] == self.library_names.deep_view()[j]);
                assert(crate::text::lex_lt(
                    self.library_names.deep_view()[i],
                    self.library_names.deep_view()[j],
                ));
            }
        }
        Ok(LinkRequirements { search_paths: out, library_names })
    }
}

/// Two link requirements with the same element sets are identical: the
/// sorted, deduplicated form is canonical, so repeated parses of one input
/// agree exactly.
pub proof fn lemma_link_requirements_canonical(a: LinkRequirements, b: LinkRequirements)
    requires
        a.wf(),
        b.wf(),
        a.search_paths.deep_view().to_set() == b.search_paths.deep_view().to_set(),
        a.library_names.deep_view().to_set() == b.library_names.deep_view().to_set(),
    ensures
        a.search_paths.deep_view() == b.search_paths.deep_view(),
        a.library_names.deep_view() == b.library_names.deep_view(),
{
    lemma_strictly_sorted_unique(a.search_paths.deep_view(), b.search_paths.deep_view());
    lemma_strictly_sorted_unique(a.library_names.deep_view(), b.library_names.deep_view());
}

// --- report lines ---

/// One trailing carriage return is not part of a line's content.
pub open spec fn strip_cr(l: Seq<char>) -> Seq<char> {
    if l.len() > 0 && l.last() == '\r' {
        l.drop_last()
    } else {
        l
    }
}

/// The lines of `s`, split at `\n`, with `cur` the line read so far.
pub open spec fn lines_acc(s: Seq<char>, cur: Seq<char>) -> Seq<Seq<char>>
    decreases s.len(),
{
    if s.len() == 0 {
        if cur.len() == 0 {
            Seq::empty()
        } else {
            seq![strip_cr(cur)]
        }
    } else if s[0] == '\n' {
        seq![strip_cr(cur)] + lines_acc(s.drop_first(), Seq::empty())
    } else {
        lines_acc(s.drop_first(), cur.push(s[0]))
    }
}

/// The lines of a report file.
pub open spec fn report_lines(s: Seq<char>) -> Seq<Seq<char>> {
    lines_acc(s, Seq::empty())
}

/// Splits text into lines at `\n`, dropping one trailing `\r` per line.
pub fn split_lines(s: &str) -> (r: Vec<String>)
    ensures
        r.deep_view() == report_lines(s@),
{
    let n = s.unicode_len();
    let mut out: Vec<String> = Vec::new();
    let mut start: usize = 0;
    let mut i: usize = 0;
    proof {
        assert(s@.skip(0) =~= s@);
        assert(s@.subrange(0, 0) =~= Seq::<char>::empty());
    }
    while i < n
        invariant
            n == s@.len(),
            start <= i <= n,
            report_lines(s@) == out.deep_view() + lines_acc(
                s@.skip(i as int),
                s@.subrange(start as int, i as int),
            ),
        decreases n - i,
    {
        let c = s.get_char(i);
        proof {
            assert(s@.skip(i as int)[0] == s@[i as int]);
            assert(s@.skip(i as int).drop_first() =~= s@.skip(i + 1));
            assert(s@.subrange(i + 1, i + 1) =~= Seq::<char>::empty());
        }
        if c == '\n' {
            let ghost cur = s@.subrange(start as int, i as int);
            let line = if i > start && s.get_char(i - 1) == '\r' {
                s.substring_char(start, i - 1)
            } else {
                s.substring_char(start, i)
            };
            proof {
                if i > start && s@[i - 1] == '\r' {
                    assert(cur.last() == s@[i - 1]);
                    assert(line@ =~= cur.drop_last());
                } else {
                    if cur.len() > 0 {
                        assert(cur.last() == s@[i - 1]);
                    }
                    assert(line@ =~= cur);
                }
                assert(line@ == strip_cr(cur));
            }
            let owned = line.to_owned();
            out.push(owned);
            proof {
                assert(out.deep_view() =~= out.deep_view().drop_last().push(strip_cr(cur)));
                assert(out.deep_view().drop_last().push(strip_cr(cur))
                    =~= out.deep_view().drop_last() + seq![strip_cr(cur)]);
                assert(out.deep_view().drop_last() + (seq![strip_cr(cur)] + lines_acc(
                    s@.skip(i + 1),
                    Seq::empty(),
                )) =~= (out.deep_view().drop_last() + seq![strip_cr(cur)]) + lines_acc(
                    s@.skip(i + 1),
                    Seq::empty(),
                ));
            }
            start = i + 1;
        } else {
            proof {
                assert(s@.subrange(start as int, i as int).push(s@[i as int]) =~= s@.subrange(
                    start as int,
                    i + 1,
                ));
            }
        }
        i = i + 1;
    }
    proof {
        assert(s@.skip(n as int).len() == 0);
    }
    if i > start {
        let ghost cur = s@.subrange(start as int, n as int);
        let line = if s.get_char(n - 1) == '\r' {
            s.substring_char(start, n - 1)
        } else {
            s.substring_char(start, n)
        };
        proof {
            assert(cur.last() == s@[n - 1]);
            if s@[n - 1] == '\r' {
                assert(line@ =~= cur.drop_last());
            } else {
                assert(line@ =~= cur);
            }
            assert(line@ == strip_cr(cur));
        }
        let owned = line.to_owned();
        out.push(owned);
        proof {
            assert(out.deep_view() =~= out.deep_view().drop_last().push(strip_cr(cur)));
            assert(out.deep_view().drop_last().push(strip_cr(cur)) =~= out.deep_view().drop_last()
                + seq![strip_cr(cur)]);
        }
    }
    out
}

// --- the report itself ---

/// The line is well formed and carries this key.
pub open spec fn line_has_key(line: Seq<char>, key: Seq<char>) -> bool {
    wf_kv_line(line) && line_key(line) == key
}

/// The value of the last well-formed line with this key, or empty when no
/// line carries it: a later line overrides an earlier one.
pub open spec fn last_value_of(lines: Seq<Seq<char>>, key: Seq<char>) -> Seq<char>
    decreases lines.len(),
{
    if lines.len() == 0 {
        Seq::empty()
    } else if line_has_key(lines.last(), key) {
        line_value(lines.last())
    } else {
        last_value_of(lines.drop_last(), key)
    }
}

/// Some well-formed line carries this key.
pub open spec fn has_key(lines: Seq<Seq<char>>, key: Seq<char>) -> bool {
    exists|i: int| 0 <= i < lines.len() && #[trigger] line_has_key(lines[i], key)
}

proof fn lemma_last_value_step(lv: Seq<Seq<char>>, i: int, key: Seq<char>)
    requires
        0 <= i < lv.len(),
    ensures
        last_value_of(lv.take(i + 1), key) == if line_has_key(lv[i], key) {
            line_value(lv[i])
        } else {
            last_value_of(lv.take(i), key)
        },
{
    assert(lv.take(i + 1).last() == lv[i]);
    assert(lv.take(i + 1).drop_last() =~= lv.take(i));
}

proof fn lemma_has_key_step(lv: Seq<Seq<char>>, i: int, key: Seq<char>)
    requires
        0 <= i < lv.len(),
    ensures
        has_key(lv.take(i + 1), key) == (has_key(lv.take(i), key) || line_has_key(lv[i], key)),
{
    let pre = lv.take(i);
    let post = lv.take(i + 1);
    if has_key(post, key) {
        let j = choose|j: int| 0 <= j < post.len() && #[trigger] line_has_key(post[j], key);
        if j < i {
            assert(line_has_key(pre[j], key));
        } else {
            assert(post[j] == lv[i]);
        }
    }
    if has_key(pre, key) {
        let j = choose|j: int| 0 <= j < pre.len() && #[trigger] line_has_key(pre[j], key);
        assert(line_has_key(post[j], key));
    }
    if line_has_key(lv[i], key) {
        assert(line_has_key(post[i], key));
    }
}

/// The parsed build-config report: what the external tool says it decided.
#[derive(Debug, Clone, PartialEq, Eq)]
pub struct BuildConfigReport {
    /// Value of the `OSNAME` key, verbatim.
    pub os_name: String,
    /// Whether the `NOFORTRAN` marker key is present, whatever its value.
    pub fortran_unavailable: bool,
    /// Link requirements of C-origin code, from the `CEXTRALIB` key.
    pub c_link_requirements: LinkRequirements,
    /// Link requirements of Fortran-origin code, from the `FEXTRALIB` key.
    pub fortran_link_requirements: LinkRequirements,
}

impl BuildConfigReport {
    /// Parses the report text.  Malformed lines are skipped on purpose: the
    /// file may carry unrelated metadata.  The search paths in the result
    /// are still raw; see `LinkRequirements::with_canonical_paths`.
    pub fn parse(content: &str) -> (r: BuildConfigReport)
        ensures
            r.os_name@ == last_value_of(report_lines(content@), "OSNAME"@),
            r.fortran_unavailable == has_key(report_lines(content@), "NOFORTRAN"@),
            r.c_link_requirements.wf(),
            r.c_link_requirements.search_paths.deep_view().to_set() == path_flag_payloads(
                tokens(last_value_of(report_lines(content@), "CEXTRALIB"@)),
            ),
            r.c_link_requirements.library_names.deep_view().to_set() == lib_flag_payloads(
                tokens(last_value_of(report_lines(content@), "CEXTRALIB"@)),
            ),
            r.fortran_link_requirements.wf(),
            r.fortran_link_requirements.search_paths.deep_view().to_set() == path_flag_payloads(
                tokens(last_value_of(report_lines(content@), "FEXTRALIB"@)),
            ),
            r.fortran_link_requirements.library_names.deep_view().to_set() == lib_flag_payloads(
                tokens(last_value_of(report_lines(content@), "FEXTRALIB"@)),
            ),
    {
        let lines = split_lines(content);
        let ghost lv = lines.deep_view();
        let mut os_name = String::new();
        let mut fortran_unavailable = false;
        let mut c_value = String::new();
        let mut f_value = String::new();
        let mut i: usize = 0;
        proof {
            assert(lv.take(0) =~= Seq::<Seq<char>>::empty());
        }
        while i < lines.len()
            invariant
                lines.deep_view() == lv,
                lv == report_lines(content@),
                lv.len() == lines@.len(),
                i <= lines@.len(),
                os_name@ == last_value_of(lv.take(i as int), "OSNAME"@),
                fortran_unavailable == has_key(lv.take(i as int), "NOFORTRAN"@),
                c_value@ == last_value_of(lv.take(i as int), "CEXTRALIB"@),
                f_value@ == last_value_of(lv.take(i as int), "FEXTRALIB"@),
            decreases lines@.len() - i,
        {
            proof {
                assert(lv[i as int] == lines@[i as int]@);
                reveal_strlit("OSNAME");
                reveal_strlit("NOFORTRAN");
                reveal_strlit("CEXTRALIB");
                reveal_strlit("FEXTRALIB");
                assert("OSNAME"@ =~= seq!['O', 'S', 'N', 'A', 'M', 'E']);
                assert("NOFORTRAN"@ =~= seq!['N', 'O', 'F', 'O', 'R', 'T', 'R', 'A', 'N']);
                assert("CEXTRALIB"@ =~= seq!['C', 'E', 'X', 'T', 'R', 'A', 'L', 'I', 'B']);
                assert("FEXTRALIB"@ =~= seq!['F', 'E', 'X', 'T', 'R', 'A', 'L', 'I', 'B']);
                lemma_last_value_step(lv, i as int, "OSNAME"@);
                lemma_last_value_step(lv, i as int, "CEXTRALIB"@);
                lemma_last_value_step(lv, i as int, "FEXTRALIB"@);
                lemma_has_key_step(lv, i as int, "NOFORTRAN"@);
            }
            match split_kv(lines[i].as_str()) {
                None => {
                    // not a KEY=VALUE line: skipped, by design
                },
                Some((key, value)) => {
                    if str_eq(key.as_str(), "OSNAME") {
                        os_name = value;
                    } else if str_eq(key.as_str(), "NOFORTRAN") {
                        fortran_unavailable = true;
                    } else if str_eq(key.as_str(), "CEXTRALIB") {
                        c_value = value;
                    } else if str_eq(key.as_str(), "FEXTRALIB") {
                        f_value = value;
                    }
                },
            }
            i = i + 1;
        }
        proof {
            assert(lv.take(lv.len() as int) =~= lv);
        }
        let c_link_requirements = LinkRequirements::parse(c_value.as_str());
        let fortran_link_requirements = LinkRequirements::parse(f_value.as_str());
        BuildConfigReport { os_name, fortran_unavailable, c_link_requirements, fortran_link_requirements }
    }
}

} // verus!
