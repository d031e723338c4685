//! Plain-text utilities shared by the parsers: lexicographic order on
//! strings, string equality, ASCII case folding, `KEY=VALUE` splitting and
//! insertion into a sorted, duplicate-free vector of strings.

use vstd::prelude::*;

verus! {

/// Strict lexicographic order on character sequences, by Unicode scalar
/// value, with the empty sequence first.
pub open spec fn lex_lt(a: Seq<char>, b: Seq<char>) -> bool
    decreases a.len(),
{
    if b.len() == 0 {
        false
    } else if a.len() == 0 {
        true
    } else if a[0] < b[0] {
        true
    } else if a[0] != b[0] {
        false
    } else {
        lex_lt(a.drop_first(), b.drop_first())
    }
}

/// The elements are strictly increasing, hence also free of duplicates.
pub open spec fn strictly_sorted(s: Seq<Seq<char>>) -> bool {
    forall|i: int, j: int| 0 <= i < j < s.len() ==> lex_lt(s[i], s[j])
}

pub proof fn lemma_lex_lt_irreflexive(a: Seq<char>)
    ensures
        !lex_lt(a, a),
    decreases a.len(),
{
    if a.len() > 0 {
        lemma_lex_lt_irreflexive(a.drop_first());
    }
}

proof fn lemma_eq_from_head_tail<A>(a: Seq<A>, b: Seq<A>)
    requires
        a.len() > 0,
        b.len() > 0,
        a[0] == b[0],
        a.drop_first() == b.drop_first(),
    ensures
        a == b,
{
    assert(a.drop_first().len() == a.len() - 1);
    assert(b.drop_first().len() == b.len() - 1);
    assert(a.len() == b.len());
    assert forall|k: int| 0 <= k < a.len() implies a[k] == b[k] by {
        if k > 0 {
            assert(a[k] == a.drop_first()[k - 1]);
            assert(b[k] == b.drop_first()[k - 1]);
        }
    }
    assert(a =~= b);
}

pub proof fn lemma_lex_lt_connected(a: Seq<char>, b: Seq<char>)
    ensures
        a != b ==> lex_lt(a, b) || lex_lt(b, a),
    decreases a.len(),
{
    if a.len() == 0 && b.len() == 0 {
        assert(a =~= b);
    } else if a.len() > 0 && b.len() > 0 && a[0] == b[0] {
        lemma_lex_lt_connected(a.drop_first(), b.drop_first());
        if a.drop_first() == b.drop_first() {
            lemma_eq_from_head_tail(a, b);
        }
    }
}

pub proof fn lemma_lex_lt_transitive(a: Seq<char>, b: Seq<char>, c: Seq<char>)
    requires
        lex_lt(a, b),
        lex_lt(b, c),
    ensures
        lex_lt(a, c),
    decreases a.len(),
{
    if a.len() > 0 && a[0] == b[0] && b[0] == c[0] {
        lemma_lex_lt_transitive(a.drop_first(), b.drop_first(), c.drop_first());
    }
}

/// A strictly sorted sequence never repeats an element after its head.
proof fn lemma_sorted_head_not_in_tail(s: Seq<Seq<char>>)
    requires
        strictly_sorted(s),
        s.len() > 0,
    ensures
        !s.drop_first().contains(s[0]),
        strictly_sorted(s.drop_first()),
        s.drop_first().to_set() == s.to_set().remove(s[0]),
{
    assert forall|k: int| 0 <= k < s.drop_first().len() implies s.drop_first()[k] != s[0] by {
        assert(lex_lt(s[0], s[k + 1]));
        lemma_lex_lt_irreflexive(s[0]);
    }
    assert(s.drop_first().to_set() =~= s.to_set().remove(s[0])) by {
        assert forall|e: Seq<char>| s.to_set().remove(s[0]).contains(e) implies s.drop_first().to_set().contains(e) by {
            let i = choose|i: int| 0 <= i < s.len() && s[i] == e;
            assert(s.drop_first()[i - 1] == e);
        }
        assert forall|e: Seq<char>| s.drop_first().to_set().contains(e) implies s.to_set().remove(s[0]).contains(e) by {
            let k = choose|k: int| 0 <= k < s.drop_first().len() && s.drop_first()[k] == e;
            assert(s[k + 1] == e);
        }
    }
}

/// Two strictly sorted string sequences with the same element set are equal:
/// the sorted, deduplicated form of a set of strings is canonical, so a
/// repeated parse of the same input returns the very same vectors.
pub proof fn lemma_strictly_sorted_unique(a: Seq<Seq<char>>, b: Seq<Seq<char>>)
    requires
        strictly_sorted(a),
        strictly_sorted(b),
        a.to_set() == b.to_set(),
    ensures
        a == b,
    decreases a.len(),
{
    if a.len() == 0 {
        if b.len() > 0 {
            assert(b.to_set().contains(b[0]));
            assert(a.contains(b[0]));
        }
        assert(a =~= b);
    } else if b.len() == 0 {
        assert(a.to_set().contains(a[0]));
        assert(b.contains(a[0]));
    } else {
        assert(a.to_set().contains(a[0]));
        assert(b.to_set().contains(b[0]));
        let i = choose|i: int| 0 <= i < a.len() && a[i] == b[0];
        let j = choose|j: int| 0 <= j < b.len() && b[j] == a[0];
        if a[0] != b[0] {
            assert(i > 0 && j > 0);
            assert(lex_lt(a[0], a[i]));
            assert(lex_lt(b[0], b[j]));
            lemma_lex_lt_transitive(a[0], b[0], a[0]);
            lemma_lex_lt_irreflexive(a[0]);
        }
        lemma_sorted_head_not_in_tail(a);
        lemma_sorted_head_not_in_tail(b);
        lemma_strictly_sorted_unique(a.drop_first(), b.drop_first());
        lemma_eq_from_head_tail(a, b);
    }
}

/// Character-wise string equality, `r == (a@ == b@)`.
pub fn str_eq(a: &str, b: &str) -> (r: bool)
    ensures
        r == (a@ == b@),
{
    let n = a.unicode_len();
    if n != b.unicode_len() {
        return false;
    }
    let mut i: usize = 0;
    while i < n
        invariant
            n == a@.len(),
            n == b@.len(),
            i <= n,
            forall|k: int| 0 <= k < i ==> a@[k] == b@[k],
        decreases n - i,
    {
        if a.get_char(i) != b.get_char(i) {
            return false;
        }
        i = i + 1;
    }
    assert(a@ =~= b@);
    true
}

/// Character-wise comparison, `r == lex_lt(a@, b@)`.
pub fn str_lt(a: &str, b: &str) -> (r: bool)
    ensures
        r == lex_lt(a@, b@),
{
    let na = a.unicode_len();
    let nb = b.unicode_len();
    proof {
        assert(a@.skip(0) =~= a@);
        assert(b@.skip(0) =~= b@);
    }
    let mut i: usize = 0;
    while i < na && i < nb
        invariant
            na == a@.len(),
            nb == b@.len(),
            i <= na,
            i <= nb,
            lex_lt(a@, b@) == lex_lt(a@.skip(i as int), b@.skip(i as int)),
        decreases na - i,
    {
        let ca = a.get_char(i);
        let cb = b.get_char(i);
        proof {
            assert(a@.skip(i as int)[0] == a@[i as int]);
            assert(b@.skip(i as int)[0] == b@[i as int]);
            assert(a@.skip(i as int).drop_first() =~= a@.skip(i + 1));
            assert(b@.skip(i as int).drop_first() =~= b@.skip(i + 1));
        }
        if ca < cb {
            return true;
        }
        if ca != cb {
            return false;
        }
        i = i + 1;
    }
    assert(a@.skip(i as int).len() == 0 || b@.skip(i as int).len() == 0);
    na < nb
}

/// ASCII lower-casing of one character; other characters are unchanged.
pub open spec fn lower_char(c: char) -> char {
    if c == 'A' { 'a' } else if c == 'B' { 'b' } else if c == 'C' { 'c' }
    else if c == 'D' { 'd' } else if c == 'E' { 'e' } else if c == 'F' { 'f' }
    else if c == 'G' { 'g' } else if c == 'H' { 'h' } else if c == 'I' { 'i' }
    else if c == 'J' { 'j' } else if c == 'K' { 'k' } else if c == 'L' { 'l' }
    else if c == 'M' { 'm' } else if c == 'N' { 'n' } else if c == 'O' { 'o' }
    else if c == 'P' { 'p' } else if c == 'Q' { 'q' } else if c == 'R' { 'r' }
    else if c == 'S' { 's' } else if c == 'T' { 't' } else if c == 'U' { 'u' }
    else if c == 'V' { 'v' } else if c == 'W' { 'w' } else if c == 'X' { 'x' }
    else if c == 'Y' { 'y' } else if c == 'Z' { 'z' } else { c }
}

/// ASCII lower-casing of a whole character sequence.
pub open spec fn lower(s: Seq<char>) -> Seq<char> {
    s.map_values(|c: char| lower_char(c))
}

fn lower_char_exec(c: char) -> (r: char)
    ensures
        r == lower_char(c),
{
    match c {
        'A' => 'a', 'B' => 'b', 'C' => 'c', 'D' => 'd', 'E' => 'e', 'F' => 'f',
        'G' => 'g', 'H' => 'h', 'I' => 'i', 'J' => 'j', 'K' => 'k', 'L' => 'l',
        'M' => 'm', 'N' => 'n', 'O' => 'o', 'P' => 'p', 'Q' => 'q', 'R' => 'r',
        'S' => 's', 'T' => 't', 'U' => 'u', 'V' => 'v', 'W' => 'w', 'X' => 'x',
        'Y' => 'y', 'Z' => 'z', _ => c,
    }
}

/// ASCII-case-insensitive string equality.
pub fn str_eq_ignore_ascii_case(a: &str, b: &str) -> (r: bool)
    ensures
        r == (lower(a@) == lower(b@)),
{
    let n = a.unicode_len();
    if n != b.unicode_len() {
        proof {
            assert(lower(a@).len() == a@.len());
            assert(lower(b@).len() == b@.len());
        }
        return false;
    }
    let mut i: usize = 0;
    while i < n
        invariant
            n == a@.len(),
            n == b@.len(),
            i <= n,
            forall|k: int| 0 <= k < i ==> lower_char(a@[k]) == lower_char(b@[k]),
        decreases n - i,
    {
        if lower_char_exec(a.get_char(i)) != lower_char_exec(b.get_char(i)) {
            assert(lower(a@)[i as int] != lower(b@)[i as int]);
            return false;
        }
        i = i + 1;
    }
    assert(lower(a@) =~= lower(b@));
    true
}

/// Index of the first occurrence of `c` in `s`, or `s.len()` if absent.
pub open spec fn find_char(s: Seq<char>, c: char) -> int
    decreases s.len(),
{
    if s.len() == 0 {
        0
    } else if s[0] == c {
        0
    } else {
        1 + find_char(s.drop_first(), c)
    }
}

pub proof fn lemma_find_char(s: Seq<char>, c: char)
    ensures
        0 <= find_char(s, c) <= s.len(),
        forall|k: int| 0 <= k < find_char(s, c) ==> s[k] != c,
        find_char(s, c) < s.len() ==> s[find_char(s, c)] == c,
    decreases s.len(),
{
    if s.len() > 0 && s[0] != c {
        lemma_find_char(s.drop_first(), c);
        assert(forall|k: int| 1 <= k < s.len() ==> s[k] == s.drop_first()[k - 1]);
    }
}

/// A line of the form `KEY=VALUE` with exactly one `=`.
pub open spec fn wf_kv_line(line: Seq<char>) -> bool {
    &&& find_char(line, '=') < line.len()
    &&& !line.skip(find_char(line, '=') + 1).contains('=')
}

/// The text before the only `=` of a well-formed line.
pub open spec fn line_key(line: Seq<char>) -> Seq<char> {
    line.take(find_char(line, '='))
}

/// The text after the only `=` of a well-formed line.
pub open spec fn line_value(line: Seq<char>) -> Seq<char> {
    line.skip(find_char(line, '=') + 1)
}

/// Splits a `KEY=VALUE` line at its only `=`; `None` for a line without
/// exactly one `=`, which the report parser skips.
pub fn split_kv(line: &str) -> (r: Option<(String, String)>)
    ensures
        r is Some <==> wf_kv_line(line@),
        r matches Some(kv) ==> kv.0@ == line_key(line@) && kv.1@ == line_value(line@),
{
    proof {
        lemma_find_char(line@, '=');
    }
    let n = line.unicode_len();
    let mut i: usize = 0;
    while i < n && line.get_char(i) != '='
        invariant
            n == line@.len(),
            i <= n,
            forall|k: int| 0 <= k < i ==> line@[k] != '=',
        decreases n - i,
    {
        i = i + 1;
    }
    if i == n {
        // no `=` at all
        assert(find_char(line@, '=') == n) by {
            if find_char(line@, '=') < n {
                assert(line@[find_char(line@, '=')] == '=');
            }
        }
        return None;
    }
    assert(line@[i as int] == '=');
    assert(find_char(line@, '=') == i) by {
        if find_char(line@, '=') < i {
            assert(line@[find_char(line@, '=')] == '=');
        }
        if find_char(line@, '=') > i {
            assert(line@[i as int] != '=');
        }
    }
    // scan the remainder for a second `=`
    let mut j: usize = i + 1;
    while j < n
        invariant
            n == line@.len(),
            i < j <= n,
            find_char(line@, '=') == i,
            forall|k: int| i < k < j ==> line@[k] != '=',
        decreases n - j,
    {
        if line.get_char(j) == '=' {
            assert(line@.skip(i + 1).contains('=')) by {
                assert(line@.skip(i + 1)[j - i - 1] == '=');
            }
            return None;
        }
        j = j + 1;
    }
    assert(!line@.skip(i + 1).contains('=')) by {
        assert forall|k: int| 0 <= k < line@.skip(i + 1).len() implies #[trigger] line@.skip(i + 1)[k] != '=' by {
            assert(line@.skip(i + 1)[k] == line@[k + i + 1]);
        }
    }
    let key = line.substring_char(0, i).to_owned();
    let value = line.substring_char(i + 1, n).to_owned();
    assert(key@ =~= line_key(line@));
    assert(value@ =~= line_value(line@));
    Some((key, value))
}

proof fn lemma_insert_stays_sorted(dv: Seq<Seq<char>>, idx: int, x: Seq<char>)
    requires
        strictly_sorted(dv),
        0 <= idx <= dv.len(),
        forall|k: int| 0 <= k < idx ==> lex_lt(dv[k], x),
        idx < dv.len() ==> lex_lt(x, dv[idx]),
    ensures
        strictly_sorted(dv.insert(idx, x)),
{
    let nv = dv.insert(idx, x);
    dv.insert_ensures(idx, x);
    assert forall|i: int, j: int| 0 <= i < j < nv.len() implies lex_lt(nv[i], nv[j]) by {
        if i < idx && j == idx {
            assert(lex_lt(dv[i], x));
        } else if i == idx && j > idx {
            assert(lex_lt(x, dv[idx]));
            if j > idx + 1 {
                lemma_lex_lt_transitive(x, dv[idx], dv[j - 1]);
            }
        } else if i < idx && j > idx {
            assert(lex_lt(dv[i], dv[j - 1]));
        } else if j < idx {
            assert(lex_lt(dv[i], dv[j]));
        } else if i > idx {
            assert(lex_lt(dv[i - 1], dv[j - 1]));
        }
    }
}

proof fn lemma_insert_to_set(dv: Seq<Seq<char>>, idx: int, x: Seq<char>)
    requires
        0 <= idx <= dv.len(),
    ensures
        dv.insert(idx, x).to_set() == dv.to_set().insert(x),
{
    let nv = dv.insert(idx, x);
    dv.insert_ensures(idx, x);
    assert forall|e: Seq<char>| nv.to_set().contains(e) implies dv.to_set().insert(x).contains(e) by {
        let k = choose|k: int| 0 <= k < nv.len() && nv[k] == e;
        if k < idx {
            assert(dv[k] == e);
        } else if k > idx {
            assert(dv[k - 1] == e);
        }
    }
    assert forall|e: Seq<char>| dv.to_set().insert(x).contains(e) implies nv.to_set().contains(e) by {
        if e == x {
            assert(nv[idx] == e);
        } else {
            let k = choose|k: int| 0 <= k < dv.len() && dv[k] == e;
            if k < idx {
                assert(nv[k] == e);
            } else {
                assert(nv[k + 1] == e);
            }
        }
    }
    assert(nv.to_set() =~= dv.to_set().insert(x));
}

/// Inserts `x` into a strictly sorted vector, keeping it sorted and
/// duplicate-free; inserting an element that is already present changes
/// nothing.
pub fn insert_sorted(v: &mut Vec<String>, x: String)
    requires
        strictly_sorted(old(v).deep_view()),
    ensures
        strictly_sorted(final(v).deep_view()),
        final(v).deep_view().to_set() == old(v).deep_view().to_set().insert(x@),
{
    let ghost dv = v.deep_view();
    let mut idx: usize = 0;
    while idx < v.len() && str_lt(v[idx].as_str(), x.as_str())
        invariant
            v.deep_view() == dv,
            strictly_sorted(dv),
            idx <= dv.len(),
            dv.len() == v.len(),
            forall|k: int| 0 <= k < idx ==> lex_lt(dv[k], x@),
        decreases v.len() - idx,
    {
        proof {
            assert(dv[idx as int] == v@[idx as int]@);
        }
        idx = idx + 1;
    }
    if idx < v.len() && str_eq(v[idx].as_str(), x.as_str()) {
        // already present
        assert(dv.to_set() =~= dv.to_set().insert(x@)) by {
            assert(dv.contains(x@)) by {
                assert(dv[idx as int] == v@[idx as int]@);
            }
        }
        return;
    }
    proof {
        if idx < dv.len() {
            assert(dv[idx as int] == v@[idx as int]@);
            lemma_lex_lt_connected(dv[idx as int], x@);
        }
    }
    v.insert(idx, x);
    proof {
        assert(v.deep_view() =~= dv.insert(idx as int, x@)) by {
            dv.insert_ensures(idx as int, x@);
            old(v)@.insert_ensures(idx as int, x);
            assert forall|k: int| 0 <= k < v.deep_view().len() implies v.deep_view()[k] == dv.insert(
                idx as int,
                x@,
            )[k] by {
                assert(v.deep_view()[k] == v@[k]@);
                assert(dv[k] == old(v)@[k]@ || k >= idx);
            }
        }
        lemma_insert_stays_sorted(dv, idx as int, x@);
        lemma_insert_to_set(dv, idx as int, x@);
    }
}

} // verus!
