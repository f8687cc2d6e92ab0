//! What holds of the string operations.

use vstd::prelude::*;
use crate::text::{
    contains, is_whitespace, occurs_at, replace_all, slash_prefixed, starts_with, strip_trailing,
    trim_end, trim_start, trimmed,
};

verus! {

/// Stripping a trailing run leaves a prefix that does not end in the
/// character, and everything after it is that character.
pub proof fn lemma_strip_trailing(s: Seq<char>, c: char)
    ensures
        strip_trailing(s, c).len() <= s.len(),
        strip_trailing(s, c) == s.take(strip_trailing(s, c).len() as int),
        strip_trailing(s, c).len() > 0 ==> strip_trailing(s, c).last() != c,
        forall|i: int| strip_trailing(s, c).len() <= i < s.len() ==> s[i] == c,
    decreases s.len(),
{
    if s.len() > 0 && s.last() == c {
        let t = s.drop_last();
        lemma_strip_trailing(t, c);
        let r = strip_trailing(t, c);
        assert(t.take(r.len() as int) == s.take(r.len() as int));
        assert forall|i: int| r.len() <= i < s.len() implies s[i] == c by {
            if i < t.len() {
                assert(t[i] == s[i]);
            }
        }
    } else {
        assert(s.take(s.len() as int) == s);
    }
}

/// A string that does not end in the character is left as it is.
pub proof fn lemma_strip_trailing_fixed(s: Seq<char>, c: char)
    requires
        s.len() == 0 || s.last() != c,
    ensures
        strip_trailing(s, c) == s,
{
}

/// One more of the character at the end changes nothing.
pub proof fn lemma_strip_trailing_one_more(s: Seq<char>, c: char)
    ensures
        strip_trailing(s.push(c), c) == strip_trailing(s, c),
{
    assert(s.push(c).drop_last() == s);
}

/// Whatever stands in front stays, as long as something is left behind it.
pub proof fn lemma_strip_trailing_behind(a: Seq<char>, b: Seq<char>, c: char)
    requires
        strip_trailing(b, c).len() > 0,
    ensures
        strip_trailing(a + b, c) == a + strip_trailing(b, c),
    decreases b.len(),
{
    if b.len() > 0 && b.last() == c {
        assert((a + b).drop_last() == a + b.drop_last());
        lemma_strip_trailing_behind(a, b.drop_last(), c);
    }
}

/// A prefix in which the character does not occur survives the stripping.
pub proof fn lemma_strip_trailing_keeps_prefix(s: Seq<char>, pat: Seq<char>, c: char)
    requires
        starts_with(s, pat),
        !pat.contains(c),
    ensures
        starts_with(strip_trailing(s, c), pat),
{
    lemma_strip_trailing(s, c);
    let r = strip_trailing(s, c);
    if r.len() < pat.len() {
        let i = r.len() as int;
        assert(s.subrange(0, pat.len() as int)[i] == s[i]);
        assert(pat[i] == c);
        assert(pat.contains(c));
    }
    assert(r.subrange(0, pat.len() as int) == s.subrange(0, pat.len() as int));
}

/// What occurs in the second part occurs in the whole.
pub proof fn lemma_contains_in_tail(a: Seq<char>, b: Seq<char>, pat: Seq<char>)
    requires
        contains(b, pat),
    ensures
        contains(a + b, pat),
{
    let i = choose|i: int| occurs_at(b, pat, i);
    assert((a + b).subrange(a.len() + i, a.len() + i + pat.len()) == b.subrange(
        i,
        i + pat.len(),
    ));
    assert(occurs_at(a + b, pat, a.len() + i));
}

/// What occurs in the first part occurs in the whole.
pub proof fn lemma_contains_in_head(a: Seq<char>, b: Seq<char>, pat: Seq<char>)
    requires
        contains(a, pat),
    ensures
        contains(a + b, pat),
{
    let i = choose|i: int| occurs_at(a, pat, i);
    assert((a + b).subrange(i, i + pat.len()) == a.subrange(i, i + pat.len()));
    assert(occurs_at(a + b, pat, i));
}

/// What occurs in a string occurs in it behind a leading slash.
pub proof fn lemma_slash_prefixed_keeps(s: Seq<char>, pat: Seq<char>)
    requires
        contains(s, pat),
    ensures
        contains(slash_prefixed(s), pat),
{
    if !(s.len() > 0 && s[0] == '/') {
        lemma_contains_in_tail(seq!['/'], s, pat);
    }
}

/// Where no occurrence of the pattern starts within the first `m` characters,
/// these are copied and the replacement goes on behind them.
pub proof fn lemma_replace_skips(s: Seq<char>, pat: Seq<char>, rep: Seq<char>, m: int)
    requires
        0 <= m <= s.len(),
        forall|j: int| 0 <= j < m ==> !occurs_at(s, pat, j),
    ensures
        replace_all(s, pat, rep) == s.take(m) + replace_all(s.skip(m), pat, rep),
    decreases m,
{
    if m == 0 {
        assert(s.skip(0) == s);
        assert(s.take(0) + replace_all(s, pat, rep) == replace_all(s, pat, rep));
    } else if pat.len() == 0 || s.len() < pat.len() {
        assert(s.skip(m).len() < pat.len() || pat.len() == 0);
        assert(s.take(m) + s.skip(m) == s);
    } else {
        assert(!occurs_at(s, pat, 0));
        let t = s.skip(1);
        assert forall|j: int| 0 <= j < m - 1 implies !occurs_at(t, pat, j) by {
            if j + pat.len() <= t.len() {
                assert(t.subrange(j, j + pat.len()) == s.subrange(j + 1, j + 1 + pat.len()));
            }
            assert(!occurs_at(s, pat, j + 1));
        }
        lemma_replace_skips(t, pat, rep, m - 1);
        assert(t.skip(m - 1) == s.skip(m));
        assert(seq![s[0]] + t.take(m - 1) == s.take(m));
        assert(seq![s[0]] + (t.take(m - 1) + replace_all(s.skip(m), pat, rep)) == s.take(m)
            + replace_all(s.skip(m), pat, rep));
    }
}

/// A string in which the pattern does not occur is left as it is.
pub proof fn lemma_replace_without_match(s: Seq<char>, pat: Seq<char>, rep: Seq<char>)
    requires
        !contains(s, pat),
    ensures
        replace_all(s, pat, rep) == s,
{
    lemma_replace_skips(s, pat, rep, s.len() as int);
    assert(s.skip(s.len() as int) == Seq::<char>::empty());
    assert(s.take(s.len() as int) == s);
    assert(s + Seq::<char>::empty() == s);
}

/// A string that begins with the pattern begins with the replacement
/// afterwards, and the replacement goes on behind the pattern.
pub proof fn lemma_replace_at_start(
    pat: Seq<char>,
    rep: Seq<char>,
    tail: Seq<char>,
)
    requires
        pat.len() > 0,
    ensures
        replace_all(pat + tail, pat, rep) == rep + replace_all(tail, pat, rep),
{
    let s = pat + tail;
    assert(s.subrange(0, pat.len() as int) == pat);
    assert(s.skip(pat.len() as int) == tail);
}

/// A replacement keeps an occurrence of a needle that no occurrence of the
/// pattern can touch: the needle's first character is none of the pattern's,
/// and the pattern's first character is none of the needle's.
pub proof fn lemma_replace_keeps(
    s: Seq<char>,
    pat: Seq<char>,
    rep: Seq<char>,
    needle: Seq<char>,
)
    requires
        pat.len() > 0,
        needle.len() > 0,
        !pat.contains(needle[0]),
        !needle.contains(pat[0]),
        contains(s, needle),
    ensures
        contains(replace_all(s, pat, rep), needle),
    decreases s.len(),
{
    let k = choose|k: int| occurs_at(s, needle, k);
    assert(s.subrange(k, k + needle.len())[0] == s[k]);
    if s.len() < pat.len() {
    } else if starts_with(s, pat) {
        let t = s.skip(pat.len() as int);
        if k < pat.len() {
            assert(s.subrange(0, pat.len() as int)[k] == s[k]);
            assert(pat[k] == needle[0]);
            assert(pat.contains(needle[0]));
        }
        assert(t.subrange(k - pat.len(), k - pat.len() + needle.len()) == s.subrange(
            k,
            k + needle.len(),
        ));
        assert(occurs_at(t, needle, k - pat.len()));
        lemma_replace_keeps(t, pat, rep, needle);
        lemma_contains_in_tail(rep, replace_all(t, pat, rep), needle);
    } else if k > 0 {
        let t = s.skip(1);
        assert(t.subrange(k - 1, k - 1 + needle.len()) == s.subrange(k, k + needle.len()));
        assert(occurs_at(t, needle, k - 1));
        lemma_replace_keeps(t, pat, rep, needle);
        lemma_contains_in_tail(seq![s[0]], replace_all(t, pat, rep), needle);
    } else {
        let m = needle.len() as int;
        assert forall|j: int| 0 <= j < m implies !occurs_at(s, pat, j) by {
            if occurs_at(s, pat, j) {
                assert(s.subrange(j, j + pat.len())[0] == s[j]);
                assert(s.subrange(0, m)[j] == s[j]);
                assert(needle[j] == pat[0]);
                assert(needle.contains(pat[0]));
            }
        }
        lemma_replace_skips(s, pat, rep, m);
        assert(s.take(m) == needle);
        assert(occurs_at(needle, needle, 0)) by {
            assert(needle.subrange(0, m) == needle);
        }
        lemma_contains_in_head(needle, replace_all(s.skip(m), pat, rep), needle);
    }
}

/// Trimming the start leaves a suffix that does not begin with whitespace.
pub proof fn lemma_trim_start(s: Seq<char>)
    ensures
        trim_start(s).len() <= s.len(),
        trim_start(s) == s.skip(s.len() - trim_start(s).len()),
        trim_start(s).len() > 0 ==> !is_whitespace(trim_start(s)[0]),
    decreases s.len(),
{
    if s.len() > 0 && is_whitespace(s[0]) {
        let t = s.skip(1);
        lemma_trim_start(t);
        assert(t.skip(t.len() - trim_start(t).len()) == s.skip(s.len() - trim_start(t).len()));
    } else {
        assert(s.skip(0) == s);
    }
}

/// Trimming the end leaves a prefix that does not end in whitespace.
pub proof fn lemma_trim_end(s: Seq<char>)
    ensures
        trim_end(s).len() <= s.len(),
        trim_end(s) == s.take(trim_end(s).len() as int),
        trim_end(s).len() > 0 ==> !is_whitespace(trim_end(s).last()),
    decreases s.len(),
{
    if s.len() > 0 && is_whitespace(s.last()) {
        let t = s.drop_last();
        lemma_trim_end(t);
        assert(t.take(trim_end(t).len() as int) == s.take(trim_end(t).len() as int));
    } else {
        assert(s.take(s.len() as int) == s);
    }
}

/// A string with no whitespace at either end is left as it is.
pub proof fn lemma_trimmed_fixed(s: Seq<char>)
    requires
        s.len() > 0 ==> !is_whitespace(s[0]) && !is_whitespace(s.last()),
    ensures
        trimmed(s) == s,
{
}

/// Trimming twice is trimming once.
pub proof fn lemma_trimmed_idempotent(s: Seq<char>)
    ensures
        trimmed(trimmed(s)) == trimmed(s),
{
    let x = trim_start(s);
    lemma_trim_start(s);
    lemma_trim_end(x);
    let y = trim_end(x);
    if y.len() > 0 {
        assert(y[0] == x[0]);
    }
    lemma_trimmed_fixed(y);
}

} // verus!
