//! Normalization of captured selection text: trimming of leading and
//! trailing whitespace and truncation to a fixed number of Unicode scalar
//! values.

use vstd::prelude::*;

verus! {

/// Upper bound on the number of Unicode scalar values a capture result may
/// carry; longer text is truncated, never rejected.
pub const MAX_SELECTION_CHARS: usize = 12000;

/// The Unicode `White_Space` characters, the set `str::trim` strips.
pub open spec fn is_ws_char(c: char) -> bool {
    c == '\u{9}' || c == '\u{a}' || c == '\u{b}' || c == '\u{c}' || c == '\u{d}'
        || c == ' ' || c == '\u{85}' || c == '\u{a0}' || c == '\u{1680}'
        || c == '\u{2000}' || c == '\u{2001}' || c == '\u{2002}' || c == '\u{2003}'
        || c == '\u{2004}' || c == '\u{2005}' || c == '\u{2006}' || c == '\u{2007}'
        || c == '\u{2008}' || c == '\u{2009}' || c == '\u{200a}' || c == '\u{2028}'
        || c == '\u{2029}' || c == '\u{202f}' || c == '\u{205f}' || c == '\u{3000}'
}

/// Decides whether `c` is a Unicode whitespace character.
pub fn is_whitespace_char(c: char) -> (r: bool)
    ensures
        r == is_ws_char(c),
{
    c == '\u{9}' || c == '\u{a}' || c == '\u{b}' || c == '\u{c}' || c == '\u{d}'
        || c == ' ' || c == '\u{85}' || c == '\u{a0}' || c == '\u{1680}'
        || c == '\u{2000}' || c == '\u{2001}' || c == '\u{2002}' || c == '\u{2003}'
        || c == '\u{2004}' || c == '\u{2005}' || c == '\u{2006}' || c == '\u{2007}'
        || c == '\u{2008}' || c == '\u{2009}' || c == '\u{200a}' || c == '\u{2028}'
        || c == '\u{2029}' || c == '\u{202f}' || c == '\u{205f}' || c == '\u{3000}'
}

/// The sequence with its leading whitespace removed.
pub open spec fn trim_start_spec(s: Seq<char>) -> Seq<char>
    decreases s.len(),
{
    if s.len() == 0 {
        s
    } else if is_ws_char(s[0]) {
        trim_start_spec(s.drop_first())
    } else {
        s
    }
}

/// The sequence with its trailing whitespace removed.
pub open spec fn trim_end_spec(s: Seq<char>) -> Seq<char>
    decreases s.len(),
{
    if s.len() == 0 {
        s
    } else if is_ws_char(s.last()) {
        trim_end_spec(s.drop_last())
    } else {
        s
    }
}

/// The sequence with leading and trailing whitespace removed.
pub open spec fn trim_spec(s: Seq<char>) -> Seq<char> {
    trim_end_spec(trim_start_spec(s))
}

/// What a capture result looks like after normalization: trimmed, and cut to
/// at most `MAX_SELECTION_CHARS` scalar values with no marker appended.
pub open spec fn normalize_spec(s: Seq<char>) -> Seq<char> {
    let t = trim_spec(s);
    if t.len() <= MAX_SELECTION_CHARS {
        t
    } else {
        t.take(MAX_SELECTION_CHARS as int)
    }
}

proof fn lemma_trim_start_is_skip(s: Seq<char>, i: int)
    requires
        0 <= i <= s.len(),
        forall|k: int| 0 <= k < i ==> is_ws_char(s[k]),
        i < s.len() ==> !is_ws_char(s[i]),
    ensures
        trim_start_spec(s) == s.skip(i),
    decreases i,
{
    if i == 0 {
        assert(s.skip(0) =~= s);
    } else {
        let t = s.drop_first();
        assert(forall|k: int| 0 <= k < t.len() ==> t[k] == s[k + 1]);
        lemma_trim_start_is_skip(t, i - 1);
        assert(t.skip(i - 1) =~= s.skip(i));
    }
}

proof fn lemma_trim_end_is_take(s: Seq<char>, j: int)
    requires
        0 <= j <= s.len(),
        forall|k: int| j <= k < s.len() ==> is_ws_char(s[k]),
        j > 0 ==> !is_ws_char(s[j - 1]),
    ensures
        trim_end_spec(s) == s.take(j),
    decreases s.len(),
{
    if j == s.len() {
        if s.len() == 0 {
            assert(s.take(0) =~= s);
        } else {
            assert(!is_ws_char(s.last()));
            assert(s.take(j) =~= s);
        }
    } else {
        let t = s.drop_last();
        assert(is_ws_char(s.last()));
        assert(forall|k: int| 0 <= k < t.len() ==> t[k] == s[k]);
        lemma_trim_end_is_take(t, j);
        assert(t.take(j) =~= s.take(j));
    }
}

/// Truncation changes nothing about the first `MAX_SELECTION_CHARS` scalar
/// values: when the trimmed text is longer than the bound, the normalized
/// text is exactly its first `MAX_SELECTION_CHARS` scalar values, and when it
/// is not, the normalized text is the trimmed text itself.
pub proof fn lemma_normalize_truncates(s: Seq<char>)
    ensures
        trim_spec(s).len() > MAX_SELECTION_CHARS ==> normalize_spec(s) == trim_spec(s).take(
            MAX_SELECTION_CHARS as int,
        ) && normalize_spec(s).len() == MAX_SELECTION_CHARS,
        trim_spec(s).len() <= MAX_SELECTION_CHARS ==> normalize_spec(s) == trim_spec(s),
{
}

/// Trims leading and trailing whitespace from `value` and truncates the
/// result to at most `MAX_SELECTION_CHARS` Unicode scalar values.
pub fn normalize_selection_text(value: &str) -> (r: String)
    ensures
        r@ == normalize_spec(value@),
{
    let n = value.unicode_len();
    let mut start: usize = 0;
    while start < n && is_whitespace_char(value.get_char(start))
        invariant
            n == value@.len(),
            0 <= start <= n,
            forall|k: int| 0 <= k < start ==> is_ws_char(value@[k]),
        decreases n - start,
    {
        start = start + 1;
    }
    proof {
        lemma_trim_start_is_skip(value@, start as int);
    }
    if start == n {
        proof {
            assert(value@.skip(start as int) =~= Seq::<char>::empty());
            assert(trim_end_spec(Seq::<char>::empty()) == Seq::<char>::empty());
        }
        return String::new();
    }

    // The character at `start` is not whitespace, so this scan stops before
    // it and the trimmed region is never empty.
    let mut end: usize = n;
    while is_whitespace_char(value.get_char(end - 1))
        invariant
            n == value@.len(),
            start < end <= n,
            !is_ws_char(value@[start as int]),
            forall|k: int| end <= k < n ==> is_ws_char(value@[k]),
        decreases end,
    {
        end = end - 1;
    }
    proof {
        let t = value@.skip(start as int);
        assert(forall|k: int| end - start <= k < t.len() ==> is_ws_char(t[k]));
        assert(t[0] == value@[start as int]);
        lemma_trim_end_is_take(t, end - start);
    }

    let len = end - start;
    let keep = if len <= MAX_SELECTION_CHARS {
        len
    } else {
        MAX_SELECTION_CHARS
    };
    let sub = value.substring_char(start, start + keep);
    proof {
        let t = value@.skip(start as int);
        assert(value@.subrange(start as int, (start + keep) as int) =~= t.take(end - start).take(
            keep as int,
        ));
        if len <= MAX_SELECTION_CHARS {
            assert(t.take(end - start).take(keep as int) =~= t.take(end - start));
        }
    }
    sub.to_owned()
}

} // verus!
