//! Character-level helpers for walking a protocol line: the whitespace
//! predicate used by the blank-line check, first-occurrence search, and
//! character-wise string equality.

use vstd::prelude::*;

verus! {

/// A whitespace character, as the blank-line check understands it: the
/// Unicode `White_Space` set.
pub open spec fn is_ws(c: char) -> bool {
    c == ' ' || c == '\t' || c == '\n' || c == '\r' || c == '\u{b}' || c == '\u{c}'
        || c == '\u{85}' || c == '\u{a0}' || c == '\u{1680}' || c == '\u{2000}' || c == '\u{2001}'
        || c == '\u{2002}' || c == '\u{2003}' || c == '\u{2004}' || c == '\u{2005}'
        || c == '\u{2006}' || c == '\u{2007}' || c == '\u{2008}' || c == '\u{2009}'
        || c == '\u{200a}' || c == '\u{2028}' || c == '\u{2029}' || c == '\u{202f}'
        || c == '\u{205f}' || c == '\u{3000}'
}

/// Every character of `s` is whitespace; true of the empty sequence.
pub open spec fn all_ws(s: Seq<char>) -> bool {
    forall|i: int| 0 <= i < s.len() ==> is_ws(s[i])
}

/// Executable form of `is_ws`.
pub fn is_ws_char(c: char) -> (r: bool)
    ensures
        r == is_ws(c),
{
    c == ' ' || c == '\t' || c == '\n' || c == '\r' || c == '\u{b}' || c == '\u{c}'
        || c == '\u{85}' || c == '\u{a0}' || c == '\u{1680}' || c == '\u{2000}' || c == '\u{2001}'
        || c == '\u{2002}' || c == '\u{2003}' || c == '\u{2004}' || c == '\u{2005}'
        || c == '\u{2006}' || c == '\u{2007}' || c == '\u{2008}' || c == '\u{2009}'
        || c == '\u{200a}' || c == '\u{2028}' || c == '\u{2029}' || c == '\u{202f}'
        || c == '\u{205f}' || c == '\u{3000}'
}

/// Whether `s` is empty or made of whitespace alone.
pub fn is_blank(s: &str) -> (r: bool)
    ensures
        r == all_ws(s@),
{
    let n: usize = s.unicode_len();
    let mut i: usize = 0;
    while i < n
        invariant
            n == s@.len(),
            i <= n,
            forall|k: int| 0 <= k < i ==> is_ws(s@[k]),
        decreases n - i,
    {
        if !is_ws_char(s.get_char(i)) {
            assert(!is_ws(s@[i as int]));
            return false;
        }
        i += 1;
    }
    true
}

/// Index of the first occurrence of `c` in `s` at or after `from`.
pub open spec fn spec_find_from(s: Seq<char>, c: char, from: nat) -> Option<nat>
    decreases s.len() - from,
{
    if from >= s.len() {
        None
    } else if s[from as int] == c {
        Some(from)
    } else {
        spec_find_from(s, c, (from + 1) as nat)
    }
}

/// Index of the first occurrence of `c` in `s`.
pub open spec fn spec_find(s: Seq<char>, c: char) -> Option<nat> {
    spec_find_from(s, c, 0)
}

/// What `spec_find_from` returns: the least index in `[from, s.len())`
/// holding `c`, or nothing when `c` does not occur there.
pub proof fn lemma_find_from(s: Seq<char>, c: char, from: nat)
    requires
        from <= s.len(),
    ensures
        match spec_find_from(s, c, from) {
            Some(i) => from <= i < s.len() && s[i as int] == c && (forall|k: int|
                from <= k < i ==> s[k] != c),
            None => forall|k: int| from <= k < s.len() ==> s[k] != c,
        },
    decreases s.len() - from,
{
    if from < s.len() && s[from as int] != c {
        lemma_find_from(s, c, (from + 1) as nat);
    }
}

/// A character at `i` with none of its kind before it is what `spec_find`
/// returns.
pub proof fn lemma_find_at(s: Seq<char>, c: char, i: nat)
    requires
        i < s.len(),
        s[i as int] == c,
        forall|k: int| 0 <= k < i ==> s[k] != c,
    ensures
        spec_find(s, c) == Some(i),
{
    lemma_find_from(s, c, 0);
    match spec_find(s, c) {
        Some(j) => {
            if j < i {
                assert(s[j as int] != c);
            } else if j > i {
                assert(s[i as int] != c);
            }
        },
        None => {
            assert(s[i as int] != c);
        },
    }
}

/// A character that occurs nowhere in `s` is not found.
pub proof fn lemma_find_absent(s: Seq<char>, c: char)
    requires
        forall|k: int| 0 <= k < s.len() ==> s[k] != c,
    ensures
        spec_find(s, c) is None,
{
    lemma_find_from(s, c, 0);
    match spec_find(s, c) {
        Some(j) => {
            assert(s[j as int] != c);
        },
        None => {},
    }
}

/// First occurrence of `c` in `s`, by character index.
pub fn find_char(s: &str, c: char) -> (r: Option<usize>)
    ensures
        match r {
            Some(i) => i < s@.len() && s@[i as int] == c && spec_find(s@, c) == Some(i as nat)
                && (forall|k: int| 0 <= k < i ==> s@[k] != c),
            None => spec_find(s@, c) is None && (forall|k: int| 0 <= k < s@.len() ==> s@[k] != c),
        },
{
    let n: usize = s.unicode_len();
    let mut i: usize = 0;
    while i < n
        invariant
            n == s@.len(),
            i <= n,
            spec_find(s@, c) == spec_find_from(s@, c, i as nat),
            forall|k: int| 0 <= k < i ==> s@[k] != c,
        decreases n - i,
    {
        if s.get_char(i) == c {
            assert(spec_find_from(s@, c, i as nat) == Some(i as nat));
            return Some(i);
        }
        assert(spec_find_from(s@, c, i as nat) == spec_find_from(s@, c, (i + 1) as nat));
        i += 1;
    }
    assert(spec_find_from(s@, c, i as nat) is None);
    None
}

/// Character-wise string equality, stated over the views.
pub fn str_eq(a: &str, b: &str) -> (r: bool)
    ensures
        r == (a@ == b@),
{
    let na: usize = a.unicode_len();
    let nb: usize = b.unicode_len();
    if na != nb {
        return false;
    }
    let mut i: usize = 0;
    while i < na
        invariant
            na == a@.len(),
            na == b@.len(),
            i <= na,
            forall|k: int| 0 <= k < i ==> a@[k] == b@[k],
        decreases na - i,
    {
        if a.get_char(i) != b.get_char(i) {
            assert(a@[i as int] != b@[i as int]);
            return false;
        }
        i += 1;
    }
    proof {
        assert(a@ =~= b@);
    }
    true
}

} // verus!
