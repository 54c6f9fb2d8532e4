//! Station-name text handling: finding and stripping parenthetical
//! qualifiers, and substring search.
//!
//! A name like `Edgware Road (Circle Line)` carries a parenthetical
//! qualifier; the index also stores the name with the qualifier stripped, so
//! either form matches. Stripping removes every segment that starts at an
//! opening parenthesis and ends at the next closing one; an opening
//! parenthesis with no closing one after it stays as it is.

use vstd::prelude::*;

verus! {

/// Position of the first closing parenthesis at or after `i`, or the length
/// of the sequence if there is none.
pub open spec fn find_close(s: Seq<char>, i: int) -> int
    decreases s.len() - i,
{
    if i >= s.len() {
        s.len() as int
    } else if s[i] == ')' {
        i
    } else {
        find_close(s, i + 1)
    }
}

/// Where the first closing parenthesis lies: between `i` and the end of the
/// sequence, on a closing parenthesis if there is one, with none before it.
pub proof fn lemma_find_close_props(s: Seq<char>, i: int)
    requires
        0 <= i <= s.len(),
    ensures
        i <= find_close(s, i) <= s.len(),
        find_close(s, i) < s.len() ==> s[find_close(s, i)] == ')',
        forall|j: int| i <= j < find_close(s, i) ==> s[j] != ')',
    decreases s.len() - i,
{
    if i >= s.len() {
    } else if s[i] == ')' {
    } else {
        lemma_find_close_props(s, i + 1);
    }
}

/// The tail of `s` from position `i` with every parenthetical qualifier
/// removed: each segment from an opening parenthesis to the next closing one
/// drops out; everything else stays.
pub open spec fn strip_parens(s: Seq<char>, i: int) -> Seq<char>
    decreases s.len() - i,
    when i >= 0
    via strip_parens_decreases
{
    if i >= s.len() {
        Seq::empty()
    } else if s[i] == '(' && find_close(s, i + 1) < s.len() {
        strip_parens(s, find_close(s, i + 1) + 1)
    } else {
        seq![s[i]] + strip_parens(s, i + 1)
    }
}

#[via_fn]
proof fn strip_parens_decreases(s: Seq<char>, i: int) {
    if i < s.len() && s[i] == '(' && find_close(s, i + 1) < s.len() {
        lemma_find_close_props(s, i + 1);
    }
}

/// The name holds a parenthetical qualifier: an opening parenthesis with a
/// closing one somewhere after it.
pub open spec fn has_parenthetical(s: Seq<char>) -> bool {
    exists|i: int, j: int| 0 <= i < j < s.len() && s[i] == '(' && s[j] == ')'
}

/// `needle` occurs contiguously somewhere in `hay`.
pub open spec fn contains_seq(hay: Seq<char>, needle: Seq<char>) -> bool {
    exists|i: int|
        0 <= i <= hay.len() - needle.len() && #[trigger] hay.subrange(i, i + needle.len())
            == needle
}

/// The token strings indexed for a station name: the name itself and, when
/// it has a parenthetical qualifier, the name with the qualifiers stripped
/// as well.
pub open spec fn tokens_for(name: Seq<char>) -> Seq<Seq<char>> {
    if has_parenthetical(name) {
        seq![name, strip_parens(name, 0)]
    } else {
        seq![name]
    }
}

/// Finds the first closing parenthesis at or after `start`, returning the
/// string's length if there is none.
fn find_close_from(s: &str, start: usize) -> (r: usize)
    requires
        start <= s@.len(),
        s@.len() <= usize::MAX,
    ensures
        r == find_close(s@, start as int),
{
    let n = s.unicode_len();
    let mut i = start;
    while i < n
        invariant
            start <= i <= n,
            n == s@.len(),
            find_close(s@, start as int) == find_close(s@, i as int),
        decreases n - i,
    {
        if s.get_char(i) == ')' {
            return i;
        }
        i = i + 1;
    }
    n
}

/// Whether the name holds a parenthetical qualifier.
pub fn has_parenthetical_str(s: &str) -> (r: bool)
    ensures
        r == has_parenthetical(s@),
{
    let n = s.unicode_len();
    let mut i: usize = 0;
    while i < n
        invariant
            0 <= i <= n,
            n == s@.len(),
            forall|k: int| 0 <= k < i ==> s@[k] != '(',
        decreases n - i,
    {
        if s.get_char(i) == '(' {
            let close = find_close_from(s, i + 1);
            proof {
                lemma_find_close_props(s@, i + 1);
            }
            if close < n {
                proof {
                    assert(s@[i as int] == '(' && s@[close as int] == ')');
                    assert(has_parenthetical(s@));
                }
                return true;
            } else {
                proof {
                    assert forall|a: int, b: int|
                        0 <= a < b < s@.len() implies !(s@[a] == '(' && s@[b] == ')') by {
                        if s@[a] == '(' && s@[b] == ')' {
                            if a < i {
                                assert(s@[a] != '(');
                            } else {
                                assert(i + 1 <= b < s@.len());
                                assert(s@[b] != ')');
                            }
                        }
                    }
                }
                return false;
            }
        }
        i = i + 1;
    }
    proof {
        assert forall|a: int, b: int|
            0 <= a < b < s@.len() implies !(s@[a] == '(' && s@[b] == ')') by {
            assert(s@[a] != '(');
        }
    }
    false
}

/// Strips every parenthetical qualifier out of the name.
pub fn strip_parenthetical(s: &str) -> (r: String)
    ensures
        r@ == strip_parens(s@, 0),
{
    let n = s.unicode_len();
    let mut out = String::new();
    let mut i: usize = 0;
    while i < n
        invariant
            0 <= i <= n,
            n == s@.len(),
            out@ + strip_parens(s@, i as int) == strip_parens(s@, 0),
        decreases n - i,
    {
        let c = s.get_char(i);
        if c == '(' {
            let close = find_close_from(s, i + 1);
            if close < n {
                proof {
                    lemma_find_close_props(s@, i + 1);
                }
                i = close + 1;
                continue;
            }
        }
        out.append(s.substring_char(i, i + 1));
        proof {
            assert(s@.subrange(i as int, i + 1) =~= seq![s@[i as int]]);
            assert(out@ + strip_parens(s@, i + 1) =~= strip_parens(s@, 0));
        }
        i = i + 1;
    }
    proof {
        assert(out@ =~= strip_parens(s@, 0));
    }
    out
}

/// Whether `needle` matches `hay` at position `at`.
fn matches_at(hay: &str, needle: &str, at: usize, hay_len: usize, needle_len: usize) -> (r: bool)
    requires
        hay_len == hay@.len(),
        needle_len == needle@.len(),
        at + needle_len <= hay_len,
    ensures
        r == (hay@.subrange(at as int, at + needle@.len()) == needle@),
{
    let mut j: usize = 0;
    while j < needle_len
        invariant
            0 <= j <= needle_len,
            hay_len == hay@.len(),
            needle_len == needle@.len(),
            at + needle_len <= hay_len,
            forall|k: int| 0 <= k < j ==> hay@[at + k] == needle@[k],
        decreases needle_len - j,
    {
        if hay.get_char(at + j) != needle.get_char(j) {
            proof {
                assert(hay@.subrange(at as int, at + needle@.len())[j as int] == hay@[at + j]);
            }
            return false;
        }
        j = j + 1;
    }
    proof {
        assert(hay@.subrange(at as int, at + needle@.len()) =~= needle@);
    }
    true
}

/// Whether `needle` occurs contiguously somewhere in `hay`.
pub fn contains_substring(hay: &str, needle: &str) -> (r: bool)
    ensures
        r == contains_seq(hay@, needle@),
{
    let hay_len = hay.unicode_len();
    let needle_len = needle.unicode_len();
    if needle_len > hay_len {
        return false;
    }
    if needle_len == 0 {
        proof {
            assert(hay@.subrange(0, 0 + needle@.len() as int) =~= needle@);
            assert(contains_seq(hay@, needle@));
        }
        return true;
    }
    let mut i: usize = 0;
    while i <= hay_len - needle_len
        invariant
            0 <= i <= hay_len - needle_len + 1,
            1 <= needle_len <= hay_len,
            hay_len == hay@.len(),
            needle_len == needle@.len(),
            forall|k: int|
                0 <= k < i ==> #[trigger] hay@.subrange(k, k + needle@.len()) != needle@,
        decreases hay_len - needle_len - i + 1,
    {
        if matches_at(hay, needle, i, hay_len, needle_len) {
            return true;
        }
        i = i + 1;
    }
    false
}

} // verus!
