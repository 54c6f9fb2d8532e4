//! Edit-distance computation used to reason about near-miss station names.

use vstd::prelude::*;

verus! {

/// Minimum of three natural numbers.
pub open spec fn spec_min3(x: nat, y: nat, z: nat) -> nat {
    if x <= y && x <= z {
        x
    } else if y <= z {
        y
    } else {
        z
    }
}

/// The Levenshtein (edit) distance between two character sequences: the least
/// number of single-character insertions, deletions and substitutions that
/// turns one into the other, written in its classical recursive form.
pub open spec fn edit_distance(a: Seq<char>, b: Seq<char>) -> nat
    decreases a.len() + b.len(),
{
    if a.len() == 0 {
        b.len()
    } else if b.len() == 0 {
        a.len()
    } else if a[0] == b[0] {
        edit_distance(a.drop_first(), b.drop_first())
    } else {
        1 + spec_min3(
            edit_distance(a.drop_first(), b),
            edit_distance(a, b.drop_first()),
            edit_distance(a.drop_first(), b.drop_first()),
        )
    }
}

/// The edit distance never exceeds the length of the longer sequence.
pub proof fn lemma_edit_distance_le(a: Seq<char>, b: Seq<char>)
    ensures
        edit_distance(a, b) <= a.len() || edit_distance(a, b) <= b.len(),
        edit_distance(a, b) <= a.len() + b.len(),
    decreases a.len() + b.len(),
{
    if a.len() == 0 {
    } else if b.len() == 0 {
    } else if a[0] == b[0] {
        lemma_edit_distance_le(a.drop_first(), b.drop_first());
    } else {
        lemma_edit_distance_le(a.drop_first(), b);
        lemma_edit_distance_le(a, b.drop_first());
        lemma_edit_distance_le(a.drop_first(), b.drop_first());
    }
}

fn head(s: &str) -> (c: char)
    requires
        s@.len() > 0,
    ensures
        c == s@[0],
{
    s.get_char(0)
}

fn min3(x: usize, y: usize, z: usize) -> (m: usize)
    ensures
        m == spec_min3(x as nat, y as nat, z as nat),
{
    let min_xy: usize = if x < y {
        x
    } else {
        y
    };
    if min_xy < z {
        min_xy
    } else {
        z
    }
}

/// Computes the edit distance between two strings, counted in characters.
pub fn levenshtein_distance(s1: &str, s2: &str) -> (d: usize)
    ensures
        d == edit_distance(s1@, s2@),
    decreases s1@.len() + s2@.len(),
{
    let n1 = s1.unicode_len();
    let n2 = s2.unicode_len();
    if n1 == 0 {
        return n2;
    }
    if n2 == 0 {
        return n1;
    }
    if head(s1) == head(s2) {
        return levenshtein_distance(s1.substring_char(1, n1), s2.substring_char(1, n2));
    }

    let dis1 = levenshtein_distance(s1.substring_char(1, n1), s2);
    let dis2 = levenshtein_distance(s1, s2.substring_char(1, n2));
    let dis3 = levenshtein_distance(s1.substring_char(1, n1), s2.substring_char(1, n2));

    proof {
        lemma_edit_distance_le(s1@.drop_first(), s2@.drop_first());
    }
    1 + min3(dis1, dis2, dis3)
}

} // verus!
