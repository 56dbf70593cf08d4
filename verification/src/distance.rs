//! Edit distance between two texts: its definition, the laws that follow
//! from it, and a verified computation that fills the edit table row by
//! row.

use vstd::prelude::*;

verus! {

/// The least of three naturals.
pub open spec fn min3(x: nat, y: nat, z: nat) -> nat {
    if x <= y && x <= z {
        x
    } else if y <= z {
        y
    } else {
        z
    }
}

/// What replacing `x` by `y` costs: nothing when they are the same character.
pub open spec fn substitution_cost(x: char, y: char) -> nat {
    if x == y {
        0
    } else {
        1
    }
}

/// The Levenshtein distance: the least number of single-character
/// insertions, deletions and substitutions that turn `a` into `b`.
pub open spec fn edit_distance(a: Seq<char>, b: Seq<char>) -> nat
    decreases a.len() + b.len(),
{
    if a.len() == 0 {
        b.len()
    } else if b.len() == 0 {
        a.len()
    } else {
        min3(
            edit_distance(a.drop_last(), b) + 1,
            edit_distance(a, b.drop_last()) + 1,
            edit_distance(a.drop_last(), b.drop_last()) + substitution_cost(a.last(), b.last()),
        )
    }
}

/// The longer of two lengths.
pub open spec fn longer(x: nat, y: nat) -> nat {
    if x >= y {
        x
    } else {
        y
    }
}

/// The distance never exceeds the longer text: at worst every position is
/// substituted and the surplus inserted or deleted.
pub proof fn lemma_edit_distance_upper_bound(a: Seq<char>, b: Seq<char>)
    ensures
        edit_distance(a, b) <= longer(a.len(), b.len()),
    decreases a.len() + b.len(),
{
    if a.len() > 0 && b.len() > 0 {
        lemma_edit_distance_upper_bound(a.drop_last(), b.drop_last());
    }
}

/// The distance is at least the difference of the two lengths.
pub proof fn lemma_edit_distance_lower_bound(a: Seq<char>, b: Seq<char>)
    ensures
        edit_distance(a, b) >= a.len() - b.len(),
        edit_distance(a, b) >= b.len() - a.len(),
    decreases a.len() + b.len(),
{
    if a.len() > 0 && b.len() > 0 {
        lemma_edit_distance_lower_bound(a.drop_last(), b);
        lemma_edit_distance_lower_bound(a, b.drop_last());
        lemma_edit_distance_lower_bound(a.drop_last(), b.drop_last());
    }
}

/// A text is at distance zero from itself.
pub proof fn lemma_edit_distance_self(a: Seq<char>)
    ensures
        edit_distance(a, a) == 0,
    decreases a.len(),
{
    if a.len() > 0 {
        lemma_edit_distance_self(a.drop_last());
    }
}

/// Distance zero means the two texts are the same.
pub proof fn lemma_edit_distance_zero(a: Seq<char>, b: Seq<char>)
    requires
        edit_distance(a, b) == 0,
    ensures
        a == b,
    decreases a.len() + b.len(),
{
    if a.len() == 0 || b.len() == 0 {
    } else {
        lemma_edit_distance_zero(a.drop_last(), b.drop_last());
        assert(a =~= a.drop_last().push(a.last()));
    }
}

/// The distance does not depend on the direction of the edit.
pub proof fn lemma_edit_distance_symmetric(a: Seq<char>, b: Seq<char>)
    ensures
        edit_distance(a, b) == edit_distance(b, a),
    decreases a.len() + b.len(),
{
    if a.len() > 0 && b.len() > 0 {
        lemma_edit_distance_symmetric(a.drop_last(), b);
        lemma_edit_distance_symmetric(a, b.drop_last());
        lemma_edit_distance_symmetric(a.drop_last(), b.drop_last());
    }
}

/// The characters of `s`, in order.
pub fn to_chars(s: &str) -> (v: Vec<char>)
    ensures
        v@ == s@,
{
    let mut v: Vec<char> = Vec::new();
    for c in it: s.chars()
        invariant
            it.seq() == s@,
            v@ == it.seq().take(it.index() as int),
    {
        v.push(c);
    }
    v
}

/// Unfolds the distance between two non-empty prefixes into the three
/// neighbouring prefix distances.
proof fn lemma_prefix_step(a: Seq<char>, b: Seq<char>, i: int, j: int)
    requires
        0 <= i < a.len(),
        0 <= j < b.len(),
    ensures
        edit_distance(a.take(i + 1), b.take(j + 1)) == min3(
            edit_distance(a.take(i), b.take(j + 1)) + 1,
            edit_distance(a.take(i + 1), b.take(j)) + 1,
            edit_distance(a.take(i), b.take(j)) + substitution_cost(a[i], b[j]),
        ),
{
    assert(a.take(i + 1).drop_last() =~= a.take(i));
    assert(b.take(j + 1).drop_last() =~= b.take(j));
}

/// The Levenshtein distance between two character sequences, computed row
/// by row: `prev` is the finished row, `cur` the one being filled, and
/// column zero of either is kept in a scalar.
pub fn char_distance(first: &Vec<char>, second: &Vec<char>) -> (d: usize)
    ensures
        d == edit_distance(first@, second@),
{
    let m: usize = first.len();
    let n: usize = second.len();
    let ghost a = first@;
    let ghost b = second@;
    let mut prev: Vec<usize> = Vec::new();
    let mut k: usize = 0;
    while k < n
        invariant
            k <= n,
            prev@.len() == k,
            forall|c: int| 0 <= c < k ==> prev@[c] == c + 1,
        decreases n - k,
    {
        prev.push(k + 1);
        k += 1;
    }
    let mut cur: Vec<usize> = vec![0usize; n];
    let mut i: usize = 0;
    while i < m
        invariant
            i <= m,
            m == a.len(),
            n == b.len(),
            a == first@,
            b == second@,
            prev@.len() == n,
            cur@.len() == n,
            forall|c: int|
                0 <= c < n ==> prev@[c] == edit_distance(a.take(i as int), b.take(c + 1)),
        decreases m - i,
    {
        let mut left: usize = i + 1;
        let mut diag: usize = i;
        let mut j: usize = 0;
        while j < n
            invariant
                j <= n,
                i < m,
                m == a.len(),
                n == b.len(),
                a == first@,
                b == second@,
                prev@.len() == n,
                cur@.len() == n,
                forall|c: int|
                    0 <= c < n ==> prev@[c] == edit_distance(a.take(i as int), b.take(c + 1)),
                forall|c: int|
                    0 <= c < j ==> cur@[c] == edit_distance(a.take(i + 1), b.take(c + 1)),
                left == edit_distance(a.take(i + 1), b.take(j as int)),
                diag == edit_distance(a.take(i as int), b.take(j as int)),
            decreases n - j,
        {
            let up: usize = prev[j];
            proof {
                lemma_prefix_step(a, b, i as int, j as int);
                lemma_edit_distance_upper_bound(a.take(i as int), b.take(j as int));
            }
            let sub: usize = if first[i] == second[j] {
                diag
            } else {
                diag + 1
            };
            let base: usize = if up < left {
                up
            } else {
                left
            };
            let best: usize = if sub <= base {
                sub
            } else {
                base + 1
            };
            cur.set(j, best);
            diag = up;
            left = best;
            j += 1;
        }
        std::mem::swap(&mut prev, &mut cur);
        i += 1;
    }
    if n == 0 {
        m
    } else {
        proof {
            assert(a.take(m as int) =~= a);
            assert(b.take(n as int) =~= b);
        }
        prev[n - 1]
    }
}

} // verus!
