//! Similarity of two texts on a fixed-point scale: one whole is a million
//! parts, and a similarity is the share of the longer text that needs no
//! edit, rounded down to a whole number of parts.

use crate::distance::{
    char_distance, edit_distance, lemma_edit_distance_self, lemma_edit_distance_symmetric,
    lemma_edit_distance_upper_bound, lemma_edit_distance_zero, longer, to_chars,
};
use vstd::arithmetic::div_mod::{lemma_div_is_ordered, lemma_div_multiples_vanish};
use vstd::prelude::*;

verus! {

/// Full similarity: the two texts are the same.
pub const SCALE: u32 = 1_000_000;

/// `1 - distance / length` in millionths, rounded down, and never below
/// zero. A pair of empty texts, for which `length` is zero, counts as
/// fully similar.
pub open spec fn normalized(distance: nat, length: nat) -> nat {
    if length == 0 {
        SCALE as nat
    } else if distance >= length {
        0
    } else {
        ((length - distance) * SCALE / (length as int)) as nat
    }
}

/// The similarity of `a` and `b`: their edit distance, normalized by the
/// length of the longer one.
pub open spec fn similarity(a: Seq<char>, b: Seq<char>) -> nat {
    normalized(edit_distance(a, b), longer(a.len(), b.len()))
}

/// The lower-case form of a text, as the standard library computes it.
pub uninterp spec fn lowercase(text: Seq<char>) -> Seq<char>;

/// The similarity that a resolver uses: of the texts as they are, or of
/// their lower-case forms when case is folded.
pub open spec fn similarity_under(fold_case: bool, a: Seq<char>, b: Seq<char>) -> nat {
    if fold_case {
        similarity(lowercase(a), lowercase(b))
    } else {
        similarity(a, b)
    }
}

/// `str::to_lowercase` of the standard library. Nothing is claimed of the
/// result but that it depends on the characters of the text alone, so that
/// it can be spoken of as `lowercase` of them.
pub assume_specification[ str::to_lowercase ](text: &str) -> (folded: String)
    ensures
        folded@ == lowercase(text@),
;

/// `strsim::levenshtein`. It walks the characters of both texts and fills
/// one row of the edit table at a time; the claim is that what it returns
/// is the Levenshtein distance between the two character sequences.
pub assume_specification[ strsim::levenshtein ](a: &str, b: &str) -> (d: usize)
    ensures
        d == edit_distance(a@, b@),
;

/// A normalized value is a share of one whole.
pub proof fn lemma_normalized_bounds(distance: nat, length: nat)
    ensures
        normalized(distance, length) <= SCALE,
{
    if length > 0 && distance < length {
        let kept = (length - distance) as int;
        lemma_div_is_ordered(kept * SCALE, length * SCALE, length as int);
        lemma_div_multiples_vanish(SCALE as int, length as int);
        assert(length * SCALE == SCALE * length) by (nonlinear_arith);
    }
}

/// Only distance zero normalizes to one whole.
pub proof fn lemma_normalized_whole(distance: nat, length: nat)
    requires
        distance <= length,
    ensures
        normalized(distance, length) == SCALE <==> distance == 0,
{
    if length > 0 {
        if distance == 0 {
            lemma_div_multiples_vanish(SCALE as int, length as int);
            assert(length * SCALE == SCALE * length) by (nonlinear_arith);
        } else if distance < length {
            let kept = (length - distance) as int;
            assert(kept * SCALE < SCALE * length ==> kept * SCALE / (length as int) < SCALE)
                by (nonlinear_arith)
                requires
                    length > 0,
            ;
            assert(length * SCALE == SCALE * length) by (nonlinear_arith);
        }
    }
}

/// Every text is fully similar to itself.
pub proof fn lemma_similarity_self(a: Seq<char>)
    ensures
        similarity(a, a) == SCALE,
{
    lemma_edit_distance_self(a);
    lemma_normalized_whole(0, a.len());
}

/// A similarity lies between nothing and one whole.
pub proof fn lemma_similarity_bounds(a: Seq<char>, b: Seq<char>)
    ensures
        0 <= similarity(a, b) <= SCALE,
{
    lemma_normalized_bounds(edit_distance(a, b), longer(a.len(), b.len()));
}

/// Two texts are fully similar exactly when they are the same text.
pub proof fn lemma_similarity_whole(a: Seq<char>, b: Seq<char>)
    ensures
        similarity(a, b) == SCALE <==> a == b,
{
    lemma_edit_distance_upper_bound(a, b);
    lemma_normalized_whole(edit_distance(a, b), longer(a.len(), b.len()));
    if a == b {
        lemma_edit_distance_self(a);
    }
    if edit_distance(a, b) == 0 {
        lemma_edit_distance_zero(a, b);
    }
}

/// Similarity does not depend on the order of the two texts.
pub proof fn lemma_similarity_symmetric(a: Seq<char>, b: Seq<char>)
    ensures
        similarity(a, b) == similarity(b, a),
{
    lemma_edit_distance_symmetric(a, b);
}

/// The same laws hold whether or not case is folded.
pub proof fn lemma_similarity_under(fold_case: bool, a: Seq<char>, b: Seq<char>)
    ensures
        0 <= similarity_under(fold_case, a, b) <= SCALE,
        similarity_under(fold_case, a, a) == SCALE,
        similarity_under(fold_case, a, b) == similarity_under(fold_case, b, a),
{
    if fold_case {
        lemma_similarity_bounds(lowercase(a), lowercase(b));
        lemma_similarity_self(lowercase(a));
        lemma_similarity_symmetric(lowercase(a), lowercase(b));
    } else {
        lemma_similarity_bounds(a, b);
        lemma_similarity_self(a);
        lemma_similarity_symmetric(a, b);
    }
}

/// Turns a distance and the length it is measured against into a
/// similarity.
pub fn normalize(distance: usize, length: usize) -> (s: u32)
    ensures
        s == normalized(distance as nat, length as nat),
        s <= SCALE,
{
    proof {
        lemma_normalized_bounds(distance as nat, length as nat);
    }
    if length == 0 {
        SCALE
    } else if distance >= length {
        0
    } else {
        let kept: u128 = (length - distance) as u128;
        assert(kept * SCALE <= u128::MAX) by (nonlinear_arith)
            requires
                kept <= u64::MAX,
                SCALE == 1_000_000,
        ;
        let parts: u128 = kept * (SCALE as u128) / (length as u128);
        parts as u32
    }
}

/// The similarity of two character sequences, by the verified row-by-row
/// distance.
pub fn similarity_chars(first: &Vec<char>, second: &Vec<char>) -> (s: u32)
    ensures
        s == similarity(first@, second@),
        s <= SCALE,
        s == SCALE <==> first@ == second@,
{
    proof {
        lemma_similarity_whole(first@, second@);
    }
    let distance: usize = char_distance(first, second);
    let length: usize = if first.len() >= second.len() {
        first.len()
    } else {
        second.len()
    };
    normalize(distance, length)
}

/// The similarity of two texts with case left as it is; the distance comes
/// from `strsim`.
pub fn normalized_levenshtein(a: &str, b: &str) -> (s: u32)
    ensures
        s == similarity(a@, b@),
        s <= SCALE,
        s == SCALE <==> a@ == b@,
{
    proof {
        lemma_similarity_whole(a@, b@);
    }
    let distance: usize = strsim::levenshtein(a, b);
    let a_len: usize = a.unicode_len();
    let b_len: usize = b.unicode_len();
    let length: usize = if a_len >= b_len {
        a_len
    } else {
        b_len
    };
    normalize(distance, length)
}

/// The similarity of two texts with case folded: both are brought to lower
/// case and then compared character by character.
pub fn lstein(first: &str, second: &str) -> (s: u32)
    ensures
        s == similarity(lowercase(first@), lowercase(second@)),
        s <= SCALE,
        first@ == second@ ==> s == SCALE,
{
    let first_folded = first.to_lowercase();
    let second_folded = second.to_lowercase();
    let first_chars = to_chars(first_folded.as_str());
    let second_chars = to_chars(second_folded.as_str());
    similarity_chars(&first_chars, &second_chars)
}

/// The similarity of two texts as a resolver is configured to see them.
pub fn similarity_of(fold_case: bool, a: &str, b: &str) -> (s: u32)
    ensures
        s == similarity_under(fold_case, a@, b@),
        s <= SCALE,
        a@ == b@ ==> s == SCALE,
{
    if fold_case {
        lstein(a, b)
    } else {
        normalized_levenshtein(a, b)
    }
}

} // verus!
