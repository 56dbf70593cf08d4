use tura::distance::to_chars;
use tura::similarity::{
    lstein, normalize, normalized_levenshtein, similarity_chars, similarity_of, SCALE,
};

#[test]
fn one_whole_is_a_million_parts() {
    assert_eq!(SCALE, 1_000_000);
}

#[test]
fn every_text_is_fully_similar_to_itself() {
    for text in ["", "a", "Monody", "the fat rat monody", "日本語"] {
        assert_eq!(normalized_levenshtein(text, text), SCALE);
        assert_eq!(lstein(text, text), SCALE);
        assert_eq!(similarity_of(false, text, text), SCALE);
        assert_eq!(similarity_of(true, text, text), SCALE);
        assert_eq!(similarity_chars(&to_chars(text), &to_chars(text)), SCALE);
    }
}

#[test]
fn similarity_stays_between_nothing_and_one_whole() {
    let words = ["", "a", "abc", "kitten", "sitting", "Monody", "zzzzzzzzzzzz"];
    for a in words {
        for b in words {
            assert!(normalized_levenshtein(a, b) <= SCALE);
            assert!(lstein(a, b) <= SCALE);
        }
    }
}

#[test]
fn the_empty_pair_is_fully_similar() {
    assert_eq!(normalized_levenshtein("", ""), 1_000_000);
    assert_eq!(normalize(0, 0), 1_000_000);
}

#[test]
fn an_empty_text_has_nothing_in_common_with_a_full_one() {
    assert_eq!(normalized_levenshtein("", "second"), 0);
    assert_eq!(normalized_levenshtein("first", ""), 0);
}

#[test]
fn similarity_is_rounded_down_to_millionths() {
    assert_eq!(normalized_levenshtein("kitten", "sitting"), 571_428);
    assert_eq!(normalized_levenshtein("flaw", "lawn"), 500_000);
    assert_eq!(normalized_levenshtein("saturday", "sunday"), 625_000);
    assert_eq!(normalized_levenshtein("fat rat monody", "the fat rat monody"), 777_777);
    assert_eq!(normalized_levenshtein("Monody", "the fat rat monody"), 277_777);
}

#[test]
fn normalize_is_one_minus_distance_over_length() {
    assert_eq!(normalize(3, 7), 571_428);
    assert_eq!(normalize(0, 7), 1_000_000);
    assert_eq!(normalize(7, 7), 0);
    assert_eq!(normalize(1, 3), 666_666);
    assert_eq!(normalize(1, usize::MAX), 999_999);
}

#[test]
fn normalize_never_goes_below_zero() {
    assert_eq!(normalize(9, 7), 0);
    assert_eq!(normalize(usize::MAX, 1), 0);
}

#[test]
fn case_matters_unless_it_is_folded() {
    assert_eq!(normalized_levenshtein("Monody", "monody"), 833_333);
    assert_eq!(lstein("Monody", "monody"), 1_000_000);
    assert_eq!(lstein("MONODY", "monody"), 1_000_000);
    assert_eq!(similarity_of(false, "Monody", "monody"), 833_333);
    assert_eq!(similarity_of(true, "Monody", "monody"), 1_000_000);
}

#[test]
fn folding_case_keeps_other_differences() {
    assert_eq!(lstein("KITTEN", "sitting"), 571_428);
}

#[test]
fn similarity_does_not_depend_on_the_order_of_the_texts() {
    let words = ["", "abc", "kitten", "sitting", "Monody"];
    for a in words {
        for b in words {
            assert_eq!(normalized_levenshtein(a, b), normalized_levenshtein(b, a));
            assert_eq!(lstein(a, b), lstein(b, a));
        }
    }
}

#[test]
fn only_equal_texts_are_fully_similar() {
    assert_ne!(
        normalized_levenshtein("abcdefghijklmnopqrstuvwxyz", "abcdefghijklmnopqrstuvwxyy"),
        SCALE
    );
    assert_ne!(similarity_chars(&to_chars("ab"), &to_chars("abc")), SCALE);
}

#[test]
fn both_ways_to_the_distance_give_the_same_similarity() {
    let words = ["", "Monody", "monody", "the fat rat monody", "héllo", "never gonna"];
    for a in words {
        for b in words {
            assert_eq!(
                normalized_levenshtein(a, b),
                similarity_chars(&to_chars(a), &to_chars(b))
            );
        }
    }
}
