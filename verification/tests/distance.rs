use tura::distance::{char_distance, to_chars};

fn distance(a: &str, b: &str) -> usize {
    char_distance(&to_chars(a), &to_chars(b))
}

#[test]
fn to_chars_keeps_every_character_in_order() {
    assert_eq!(to_chars("héllo"), vec!['h', 'é', 'l', 'l', 'o']);
    assert_eq!(to_chars(""), Vec::<char>::new());
}

#[test]
fn distance_of_known_pairs() {
    assert_eq!(distance("kitten", "sitting"), 3);
    assert_eq!(distance("flaw", "lawn"), 2);
    assert_eq!(distance("saturday", "sunday"), 3);
    assert_eq!(distance("Monody", "monody"), 1);
    assert_eq!(distance("fat rat monody", "the fat rat monody"), 4);
}

#[test]
fn distance_to_and_from_the_empty_text_is_the_length() {
    assert_eq!(distance("", ""), 0);
    assert_eq!(distance("", "abc"), 3);
    assert_eq!(distance("abc", ""), 3);
}

#[test]
fn distance_counts_characters_not_bytes() {
    assert_eq!(distance("héllo", "hello"), 1);
    assert_eq!(distance("日本語", "日本"), 1);
}

#[test]
fn distance_is_zero_only_between_equal_texts() {
    assert_eq!(distance("same", "same"), 0);
    assert_ne!(distance("same", "sane"), 0);
}

#[test]
fn distance_is_symmetric_and_bounded_by_the_longer_text() {
    let words = ["", "a", "ab", "abc", "kitten", "sitting", "monody", "the fat rat"];
    for a in words {
        for b in words {
            let there = distance(a, b);
            assert_eq!(there, distance(b, a));
            let longer = a.chars().count().max(b.chars().count());
            let shorter = a.chars().count().min(b.chars().count());
            assert!(there <= longer);
            assert!(there >= longer - shorter);
        }
    }
}

#[test]
fn the_verified_distance_agrees_with_strsim() {
    let words = [
        "",
        "a",
        "Monody",
        "monody",
        "fat rat monody",
        "the fat rat monody",
        "Nevermind",
        "héllo wörld",
        "日本語のうた",
        "never gonna give you up",
    ];
    for a in words {
        for b in words {
            assert_eq!(distance(a, b), strsim::levenshtein(a, b), "{a:?} and {b:?}");
        }
    }
}
