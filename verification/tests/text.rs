use crypto_news_aggregator::text::{chars_of, contains, contains_chars, trim};

#[test]
fn contains_finds_a_part_anywhere() {
    assert!(contains("bitcoin hits new high", "bitcoin"));
    assert!(contains("bitcoin hits new high", "hits"));
    assert!(contains("bitcoin hits new high", "high"));
    assert!(contains("bitcoin hits new high", "n h"));
}

#[test]
fn contains_rejects_what_is_not_contiguous() {
    assert!(!contains("bitcoin hits new high", "btc"));
    assert!(!contains("abcd", "bd"));
    assert!(!contains("abc", "abcd"));
    assert!(!contains("", "a"));
}

#[test]
fn contains_is_exact_about_case() {
    assert!(!contains("Bitcoin", "bitcoin"));
}

#[test]
fn empty_text_is_part_of_every_text() {
    assert!(contains("abc", ""));
    assert!(contains("", ""));
}

#[test]
fn contains_finds_a_match_after_a_partial_one() {
    assert!(contains("aaab", "aab"));
    assert!(contains("abababc", "ababc"));
}

#[test]
fn contains_agrees_with_the_standard_search() {
    let texts = ["", "a", "ab", "ba", "aba", "éa", "aé", "日本語", "本"];
    for haystack in texts {
        for needle in texts {
            assert_eq!(contains(haystack, needle), haystack.contains(needle));
        }
    }
}

#[test]
fn contains_chars_works_on_characters() {
    assert!(contains_chars(&vec!['a', 'é', 'b'], &vec!['é', 'b']));
    assert!(!contains_chars(&vec!['a', 'é', 'b'], &vec!['b', 'é']));
}

#[test]
fn chars_of_lists_characters_not_bytes() {
    assert_eq!(chars_of("aé本"), vec!['a', 'é', '本']);
    assert_eq!(chars_of(""), Vec::<char>::new());
}

#[test]
fn trim_removes_white_space_at_both_ends() {
    assert_eq!(trim("  Bitcoin \n"), "Bitcoin");
    assert_eq!(trim("\t\r\n btc"), "btc");
    assert_eq!(trim("btc\u{a0}\u{3000}"), "btc");
}

#[test]
fn trim_keeps_white_space_inside() {
    assert_eq!(trim(" new  high "), "new  high");
}

#[test]
fn trim_of_blank_text_is_empty() {
    assert_eq!(trim(""), "");
    assert_eq!(trim(" \n\t "), "");
}

#[test]
fn trim_keeps_text_without_blanks() {
    assert_eq!(trim("é本"), "é本");
}

#[test]
fn trim_agrees_with_the_standard_trim() {
    for text in ["", " ", "a", " a", "a ", " a b ", "\n\né \u{2003}", "\u{feff}a"] {
        assert_eq!(trim(text), text.trim());
    }
}
