use homenode_web::text::{
    blank, byte_len, contains, count, cut, digits, ends_with, find, hex_from, holds, ipv4, join, keep_alphanumeric, le,
    listed, number, parse_unsigned, replace, replace_char, same, same_ascii_case_blind, signed, slice, split,
    starts_with, strip, strip_prefix_repeatedly, trim, word,
};
use homenode_web::text_map::TextMap;

const TEXTS: [&str; 14] =
    ["", "a", "aa", "aaa", "ab", "aab", "aba", "ü", "aü", "üaü", "💡x💡", " a b ", "\u{a0}a\u{2003}", "a.b.c"];

#[test]
fn searching_is_that_of_std() {
    for s in TEXTS {
        for p in TEXTS {
            assert_eq!(contains(s, p), s.contains(p), "{s:?} {p:?}");
            assert_eq!(starts_with(s, p), s.starts_with(p));
            assert_eq!(ends_with(s, p), s.ends_with(p));
            assert_eq!(same(s, p), s == p);
            assert_eq!(le(s, p), s <= p);
            assert_eq!(find(s, p).is_some(), s.contains(p));
            assert_eq!(same_ascii_case_blind(s, p), s.eq_ignore_ascii_case(p));
            if !p.is_empty() {
                assert_eq!(replace(s, p, "<>"), s.replace(p, "<>"));
                assert_eq!(strip_prefix_repeatedly(s, p), s.trim_start_matches(p));
            }
        }
        for c in ['a', 'ü', '.', '💡'] {
            assert_eq!(replace_char(s, c, "--"), s.replace(c, "--"));
            assert_eq!(split(s, c), s.split(c).collect::<Vec<_>>());
            assert_eq!(holds(s, c), s.contains(c));
        }
        assert_eq!(trim(s), s.trim());
        assert_eq!(blank(s), s.is_empty());
        assert_eq!(byte_len(s), s.len());
        assert_eq!(strip(s, &['a', '.']), s.replace(['a', '.'], ""));
        assert_eq!(
            keep_alphanumeric(s, &['.']),
            s.chars().filter(|c| c.is_alphanumeric() || *c == '.').collect::<String>()
        );
    }
    assert!(same_ascii_case_blind("Flur", "FLUR"));
    assert!(!same_ascii_case_blind("Küche", "KÜCHE"));
}

#[test]
fn pieces_of_texts() {
    assert_eq!(find("üb", "b"), Some(1));
    assert_eq!(slice("üabc", 1, 3), "ab");
    assert_eq!(cut("üab", 2), ("ü", "ab"));
    assert_eq!(cut("ab", 0), ("", "ab"));
    assert_eq!(join(&vec!["a".to_string(), "b".to_string()], ", "), "a, b");
    assert_eq!(join(&vec![], ", "), "");
    assert!(listed(&["a".to_string()], "a"));
    assert!(!listed(&["a".to_string()], "b"));
}

#[test]
fn numbers_in_words() {
    for n in [0u64, 7, 10, 255, 1_000_000, u64::MAX] {
        assert_eq!(number(n), n.to_string());
        assert_eq!(parse_unsigned(&n.to_string(), u64::MAX), Some(n));
    }
    assert_eq!(digits(u128::MAX), u128::MAX.to_string());
    assert_eq!(count(usize::MAX), usize::MAX.to_string());
    for n in [i64::MIN, -70, 0, i64::MAX] {
        assert_eq!(signed(n), n.to_string());
    }
    assert_eq!(word(true), "true");
    assert_eq!(word(false), "false");
    assert_eq!(parse_unsigned("256", 255), None);
    assert_eq!(parse_unsigned("+255", 255), Some(255));
}

#[test]
fn addresses_have_four_numbers() {
    for s in ["10.0.0.1", "255.255.255.255", "0.0.0.0", "1.2.3.4"] {
        assert!(ipv4(s), "{s}");
    }
    for s in [
        "256.0.0.1",
        "1.2.3",
        "1.2.3.4.5",
        "01.2.3.4",
        "1.2.3.4 ",
        "+1.2.3.4",
        "1..3.4",
        "",
        "a.b.c.d",
        "1.2.3.0004",
        "٣.1.1.1",
    ] {
        assert!(!ipv4(s), "{s}");
    }
}

#[test]
fn hexadecimal_digits() {
    let chars = |s: &str| s.chars().collect::<Vec<char>>();
    assert!(hex_from(&chars("x09afAF"), 1));
    assert!(!hex_from(&chars("x09afAF"), 0));
    assert!(hex_from(&chars("x"), 1));
    assert!(!hex_from(&chars("0g"), 0));
}

#[test]
fn maps_keep_their_order() {
    let mut m: TextMap<String> = TextMap::new();
    for (k, v) in [("b", "1"), ("a", "2"), ("c", "3"), ("a", "4")] {
        m.insert(k.to_string(), v.to_string());
    }
    assert_eq!(m.len(), 3);
    assert_eq!((m.key_at(0), m.key_at(1), m.key_at(2)), ("b", "a", "c"));
    assert_eq!(m.get("a").map(|s| s.as_str()), Some("4"));
    m.remove("b");
    m.remove("nothing");
    assert_eq!(m.len(), 2);
    assert!(!m.contains_key("b"));
    assert_eq!(m.value_at(0), "4");
}
