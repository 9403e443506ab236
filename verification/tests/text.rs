use hex_connector::text::{
    ascii_lower, chars_of, contains_chars, occurs_at, str_contains, str_eq, str_eq_ignore_ascii_case,
    str_starts_with,
};

fn chars(text: &str) -> Vec<char> {
    text.chars().collect()
}

#[test]
fn chars_are_those_of_the_text() {
    assert_eq!(chars_of("aä日🙂"), vec!['a', 'ä', '日', '🙂']);
    assert_eq!(chars_of(""), Vec::<char>::new());
}

#[test]
fn occurrence_at_a_position() {
    assert!(occurs_at(&chars("hello"), 0, &chars("he")));
    assert!(occurs_at(&chars("hello"), 3, &chars("lo")));
    assert!(occurs_at(&chars("hello"), 5, &chars("")));
    assert!(!occurs_at(&chars("hello"), 6, &chars("")));
    assert!(!occurs_at(&chars("hello"), 4, &chars("lo")));
    assert!(!occurs_at(&chars("hello"), 1, &chars("he")));
    assert!(!occurs_at(&chars("hello"), usize::MAX, &chars("he")));
}

#[test]
fn contains_agrees_with_std() {
    let texts = ["", "a", "ab", "aab", "abab", "lee sin the blind monk", "日本語", "ääb"];
    for hay in texts {
        for needle in texts {
            assert_eq!(str_contains(hay, needle), hay.contains(needle), "{:?} in {:?}", needle, hay);
            assert_eq!(contains_chars(&chars(hay), &chars(needle)), hay.contains(needle));
        }
    }
    assert!(str_contains("lee sin the blind monk", "blind"));
    assert!(!str_contains("lee sin the blind monk", "blond"));
}

#[test]
fn equality_agrees_with_std() {
    let texts = ["", "a", "ab", "ba", "abc", "日本", "日本語"];
    for first in texts {
        for second in texts {
            assert_eq!(str_eq(first, second), first == second);
        }
    }
}

#[test]
fn starts_with_agrees_with_std() {
    let texts = ["", "-", "--app-port=", "--app-port=123", "x--app-port=1", "--app"];
    for text in texts {
        for prefix in texts {
            assert_eq!(str_starts_with(text, prefix), text.starts_with(prefix));
        }
    }
}

#[test]
fn ascii_lower_changes_capitals_only() {
    assert_eq!(ascii_lower('A'), 'a');
    assert_eq!(ascii_lower('Z'), 'z');
    assert_eq!(ascii_lower('a'), 'a');
    assert_eq!(ascii_lower('@'), '@');
    assert_eq!(ascii_lower('['), '[');
    assert_eq!(ascii_lower('Ä'), 'Ä');
    assert_eq!(ascii_lower('\u{212A}'), '\u{212A}');
    for c in ['A', 'm', 'Z', '0', 'é', 'É', 'ß', '日'] {
        assert_eq!(ascii_lower(c), c.to_ascii_lowercase());
    }
}

#[test]
fn eq_ignore_ascii_case_agrees_with_std() {
    let texts = ["", "abc", "ABC", "aBc", "abd", "ab", "äbc", "ÄBC", "LeagueClientUx.exe", "leagueclientux.EXE"];
    for first in texts {
        for second in texts {
            assert_eq!(str_eq_ignore_ascii_case(first, second), first.eq_ignore_ascii_case(second));
        }
    }
}
