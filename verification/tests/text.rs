use licensebat::text::{
    append_chars, chars_eq, chars_of, contains_exec, find_from_exec, index_of_char_from_exec,
    is_whitespace_exec, join_exec, line_with_prefix_exec, map_char_exec, occurs_at_exec,
    remove_char_exec, replace_exec, slice, str_contains, str_eq, trim_exec,
};

fn c(s: &str) -> Vec<char> {
    s.chars().collect()
}

fn s(v: Vec<char>) -> String {
    v.into_iter().collect()
}

#[test]
fn chars_of_a_text() {
    assert_eq!(chars_of("añ€😀"), vec!['a', 'ñ', '€', '😀']);
    assert_eq!(chars_of(""), Vec::<char>::new());
    assert_eq!(s(chars_of("license = \"MIT\"")), "license = \"MIT\"");
}

#[test]
fn equality_is_by_characters() {
    assert!(str_eq("", ""));
    assert!(str_eq("MIT", "MIT"));
    assert!(!str_eq("MIT", "MIt"));
    assert!(!str_eq("MIT", "MI"));
    assert!(!str_eq("MI", "MIT"));
    assert!(chars_eq(&c("ab"), &c("ab")));
    assert!(!chars_eq(&c("ab"), &c("ba")));
}

#[test]
fn occurrences() {
    assert!(occurs_at_exec(&c("hello"), &c("ll"), 2));
    assert!(!occurs_at_exec(&c("hello"), &c("ll"), 1));
    assert!(!occurs_at_exec(&c("hello"), &c("lo"), 4));
    assert!(occurs_at_exec(&c("hello"), &c(""), 5));
    assert!(!occurs_at_exec(&c("hello"), &c(""), 6));
    assert!(!occurs_at_exec(&c("hi"), &c("high"), 0));
    assert!(!occurs_at_exec(&c("hi"), &c("hi"), usize::MAX));
}

#[test]
fn find_gives_the_first_occurrence() {
    assert_eq!(find_from_exec(&c("a (b) (c)"), &c(" ("), 0), Some(1));
    assert_eq!(find_from_exec(&c("a (b) (c)"), &c(" ("), 2), Some(5));
    assert_eq!(find_from_exec(&c("a (b) (c)"), &c(" ("), 6), None);
    assert_eq!(find_from_exec(&c("abc"), &c("abcd"), 0), None);
    assert_eq!(find_from_exec(&c("abc"), &c(""), 0), Some(0));
    assert_eq!(find_from_exec(&c("abc"), &c(""), 3), Some(3));
    assert_eq!(find_from_exec(&c("abc"), &c(""), 4), None);
    assert_eq!(find_from_exec(&c(""), &c(""), 0), Some(0));
    assert_eq!(find_from_exec(&c("aaa"), &c("aa"), 0), Some(0));
    assert_eq!(find_from_exec(&c("abc"), &c("c"), 0), Some(2));
}

#[test]
fn contains_is_about_any_place() {
    assert!(str_contains("./some/dir/package-lock.json", "package-lock.json"));
    assert!(str_contains("Cargo.lock", "Cargo.lock"));
    assert!(!str_contains("Cargo.loc", "Cargo.lock"));
    assert!(str_contains("anything", ""));
    assert!(contains_exec(&c("<img src=\"x\">MIT"), &c("\">")));
    assert!(!contains_exec(&c(""), &c("a")));
}

#[test]
fn white_space_is_what_unicode_says() {
    for ch in [' ', '\t', '\n', '\r', '\u{0B}', '\u{0C}', '\u{85}', '\u{A0}', '\u{1680}', '\u{2000}', '\u{200A}', '\u{2028}', '\u{2029}', '\u{202F}', '\u{205F}', '\u{3000}'] {
        assert!(is_whitespace_exec(ch));
    }
    for ch in ['a', '0', '\u{200B}', '\u{8}', '\u{E}', '\u{1F}', '\u{21}', '\u{200C}', '\u{FEFF}'] {
        assert!(!is_whitespace_exec(ch));
    }
    let mut code: u32 = 0;
    while code < 0x11_0000 {
        if let Some(ch) = char::from_u32(code) {
            assert_eq!(is_whitespace_exec(ch), ch.is_whitespace(), "{:#x}", code);
        }
        code += 1;
    }
}

#[test]
fn trim_is_what_std_does() {
    for text in ["", " ", "  a  ", "a", "\t a b \r\n", "\u{3000}x\u{A0}", " \"MIT\" ", "a ", " a", "   "] {
        assert_eq!(s(trim_exec(&c(text))), text.trim(), "{:?}", text);
    }
}

#[test]
fn slices() {
    assert_eq!(s(slice(&c("license"), 0, 3)), "lic");
    assert_eq!(s(slice(&c("license"), 3, 7)), "ense");
    assert_eq!(s(slice(&c("license"), 3, 3)), "");
}

#[test]
fn replace_is_what_std_does() {
    for (text, from, to) in [
        ("license\n=\n\"MIT\"", "\n=\n", "="),
        ("a\n=\nb\n=\nc", "\n=\n", "="),
        ("aaa", "aa", "b"),
        ("aaaa", "aa", "b"),
        ("abc", "x", "y"),
        ("abc", "abc", ""),
        ("abc", "abcd", "x"),
        ("", "a", "b"),
        ("\"MIT\"", "\"", ""),
        ("a-b-c", "-", " "),
        ("ab", "b", "bb"),
    ] {
        assert_eq!(s(replace_exec(&c(text), &c(from), &c(to))), text.replace(from, to), "{:?}", text);
    }
}

#[test]
fn replace_of_nothing_changes_nothing() {
    assert_eq!(s(replace_exec(&c("abc"), &c(""), &c("x"))), "abc");
    assert_eq!(s(replace_exec(&c(""), &c(""), &c("x"))), "");
}

#[test]
fn remove_and_map() {
    assert_eq!(s(remove_char_exec(&c("\"MIT\""), '"')), "MIT");
    assert_eq!(s(remove_char_exec(&c("M\"I\"T"), '"')), "MIT");
    assert_eq!(s(remove_char_exec(&c("\"\""), '"')), "");
    assert_eq!(s(remove_char_exec(&c("MIT"), '"')), "MIT");
    assert_eq!(s(map_char_exec(&c("BSD-3-Clause"), '-', ' ')), "BSD 3 Clause");
    assert_eq!(s(map_char_exec(&c("MIT"), '-', ' ')), "MIT");
    assert_eq!(s(map_char_exec(&c(""), '-', ' ')), "");
}

#[test]
fn append_and_join() {
    let mut a = c("ab");
    append_chars(&mut a, &c("cd"));
    assert_eq!(s(a), "abcd");
    let parts = vec!["a".to_string(), "".to_string(), "b".to_string()];
    assert_eq!(s(join_exec(&parts, &c("\n"))), "a\n\nb");
    assert_eq!(s(join_exec(&parts, &c(", "))), parts.join(", "));
    assert_eq!(s(join_exec(&vec!["a".to_string()], &c(", "))), "a");
    assert_eq!(s(join_exec(&vec![], &c(", "))), "");
    assert_eq!(s(join_exec(&vec!["".to_string(), "".to_string()], &c("-"))), "-");
}

#[test]
fn index_of_char() {
    assert_eq!(index_of_char_from_exec(&c("a\nb\nc"), '\n', 0), 1);
    assert_eq!(index_of_char_from_exec(&c("a\nb\nc"), '\n', 1), 1);
    assert_eq!(index_of_char_from_exec(&c("a\nb\nc"), '\n', 2), 3);
    assert_eq!(index_of_char_from_exec(&c("a\nb\nc"), '\n', 4), 5);
    assert_eq!(index_of_char_from_exec(&c("a\nb\nc"), '\n', 5), 5);
    assert_eq!(index_of_char_from_exec(&c(""), '\n', 0), 0);
}

#[test]
fn first_line_with_prefix() {
    let find = |text: &str, prefix: &str| line_with_prefix_exec(&c(text), &c(prefix)).map(s);
    assert_eq!(find("name = \"a\"\nlicense = \"MIT\"\nlicense-file = \"L\"", "license"), Some("license = \"MIT\"".to_string()));
    assert_eq!(find("license-file = \"L\"\nlicense = \"MIT\"", "license"), Some("license-file = \"L\"".to_string()));
    assert_eq!(find("name = \"a\"\n", "license"), None);
    assert_eq!(find("", "license"), None);
    assert_eq!(find(" license = \"MIT\"", "license"), None);
    assert_eq!(find("a\nlicense", "license"), Some("license".to_string()));
    assert_eq!(find("a\nlicense\n", "license"), Some("license".to_string()));
    assert_eq!(find("a\n\nb", ""), Some("a".to_string()));
    assert_eq!(find("\na", ""), Some("".to_string()));
    assert_eq!(find("\n", "x"), None);
    for text in ["a\nlicense = x\nb", "license\n", "x\ny\n", "\n\nlicense", "licens\nlicense"] {
        let expected = text.lines().find(|l| l.starts_with("license")).map(|l| l.to_string());
        assert_eq!(find(text, "license"), expected, "{:?}", text);
    }
}
