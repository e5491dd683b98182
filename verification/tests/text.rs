use auto_project::text::{
    chars_of, joined, joined3, owned, owned_option, push_chars, push_text, replace,
};

fn chars(text: &str) -> Vec<char> {
    text.chars().collect()
}

#[test]
fn characters_of_a_text() {
    assert_eq!(chars_of("a\u{e9}\u{1f600}"), vec!['a', '\u{e9}', '\u{1f600}']);
    assert_eq!(chars_of(""), Vec::<char>::new());
}

#[test]
fn texts_are_joined_in_order() {
    assert_eq!(joined("sub1", ".ico"), "sub1.ico");
    assert_eq!(joined("", ""), "");
    assert_eq!(joined3("b", " - ", "Work"), "b - Work");
    assert_eq!(joined3("", "x", ""), "x");
}

#[test]
fn copies_are_equal() {
    assert_eq!(owned("caf\u{e9}"), "caf\u{e9}");
    assert_eq!(owned_option(&Some(String::from("x"))), Some(String::from("x")));
    assert_eq!(owned_option(&None), None);
}

#[test]
fn pushing_appends() {
    let mut out = chars("ab");
    push_chars(&mut out, &chars("cd"));
    push_text(&mut out, "e\u{e9}");
    push_text(&mut out, "");
    assert_eq!(out, chars("abcde\u{e9}"));
}

#[test]
fn replacing_every_occurrence() {
    assert_eq!(replace(&chars("a-b-c"), &chars("-"), &chars("+")), chars("a+b+c"));
    assert_eq!(replace(&chars("aaa"), &chars("aa"), &chars("b")), chars("ba"));
    assert_eq!(replace(&chars("abab"), &chars("ab"), &chars("")), chars(""));
    assert_eq!(replace(&chars("xyz"), &chars("q"), &chars("long")), chars("xyz"));
    assert_eq!(replace(&chars(""), &chars("q"), &chars("r")), chars(""));
    assert_eq!(replace(&chars("ab"), &chars("abc"), &chars("r")), chars("ab"));
}

#[test]
fn replacing_an_empty_pattern_changes_nothing() {
    assert_eq!(replace(&chars("abc"), &chars(""), &chars("-")), chars("abc"));
}

#[test]
fn replacing_agrees_with_the_standard_one() {
    let cases = [
        ("<svg>{{INITIAL}}</svg>", "{{INITIAL}}", "M"),
        ("{{{{INITIAL}}}}", "{{INITIAL}}", "M"),
        ("aXbXXc", "X", "yy"),
        ("ababab", "aba", "c"),
        ("\u{e9}\u{e9}x", "\u{e9}", "e"),
    ];
    for (text, pattern, with) in cases {
        assert_eq!(
            replace(&chars(text), &chars(pattern), &chars(with)),
            chars(&text.replace(pattern, with))
        );
    }
}
