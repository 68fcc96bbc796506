use pc_doctor::text::{
    chars_of, contains_text, eq_ignore_case, is_white_char, same_text,
    split_once_chars, string_of, trim_chars, trim_str,
};

fn v(s: &str) -> Vec<char> {
    s.chars().collect()
}

#[test]
fn text_trim_follows_str_trim() {
    for text in ["  a b  ", "\t\r\nx\n", "", "   ", "\u{3000}hi\u{a0}", "\u{85}z\u{2029}", "a", "\u{200b}x"] {
        assert_eq!(trim_str(text), text.trim(), "{text:?}");
    }
}

#[test]
fn text_trim_is_idempotent() {
    for text in [" a ", "\u{2003}b\u{2003}", "c"] {
        let once = trim_chars(&v(text));
        assert_eq!(trim_chars(&once), once);
    }
}

#[test]
fn text_whitespace_follows_char_is_whitespace() {
    for u in 0u32..0x3100 {
        if let Some(c) = char::from_u32(u) {
            assert_eq!(is_white_char(c), c.is_whitespace(), "{u:x}");
        }
    }
}

#[test]
fn text_eq_ignore_case_folds_ascii_only() {
    assert!(eq_ignore_case(&v("RUNNING"), "Running"));
    assert!(eq_ignore_case(&v("running"), "Running"));
    assert!(!eq_ignore_case(&v("Runnin"), "Running"));
    assert!(!eq_ignore_case(&v("Ä"), "ä"));
    assert!(eq_ignore_case(&v("Ä"), "Ä"));
}

#[test]
fn text_split_once_cuts_at_first_separator() {
    assert_eq!(split_once_chars(&v("a|b|c"), '|'), Some((v("a"), v("b|c"))));
    assert_eq!(split_once_chars(&v("|x"), '|'), Some((v(""), v("x"))));
    assert_eq!(split_once_chars(&v("abc"), '|'), None);
}

#[test]
fn text_contains_and_prefix() {
    assert!(contains_text(&v("xx corruption was detected."), "corruption was detected"));
    assert!(!contains_text(&v("corruption was"), "corruption was detected"));
    assert!(contains_text(&v("abc"), ""));
    assert!(same_text(&v("NOTFOUND"), "NOTFOUND"));
    assert!(!same_text(&v("NOTFOUND "), "NOTFOUND"));
}

#[test]
fn text_chars_and_strings_round_trip() {
    let text = "Grüße — ok";
    assert_eq!(string_of(&chars_of(text)), text);
}
