use pc_doctor::number::{format_i32_chars, parse_i32_chars};

fn v(s: &str) -> Vec<char> {
    s.chars().collect()
}

fn s(v: Vec<char>) -> String {
    v.into_iter().collect()
}

#[test]
fn number_parse_i32_follows_from_str() {
    for text in ["42", "-7", "+3", "0", "-0", "007", "2147483647", "-2147483648", "", "-", "+",
        "2147483648", "-2147483649", "1.5", " 4", "4 ", "--1", "+-1", "99999999999999999999", "١٢"]
    {
        assert_eq!(parse_i32_chars(&v(text)), text.parse::<i32>().ok(), "{text}");
    }
}

#[test]
fn number_format_i32_follows_display() {
    for n in [0, 7, -7, 10, 123456, i32::MAX, i32::MIN, -100] {
        assert_eq!(s(format_i32_chars(n)), format!("{}", n));
    }
}

#[test]
fn number_i32_round_trip() {
    for n in [0, 1, -1, 42, -42, 1000, i32::MAX, i32::MIN] {
        assert_eq!(parse_i32_chars(&format_i32_chars(n)), Some(n));
    }
}
