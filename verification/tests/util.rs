use wapm::paths::canonicalize_relative_path;
use wapm::str_eq;
use wapm::strutil::{i32_to_string, parse_i32};

#[test]
fn str_eq_compares_characters() {
    assert!(str_eq("", ""));
    assert!(str_eq("abc", "abc"));
    assert!(!str_eq("abc", "abd"));
    assert!(!str_eq("abc", "ab"));
    assert!(str_eq("püth", "püth"));
}

#[test]
fn parse_i32_accepts_integer_literals() {
    assert_eq!(parse_i32("0"), Some(0));
    assert_eq!(parse_i32("42"), Some(42));
    assert_eq!(parse_i32("+42"), Some(42));
    assert_eq!(parse_i32("-42"), Some(-42));
    assert_eq!(parse_i32("2147483647"), Some(i32::MAX));
    assert_eq!(parse_i32("-2147483648"), Some(i32::MIN));
    assert_eq!(parse_i32("007"), Some(7));
}

#[test]
fn parse_i32_rejects_everything_else() {
    assert_eq!(parse_i32(""), None);
    assert_eq!(parse_i32("-"), None);
    assert_eq!(parse_i32("+"), None);
    assert_eq!(parse_i32("4 2"), None);
    assert_eq!(parse_i32(" 42"), None);
    assert_eq!(parse_i32("42x"), None);
    assert_eq!(parse_i32("--42"), None);
    assert_eq!(parse_i32("2147483648"), None);
    assert_eq!(parse_i32("-2147483649"), None);
    assert_eq!(parse_i32("99999999999999999999"), None);
}

#[test]
fn parse_i32_matches_the_standard_parser() {
    let cases = [
        "0", "42", "+42", "-42", "2147483647", "-2147483648", "2147483648", "-2147483649", "",
        "-", "+", "007", "12a", "a12", "99999999999999999999",
    ];
    for s in cases {
        assert_eq!(parse_i32(s), s.parse::<i32>().ok(), "on input {:?}", s);
    }
}

#[test]
fn i32_to_string_renders_decimals() {
    assert_eq!(i32_to_string(0), "0");
    assert_eq!(i32_to_string(7), "7");
    assert_eq!(i32_to_string(-7), "-7");
    assert_eq!(i32_to_string(300), "300");
    assert_eq!(i32_to_string(i32::MAX), "2147483647");
    assert_eq!(i32_to_string(i32::MIN), "-2147483648");
}

#[test]
fn i32_to_string_matches_the_standard_formatter() {
    for v in [0, 1, -1, 10, -10, 123456, -654321, i32::MAX, i32::MIN] {
        assert_eq!(i32_to_string(v), format!("{}", v));
    }
}

#[test]
fn canonicalize_strips_leading_dot_segments() {
    assert_eq!(canonicalize_relative_path("/d", "bar.wasm"), "/d/bar.wasm");
    assert_eq!(canonicalize_relative_path("/d", "./bar.wasm"), "/d/bar.wasm");
    assert_eq!(canonicalize_relative_path("/d", "././bar.wasm"), "/d/bar.wasm");
    assert_eq!(canonicalize_relative_path("/d", "a/b.wasm"), "/d/a/b.wasm");
}

#[test]
fn canonicalize_keeps_absolute_paths() {
    assert_eq!(canonicalize_relative_path("/d", "/abs/x.wasm"), "/abs/x.wasm");
    assert_eq!(canonicalize_relative_path("/d", "./" ), "/d/");
}

#[test]
fn canonicalize_avoids_double_slashes_after_the_directory() {
    assert_eq!(canonicalize_relative_path("/d/", "x.wasm"), "/d/x.wasm");
    assert_eq!(canonicalize_relative_path("", "x.wasm"), "/x.wasm");
}
