use slappyshot::hexcolor::{parse_hex_color, parse_trimmed_hex_color};
use slappyshot::style::Color;

#[test]
fn parses_six_digits() {
    assert_eq!(parse_hex_color("#f0932b"), Some(Color::new(240, 147, 43, 255)));
    assert_eq!(parse_hex_color("F0932B"), Some(Color::new(240, 147, 43, 255)));
}

#[test]
fn ignores_whitespace_and_hashes() {
    assert_eq!(parse_hex_color("  #1e1e23\n"), Some(Color::new(30, 30, 35, 255)));
    assert_eq!(parse_hex_color("###ffffff"), Some(Color::new(255, 255, 255, 255)));
}

#[test]
fn trimmed_parser_does_not_trim() {
    assert_eq!(parse_trimmed_hex_color("#ffffff"), Some(Color::new(255, 255, 255, 255)));
    assert_eq!(parse_trimmed_hex_color(" #ffffff"), None);
}

#[test]
fn alpha_is_premultiplied() {
    assert_eq!(parse_hex_color("#ff0000ff"), Some(Color::new(255, 0, 0, 255)));
    assert_eq!(parse_hex_color("#ff00ff00"), Some(Color::new(0, 0, 0, 0)));
    let c = parse_hex_color("#ff000080").unwrap();
    assert_eq!(c.a, 128);
    assert!(c.r < 255 && c.r > 0);
    assert_eq!((c.g, c.b), (0, 0));
}

#[test]
fn only_hex_digits_are_accepted() {
    assert_eq!(parse_hex_color("+f+f+f"), None);
    assert_eq!(parse_hex_color("#+fffff"), None);
    assert_eq!(parse_hex_color("-f0000"), None);
    assert_eq!(parse_hex_color("#ff 000"), None);
    assert_eq!(parse_hex_color("#aBcDeF"), Some(Color::new(171, 205, 239, 255)));
}

#[test]
fn rejects_bad_input() {
    assert_eq!(parse_hex_color("#fff"), None);
    assert_eq!(parse_hex_color("#gg0000"), None);
    assert_eq!(parse_hex_color(""), None);
    assert_eq!(parse_hex_color("#ff00000"), None);
    assert_eq!(parse_hex_color("é12345"), None);
    assert_eq!(parse_hex_color("#1234567890"), None);
}
