use vstd::prelude::*;

use crate::style::Color;

verus! {

/// Whether `c` is a hexadecimal digit (`0-9`, `a-f` or `A-F`).
pub open spec fn is_hex_digit(c: char) -> bool {
    ('0' <= c <= '9') || ('a' <= c <= 'f') || ('A' <= c <= 'F')
}

/// The value of a hexadecimal digit.
pub open spec fn hex_digit_value(c: char) -> int {
    if '0' <= c <= '9' {
        c as int - '0' as int
    } else if 'a' <= c <= 'f' {
        c as int - 'a' as int + 10
    } else {
        c as int - 'A' as int + 10
    }
}

/// The value of a sequence of hexadecimal digits, most significant first.
pub open spec fn hex_value(d: Seq<char>) -> int
    decreases d.len(),
{
    if d.len() == 0 {
        0
    } else {
        hex_value(d.drop_last()) * 16 + hex_digit_value(d.last())
    }
}

/// A base-16 `u8`: an optional `+` sign followed by at least one hexadecimal
/// digit, with a value of at most 255.
pub open spec fn spec_u8_from_hex(s: Seq<char>) -> Option<u8> {
    let d = if s.len() > 1 && s[0] == '+' { s.drop_first() } else { s };
    if d.len() > 0 && (forall|i: int| 0 <= i < d.len() ==> is_hex_digit(#[trigger] d[i]))
        && hex_value(d) <= 255 {
        Some(hex_value(d) as u8)
    } else {
        None
    }
}

/// Calls `u8::from_str_radix(s, 16)`: per its documentation, an optional `+`
/// followed by base-16 digits, an error on anything else and on overflow.
#[verifier::external_body]
fn u8_from_hex(s: &str) -> (r: Option<u8>)
    ensures
        r == spec_u8_from_hex(s@),
{
    u8::from_str_radix(s, 16).ok()
}

/// Whether `c` has the Unicode `White_Space` property, by which `str::trim`
/// defines whitespace.
pub open spec fn is_unicode_whitespace(c: char) -> bool {
    ||| '\u{9}' <= c <= '\u{d}'
    ||| c == ' '
    ||| c == '\u{85}'
    ||| c == '\u{a0}'
    ||| c == '\u{1680}'
    ||| '\u{2000}' <= c <= '\u{200a}'
    ||| c == '\u{2028}'
    ||| c == '\u{2029}'
    ||| c == '\u{202f}'
    ||| c == '\u{205f}'
    ||| c == '\u{3000}'
}

/// The string without its leading whitespace.
pub open spec fn trim_start_ws(s: Seq<char>) -> Seq<char>
    decreases s.len(),
{
    if s.len() > 0 && is_unicode_whitespace(s[0]) {
        trim_start_ws(s.drop_first())
    } else {
        s
    }
}

/// The string without its trailing whitespace.
pub open spec fn trim_end_ws(s: Seq<char>) -> Seq<char>
    decreases s.len(),
{
    if s.len() > 0 && is_unicode_whitespace(s.last()) {
        trim_end_ws(s.drop_last())
    } else {
        s
    }
}

/// The string without its leading and trailing whitespace.
pub open spec fn trimmed(s: Seq<char>) -> Seq<char> {
    trim_end_ws(trim_start_ws(s))
}

/// Calls `str::trim`, which by its documentation removes the leading and trailing
/// characters with the Unicode `White_Space` property.
#[verifier::external_body]
fn trim(s: &str) -> (r: &str)
    ensures
        r@ == trimmed(s@),
{
    s.trim()
}

/// What `egui::Color32::from_rgba_unmultiplied(r, g, b, a).to_array()` returns:
/// the color with its channels premultiplied by alpha, as egui stores it.
pub uninterp spec fn premultiplied_rgba(r: u8, g: u8, b: u8, a: u8) -> (u8, u8, u8, u8);

/// Calls `egui::Color32::from_rgba_unmultiplied` and reads the result back with
/// `to_array`. As the source of `ecolor` shows, alpha 0 gives transparent black,
/// alpha 255 keeps the channels, and alpha is always kept; the other channel
/// values are those of a gamma lookup table and are only named.
#[verifier::external_body]
fn rgba_premultiplied(r: u8, g: u8, b: u8, a: u8) -> (c: (u8, u8, u8, u8))
    ensures
        c == premultiplied_rgba(r, g, b, a),
        c.3 == a,
        a == 0 ==> c == (0u8, 0u8, 0u8, 0u8),
        a == 255 ==> c == (r, g, b, 255u8),
{
    let [r2, g2, b2, a2] = egui::Color32::from_rgba_unmultiplied(r, g, b, a).to_array();
    (r2, g2, b2, a2)
}

/// The string without its leading `#` characters.
pub open spec fn strip_hashes(s: Seq<char>) -> Seq<char>
    decreases s.len(),
{
    if s.len() > 0 && s[0] == '#' {
        strip_hashes(s.drop_first())
    } else {
        s
    }
}

/// Whether every character is a hexadecimal digit.
pub open spec fn all_hex_digits(u: Seq<char>) -> bool {
    forall|i: int| 0 <= i < u.len() ==> is_hex_digit(#[trigger] u[i])
}

/// The value of the two hexadecimal digits of `u` at `at`.
pub open spec fn pair_value(u: Seq<char>, at: int) -> u8 {
    hex_value(u.subrange(at, at + 2)) as u8
}

/// The color written by hexadecimal digits without a leading `#`: `rrggbb` is an
/// opaque color, `rrggbbaa` a color with alpha, which is premultiplied. Anything
/// else (another length, or a character that is not a hexadecimal digit) gives
/// `None`.
pub open spec fn spec_hex_digits_color(u: Seq<char>) -> Option<Color> {
    if !all_hex_digits(u) {
        None
    } else if u.len() == 6 {
        Some(Color { r: pair_value(u, 0), g: pair_value(u, 2), b: pair_value(u, 4), a: 255 })
    } else if u.len() == 8 {
        let p = premultiplied_rgba(pair_value(u, 0), pair_value(u, 2), pair_value(u, 4), pair_value(u, 6));
        Some(Color { r: p.0, g: p.1, b: p.2, a: p.3 })
    } else {
        None
    }
}

/// The color that a configuration string such as `"#f0932b"` names.
pub open spec fn spec_parse_hex_color(s: Seq<char>) -> Option<Color> {
    spec_hex_digits_color(strip_hashes(trimmed(s)))
}

/// Removes the leading `#` characters of a string.
fn trim_hashes(s: &str) -> (r: &str)
    ensures
        r@ == strip_hashes(s@),
{
    let n = s.unicode_len();
    let mut i: usize = 0;
    assert(s@.subrange(0, n as int) =~= s@);
    while i < n && s.get_char(i) == '#'
        invariant
            n == s@.len(),
            i <= n,
            strip_hashes(s@) == strip_hashes(s@.subrange(i as int, n as int)),
        decreases n - i,
    {
        proof {
            let t = s@.subrange(i as int, n as int);
            assert(t.drop_first() =~= s@.subrange(i + 1, n as int));
        }
        i = i + 1;
    }
    proof {
        let t = s@.subrange(i as int, n as int);
        assert(!(t.len() > 0 && t[0] == '#'));
    }
    s.substring_char(i, n)
}

proof fn lemma_pair_value(d: Seq<char>)
    requires
        d.len() == 2,
        is_hex_digit(d[0]),
        is_hex_digit(d[1]),
    ensures
        0 <= hex_value(d) <= 255,
        spec_u8_from_hex(d) == Some(hex_value(d) as u8),
{
    reveal_with_fuel(hex_value, 3);
    assert(d.drop_last().drop_last().len() == 0);
    assert(d.drop_last().last() == d[0]);
    assert(forall|i: int| 0 <= i < d.len() ==> is_hex_digit(#[trigger] d[i]));
}

/// Parses the two hexadecimal digits at `at` of a string of hexadecimal digits.
fn hex_pair(u: &str, at: usize) -> (r: u8)
    requires
        all_hex_digits(u@),
        at <= 6,
        at + 2 <= u@.len(),
    ensures
        r == pair_value(u@, at as int),
{
    proof {
        assert(vstd::utf8::is_ascii_chars(u@));
        let d = u@.subrange(at as int, at + 2);
        assert(d[0] == u@[at as int] && d[1] == u@[at + 1]);
        lemma_pair_value(d);
    }
    match u8_from_hex(u.substring_ascii(at, at + 2)) {
        Some(v) => v,
        // Two hexadecimal digits always parse.
        None => 0,
    }
}

/// Whether every character of `u` is a hexadecimal digit.
fn is_all_hex_digits(u: &str) -> (b: bool)
    ensures
        b == all_hex_digits(u@),
{
    let n = u.unicode_len();
    let mut i: usize = 0;
    while i < n
        invariant
            n == u@.len(),
            i <= n,
            forall|j: int| 0 <= j < i ==> is_hex_digit(#[trigger] u@[j]),
        decreases n - i,
    {
        let c = u.get_char(i);
        if !(('0' <= c && c <= '9') || ('a' <= c && c <= 'f') || ('A' <= c && c <= 'F')) {
            assert(!is_hex_digit(u@[i as int]));
            return false;
        }
        i = i + 1;
    }
    true
}

/// Parses the hexadecimal digits of a color once whitespace has been trimmed:
/// leading `#` characters are skipped, then `rrggbb` or `rrggbbaa` is read.
pub fn parse_trimmed_hex_color(t: &str) -> (c: Option<Color>)
    ensures
        c == spec_hex_digits_color(strip_hashes(t@)),
{
    let u = trim_hashes(t);
    if !is_all_hex_digits(u) {
        return None;
    }
    let n = u.unicode_len();
    if n == 6 {
        Some(Color { r: hex_pair(u, 0), g: hex_pair(u, 2), b: hex_pair(u, 4), a: 255 })
    } else if n == 8 {
        let p = rgba_premultiplied(hex_pair(u, 0), hex_pair(u, 2), hex_pair(u, 4), hex_pair(u, 6));
        Some(Color { r: p.0, g: p.1, b: p.2, a: p.3 })
    } else {
        None
    }
}

/// Parses a color written as `#rrggbb` or `#rrggbbaa` (surrounding whitespace
/// and any number of leading `#` are ignored). A color with alpha comes back
/// premultiplied, as egui stores it.
pub fn parse_hex_color(s: &str) -> (c: Option<Color>)
    ensures
        c == spec_parse_hex_color(s@),
{
    let t = trim(s);
    parse_trimmed_hex_color(t)
}

/// The value of two hexadecimal digits: sixteen times the first plus the second.
pub open spec fn two_digit_value(a: char, b: char) -> u8 {
    (hex_digit_value(a) * 16 + hex_digit_value(b)) as u8
}

/// The channels of a color come from its digit pairs in order: red from the
/// first pair, green from the second, blue from the third and, with eight
/// digits, alpha from the fourth (the color then premultiplied). The eight-digit
/// color is the six-digit color of its first six digits, premultiplied by its
/// alpha pair.
pub proof fn law_hex_channels_in_order(u: Seq<char>)
    requires
        all_hex_digits(u),
        u.len() == 6 || u.len() == 8,
    ensures
        u.len() == 6 ==> spec_hex_digits_color(u) == Some(
            Color {
                r: two_digit_value(u[0], u[1]),
                g: two_digit_value(u[2], u[3]),
                b: two_digit_value(u[4], u[5]),
                a: 255,
            },
        ),
        u.len() == 8 ==> ({
            let p = premultiplied_rgba(
                two_digit_value(u[0], u[1]),
                two_digit_value(u[2], u[3]),
                two_digit_value(u[4], u[5]),
                two_digit_value(u[6], u[7]),
            );
            spec_hex_digits_color(u) == Some(Color { r: p.0, g: p.1, b: p.2, a: p.3 })
        }),
        u.len() == 8 ==> ({
            let c6 = spec_hex_digits_color(u.subrange(0, 6));
            let p = premultiplied_rgba(
                c6.unwrap().r,
                c6.unwrap().g,
                c6.unwrap().b,
                two_digit_value(u[6], u[7]),
            );
            c6 is Some && spec_hex_digits_color(u) == Some(Color { r: p.0, g: p.1, b: p.2, a: p.3 })
        }),
{
    reveal_with_fuel(hex_value, 3);
    assert forall|at: int| 0 <= at && at + 2 <= u.len() implies pair_value(u, at) == two_digit_value(
        u[at],
        u[at + 1],
    ) by {
        let d = u.subrange(at, at + 2);
        assert(d.drop_last().drop_last().len() == 0);
        assert(d.drop_last().last() == u[at]);
        assert(d.last() == u[at + 1]);
    }
    if u.len() == 8 {
        let w = u.subrange(0, 6);
        assert(all_hex_digits(w));
        assert forall|at: int| 0 <= at && at + 2 <= 6 implies pair_value(w, at) == two_digit_value(
            u[at],
            u[at + 1],
        ) by {
            let d = w.subrange(at, at + 2);
            assert(d.drop_last().drop_last().len() == 0);
            assert(d.drop_last().last() == u[at]);
            assert(d.last() == u[at + 1]);
        }
    }
}

/// A leading `#`, and spaces around the text, do not change the color that a
/// string of hexadecimal digits names.
pub proof fn law_hash_and_spaces_are_ignored(u: Seq<char>)
    requires
        all_hex_digits(u),
        u.len() > 0,
    ensures
        spec_parse_hex_color(u) == spec_hex_digits_color(u),
        spec_parse_hex_color(seq!['#'] + u) == spec_hex_digits_color(u),
        spec_parse_hex_color(seq![' ', '#'] + u + seq![' ']) == spec_hex_digits_color(u),
{
    assert(is_hex_digit(u[0]) && is_hex_digit(u.last()));
    let a = seq!['#'] + u;
    assert(a.drop_first() =~= u);
    assert(a.last() == u.last());
    assert(trim_start_ws(u) == u);
    assert(trim_end_ws(u) == u);
    assert(trim_start_ws(a) == a);
    assert(trim_end_ws(a) == a);
    assert(strip_hashes(u) == u);
    assert(strip_hashes(a) == u);
    let b = seq![' ', '#'] + u + seq![' '];
    assert(b.drop_first() =~= a + seq![' ']);
    let a2 = a + seq![' '];
    assert(a2[0] == '#');
    assert(trim_start_ws(a2) == a2);
    assert(trim_start_ws(b) == a2);
    assert(a2.drop_last() =~= a);
    assert(trim_end_ws(a2) == a);
}

} // verus!
