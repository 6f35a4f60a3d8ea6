//! Accent-colour helpers: `#RRGGBB` validation and parsing, and the preview
//! and WCAG-status texts of the accent picker.
//!
//! The contrast ratio itself is computed in single-precision floating
//! point by the caller; this module takes its formatted text and its AA
//! verdict.

use vstd::prelude::*;

verus! {

/// HAYATE Original default accent, `#5A8BA8`.
pub const DEFAULT_ACCENT_HEX: &'static str = "#5A8BA8";
/// Red channel of the default accent.
pub const DEFAULT_ACCENT_R: u8 = 90;
/// Green channel of the default accent.
pub const DEFAULT_ACCENT_G: u8 = 139;
/// Blue channel of the default accent.
pub const DEFAULT_ACCENT_B: u8 = 168;

/// ASCII hexadecimal digit (`char::is_ascii_hexdigit`).
pub open spec fn is_hex_digit(c: char) -> bool {
    ('0' <= c <= '9') || ('a' <= c <= 'f') || ('A' <= c <= 'F')
}

/// Value of a hexadecimal digit.
pub open spec fn hex_value(c: char) -> int {
    if '0' <= c <= '9' {
        c as u32 - '0' as u32
    } else if 'a' <= c <= 'f' {
        c as u32 - 'a' as u32 + 10
    } else {
        c as u32 - 'A' as u32 + 10
    }
}

/// `#` followed by exactly six hexadecimal digits, any case.
pub open spec fn is_valid_hex_spec(s: Seq<char>) -> bool {
    &&& s.len() == 7
    &&& s[0] == '#'
    &&& forall|i: int| 1 <= i < 7 ==> is_hex_digit(#[trigger] s[i])
}

/// Byte encoded by the two hexadecimal digits at `i` and `i + 1`.
pub open spec fn hex_byte(s: Seq<char>, i: int) -> int {
    hex_value(s[i]) * 16 + hex_value(s[i + 1])
}

/// Colour of a hex literal; the default accent when it is not valid.
pub open spec fn parse_hex_spec(s: Seq<char>) -> (u8, u8, u8) {
    if is_valid_hex_spec(s) {
        (hex_byte(s, 1) as u8, hex_byte(s, 3) as u8, hex_byte(s, 5) as u8)
    } else {
        (DEFAULT_ACCENT_R, DEFAULT_ACCENT_G, DEFAULT_ACCENT_B)
    }
}

fn hex_digit(c: char) -> (r: Option<u8>)
    ensures
        match r {
            Some(v) => is_hex_digit(c) && v == hex_value(c),
            None => !is_hex_digit(c),
        },
{
    if '0' <= c && c <= '9' {
        Some((c as u32 - '0' as u32) as u8)
    } else if 'a' <= c && c <= 'f' {
        Some((c as u32 - 'a' as u32 + 10) as u8)
    } else if 'A' <= c && c <= 'F' {
        Some((c as u32 - 'A' as u32 + 10) as u8)
    } else {
        None
    }
}

/// `#RRGGBB` check: `#` then six hexadecimal digits, case-insensitive.
pub fn is_valid_hex(hex: &str) -> (r: bool)
    ensures
        r == is_valid_hex_spec(hex@),
{
    if hex.unicode_len() != 7 || hex.get_char(0) != '#' {
        return false;
    }
    let mut i: usize = 1;
    while i < 7
        invariant
            hex@.len() == 7,
            hex@[0] == '#',
            1 <= i <= 7,
            forall|k: int| 1 <= k < i ==> is_hex_digit(#[trigger] hex@[k]),
        decreases 7 - i,
    {
        if hex_digit(hex.get_char(i)).is_none() {
            return false;
        }
        i = i + 1;
    }
    true
}

fn byte_at(hex: &str, i: usize) -> (r: u8)
    requires
        is_valid_hex_spec(hex@),
        1 <= i <= 5,
    ensures
        r == hex_byte(hex@, i as int),
{
    let hi = hex_digit(hex.get_char(i));
    let lo = hex_digit(hex.get_char(i + 1));
    match (hi, lo) {
        (Some(h), Some(l)) => h * 16 + l,
        _ => 0,
    }
}

/// Parse `#RRGGBB` into `(r, g, b)`; an invalid literal gives the default
/// accent `(90, 139, 168)`, so that a preview can keep rendering.
pub fn parse_hex_or_default(hex: &str) -> (r: (u8, u8, u8))
    ensures
        r == parse_hex_spec(hex@),
{
    if !is_valid_hex(hex) {
        return (DEFAULT_ACCENT_R, DEFAULT_ACCENT_G, DEFAULT_ACCENT_B);
    }
    (byte_at(hex, 1), byte_at(hex, 3), byte_at(hex, 5))
}

/// Text of the preview swatch label.
pub open spec fn preview_text_spec(hex: Seq<char>) -> Seq<char> {
    if is_valid_hex_spec(hex) {
        "Preview swatch: "@ + hex
    } else {
        "Preview swatch: "@ + hex + " (invalid hex → fallback "@ + DEFAULT_ACCENT_HEX@ + ")"@
    }
}

/// Preview swatch label text: the literal echoed, with a fallback note
/// when it is not a valid `#RRGGBB`.
pub fn update_preview_text(hex: &str, _r: u8, _g: u8, _b: u8) -> (r: String)
    ensures
        r@ == preview_text_spec(hex@),
{
    let mut s = String::from_str("Preview swatch: ");
    s.append(hex);
    if !is_valid_hex(hex) {
        s.append(" (invalid hex → fallback ");
        s.append(DEFAULT_ACCENT_HEX);
        s.append(")");
    }
    s
}

/// How the literal is shown in the WCAG status.
pub open spec fn wcag_display_hex(hex: Seq<char>) -> Seq<char> {
    if is_valid_hex_spec(hex) {
        hex
    } else {
        hex + " (using fallback "@ + DEFAULT_ACCENT_HEX@ + ")"@
    }
}

/// Verdict wording of the WCAG status.
pub open spec fn wcag_verdict(aa_pass: bool) -> Seq<char> {
    if aa_pass {
        "PASS"@
    } else {
        "FAIL: pick a darker / lighter accent"@
    }
}

/// Text of the WCAG status label.
pub open spec fn wcag_status_spec(hex: Seq<char>, ratio_text: Seq<char>, aa_pass: bool) -> Seq<
    char,
> {
    "WCAG AA (>=4.5:1): "@ + wcag_display_hex(hex) + " vs surface = "@ + ratio_text + " -- "@
        + wcag_verdict(aa_pass)
}

/// WCAG status label text: the literal (with a fallback note when it is
/// not valid), the contrast ratio against the surface as already
/// formatted (`"4.73:1"`), and the AA verdict (ratio at least 4.5).
pub fn compute_wcag_status(hex: &str, ratio_text: &str, aa_pass: bool) -> (r: String)
    ensures
        r@ == wcag_status_spec(hex@, ratio_text@, aa_pass),
{
    let mut s = String::from_str("WCAG AA (>=4.5:1): ");
    s.append(hex);
    if !is_valid_hex(hex) {
        s.append(" (using fallback ");
        s.append(DEFAULT_ACCENT_HEX);
        s.append(")");
    }
    s.append(" vs surface = ");
    s.append(ratio_text);
    s.append(" -- ");
    if aa_pass {
        s.append("PASS");
    } else {
        s.append("FAIL: pick a darker / lighter accent");
    }
    s
}

/// Every valid literal parses to exactly the bytes its digit pairs spell:
/// each pair encodes a value in `0..=255`, so nothing is truncated.
pub proof fn lemma_hex_round_trip(s: Seq<char>)
    requires
        is_valid_hex_spec(s),
    ensures
        0 <= hex_byte(s, 1) <= 255,
        0 <= hex_byte(s, 3) <= 255,
        0 <= hex_byte(s, 5) <= 255,
        parse_hex_spec(s).0 == hex_byte(s, 1),
        parse_hex_spec(s).1 == hex_byte(s, 3),
        parse_hex_spec(s).2 == hex_byte(s, 5),
{
    assert(is_hex_digit(s[1]) && is_hex_digit(s[2]));
    assert(is_hex_digit(s[3]) && is_hex_digit(s[4]));
    assert(is_hex_digit(s[5]) && is_hex_digit(s[6]));
}

} // verus!
