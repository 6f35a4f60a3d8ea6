//! Initial window size: the `<W>x<H>` override parser.

use vstd::prelude::*;

use crate::text::{parse_u32, parse_u32_spec, trim, trim_str};

verus! {

/// Initial window width when no usable override is given.
pub const WINDOW_DEFAULT_WIDTH: u32 = 800;
/// Initial window height when no usable override is given.
pub const WINDOW_DEFAULT_HEIGHT: u32 = 540;
/// Smallest window width an override may request.
pub const WINDOW_MIN_WIDTH: u32 = 560;
/// Smallest window height an override may request.
pub const WINDOW_MIN_HEIGHT: u32 = 400;

pub open spec fn is_size_separator(c: char) -> bool {
    c == 'x' || c == 'X'
}

/// Index of the first `x` / `X` at or after `from`.
pub open spec fn first_separator_from(s: Seq<char>, from: int) -> Option<int>
    decreases s.len() - from,
{
    if from < 0 || from >= s.len() {
        None
    } else if is_size_separator(s[from]) {
        Some(from)
    } else {
        first_separator_from(s, from + 1)
    }
}

pub open spec fn max_u32(a: u32, b: u32) -> u32 {
    if a >= b {
        a
    } else {
        b
    }
}

/// Window size requested by a `<W>x<H>` spec: split at the first `x` or
/// `X`, parse both trimmed halves as `u32`, raise each to the minimum; any
/// other input yields the default size.
pub open spec fn window_size_spec(spec: Seq<char>) -> (u32, u32) {
    match first_separator_from(spec, 0) {
        Some(i) => {
            let w = parse_u32_spec(trim(spec.subrange(0, i)));
            let h = parse_u32_spec(trim(spec.subrange(i + 1, spec.len() as int)));
            match (w, h) {
                (Some(w), Some(h)) => (
                    max_u32(w, WINDOW_MIN_WIDTH),
                    max_u32(h, WINDOW_MIN_HEIGHT),
                ),
                _ => (WINDOW_DEFAULT_WIDTH, WINDOW_DEFAULT_HEIGHT),
            }
        },
        None => (WINDOW_DEFAULT_WIDTH, WINDOW_DEFAULT_HEIGHT),
    }
}

fn find_separator(spec: &str) -> (r: Option<usize>)
    ensures
        match r {
            Some(i) => first_separator_from(spec@, 0) == Some(i as int) && i < spec@.len(),
            None => first_separator_from(spec@, 0) is None,
        },
{
    let n = spec.unicode_len();
    let mut i: usize = 0;
    while i < n
        invariant
            n == spec@.len(),
            i <= n,
            first_separator_from(spec@, 0) == first_separator_from(spec@, i as int),
        decreases n - i,
    {
        let c = spec.get_char(i);
        if c == 'x' || c == 'X' {
            return Some(i);
        }
        i = i + 1;
    }
    None
}

/// Parse a `<W>x<H>` window-size spec (separator `x` or `X`), raising each
/// axis to the minimum size; an unparsable spec gives the default size.
pub fn parse_window_size(spec: &str) -> (r: (u32, u32))
    ensures
        r == window_size_spec(spec@),
        r.0 >= WINDOW_MIN_WIDTH,
        r.1 >= WINDOW_MIN_HEIGHT,
{
    let n = spec.unicode_len();
    match find_separator(spec) {
        Some(i) => {
            let w_part = spec.substring_char(0, i);
            let h_part = spec.substring_char(i + 1, n);
            let w = parse_u32(trim_str(w_part));
            let h = parse_u32(trim_str(h_part));
            match (w, h) {
                (Some(w), Some(h)) => {
                    let w2 = if w >= WINDOW_MIN_WIDTH {
                        w
                    } else {
                        WINDOW_MIN_WIDTH
                    };
                    let h2 = if h >= WINDOW_MIN_HEIGHT {
                        h
                    } else {
                        WINDOW_MIN_HEIGHT
                    };
                    (w2, h2)
                },
                _ => (WINDOW_DEFAULT_WIDTH, WINDOW_DEFAULT_HEIGHT),
            }
        },
        None => (WINDOW_DEFAULT_WIDTH, WINDOW_DEFAULT_HEIGHT),
    }
}

} // verus!
