//! Overlay colours: `#RRGGBB` text to a red, green and blue triple.

use crate::text::chars_of;
use vstd::prelude::*;

verus! {

/// The colour that stands in for any text that is not a hex colour: a dark green.
pub open spec fn fallback_color() -> (u8, u8, u8) {
    (27u8, 94u8, 32u8)
}

/// Whether `c` is one of `0-9`, `a-f`, `A-F`.
pub open spec fn is_hex_digit(c: char) -> bool {
    ('0' <= c && c <= '9') || ('a' <= c && c <= 'f') || ('A' <= c && c <= 'F')
}

/// The number a hex digit stands for, 0 to 15.
pub open spec fn hex_value(c: char) -> int {
    if '0' <= c && c <= '9' {
        c as int - '0' as int
    } else if 'a' <= c && c <= 'f' {
        c as int - 'a' as int + 10
    } else {
        c as int - 'A' as int + 10
    }
}

/// `s` without its first character, where that is a `#`.
pub open spec fn strip_hash(s: Seq<char>) -> Seq<char> {
    if s.len() > 0 && s[0] == '#' {
        s.skip(1)
    } else {
        s
    }
}

/// Whether `h` is exactly six hex digits.
pub open spec fn is_hex_color(h: Seq<char>) -> bool {
    h.len() == 6 && forall|i: int| 0 <= i < 6 ==> is_hex_digit(#[trigger] h[i])
}

/// The byte written by the two hex digits `hi` and `lo`, most significant first.
pub open spec fn hex_pair(hi: char, lo: char) -> u8 {
    (16 * hex_value(hi) + hex_value(lo)) as u8
}

/// The colour that `s` stands for: with one leading `#` taken off, six hex
/// digits give red, green and blue; anything else gives the fallback.
pub open spec fn decode_color(s: Seq<char>) -> (u8, u8, u8) {
    let h = strip_hash(s);
    if is_hex_color(h) {
        (hex_pair(h[0], h[1]), hex_pair(h[2], h[3]), hex_pair(h[4], h[5]))
    } else {
        fallback_color()
    }
}

/// The value of the hex digit `c`, or `None` where `c` is no hex digit.
pub fn hex_digit(c: char) -> (v: Option<u8>)
    ensures
        v is Some <==> is_hex_digit(c),
        v matches Some(d) ==> d == hex_value(c) && d < 16,
{
    if '0' <= c && c <= '9' {
        Some(c as u8 - '0' as u8)
    } else if 'a' <= c && c <= 'f' {
        Some(c as u8 - 'a' as u8 + 10)
    } else if 'A' <= c && c <= 'F' {
        Some(c as u8 - 'A' as u8 + 10)
    } else {
        None
    }
}

/// The byte written by the two hex digits `hi` and `lo`, or `None` where one
/// of them is no hex digit.
fn hex_byte(hi: char, lo: char) -> (v: Option<u8>)
    ensures
        v is Some <==> is_hex_digit(hi) && is_hex_digit(lo),
        v matches Some(b) ==> b == hex_pair(hi, lo),
{
    match hex_digit(hi) {
        Some(h) => match hex_digit(lo) {
            Some(l) => Some(16 * h + l),
            None => None,
        },
        None => None,
    }
}

/// Decodes a colour written as `#RRGGBB` or `RRGGBB`. Any other text gives
/// the fallback colour: the function has a result for every input.
pub fn decode_hex_color(s: &str) -> (rgb: (u8, u8, u8))
    ensures
        rgb == decode_color(s@),
{
    let chars = chars_of(s);
    let n: usize = chars.len();
    let start: usize = if n > 0 && chars[0] == '#' {
        1
    } else {
        0
    };
    let ghost h = strip_hash(s@);
    assert(h.len() == n - start);
    assert(forall|i: int| 0 <= i < h.len() ==> h[i] == chars@[start + i]);
    if n - start != 6 {
        return (27, 94, 32);
    }
    let red = hex_byte(chars[start], chars[start + 1]);
    let green = hex_byte(chars[start + 2], chars[start + 3]);
    let blue = hex_byte(chars[start + 4], chars[start + 5]);
    match (red, green, blue) {
        (Some(r), Some(g), Some(b)) => {
            assert(is_hex_color(h));
            (r, g, b)
        },
        _ => {
            assert(!(is_hex_digit(h[0]) && is_hex_digit(h[1]) && is_hex_digit(h[2])
                && is_hex_digit(h[3]) && is_hex_digit(h[4]) && is_hex_digit(h[5])));
            (27, 94, 32)
        },
    }
}

/// Text that, with one leading `#` taken off, is not six characters long or
/// holds a character that is no hex digit, decodes to the fallback colour.
pub proof fn lemma_malformed_color_falls_back(s: Seq<char>)
    requires
        strip_hash(s).len() != 6 || exists|i: int|
            0 <= i < strip_hash(s).len() && !is_hex_digit(#[trigger] strip_hash(s)[i]),
    ensures
        decode_color(s) == fallback_color(),
{
}

/// Six hex digits decode to the bytes they write, with or without a `#` before them.
pub proof fn lemma_hash_is_optional(h: Seq<char>)
    requires
        is_hex_color(h),
    ensures
        decode_color(h) == (hex_pair(h[0], h[1]), hex_pair(h[2], h[3]), hex_pair(h[4], h[5])),
        decode_color(seq!['#'] + h) == decode_color(h),
{
    assert(!is_hex_digit('#'));
    assert(h[0] != '#');
    assert((seq!['#'] + h).skip(1) == h);
}

} // verus!
