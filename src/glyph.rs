//! Where each character sits in the bitmap font, and how wide it is there.
//!
//! The font holds one glyph per row, `GLYPH_SOURCE_HEIGHT` pixels tall:
//! capitals, then small letters, then digits, then punctuation. Characters it
//! lacks are drawn as `?`.

use vstd::prelude::*;

verus! {

/// Height in pixels of one glyph row in the font bitmap.
pub const GLYPH_SOURCE_HEIGHT: u32 = 52;

/// Row of `?`, used for characters the font lacks.
pub const GLYPH_FALLBACK_ROW: u32 = 81;

/// Width of most glyphs, and of characters the font lacks.
pub const GLYPH_DEFAULT_WIDTH: u32 = 30;

/// Row of a punctuation mark or space, or of `?` for anything else.
pub open spec fn punctuation_row(c: char) -> u32 {
    match c {
        '!' => 62,
        '"' => 63,
        '$' => 64,
        '%' => 65,
        '&' => 66,
        '\'' => 67,
        '(' => 68,
        ')' => 69,
        '*' => 70,
        '+' => 71,
        ',' => 72,
        '-' => 73,
        '.' => 74,
        '/' => 75,
        ':' => 76,
        ';' => 77,
        '<' => 78,
        '=' => 79,
        '>' => 80,
        '?' => 81,
        '@' => 82,
        '[' => 83,
        '\\' => 84,
        ']' => 85,
        '_' => 86,
        ' ' => 87,
        _ => GLYPH_FALLBACK_ROW,
    }
}

/// Font row of `c`: `A`-`Z` from 0, `a`-`z` from 26, `0`-`9` from 52, then punctuation.
pub open spec fn glyph_row(c: char) -> u32 {
    if 'A' <= c <= 'Z' {
        (c as u32 - 'A' as u32) as u32
    } else if 'a' <= c <= 'z' {
        (26 + (c as u32 - 'a' as u32)) as u32
    } else if '0' <= c <= '9' {
        (52 + (c as u32 - '0' as u32)) as u32
    } else {
        punctuation_row(c)
    }
}

/// Width in font pixels of the glyph drawn for `c`.
pub open spec fn glyph_width(c: char) -> u32 {
    match c {
        '\'' => 8,
        'i' | 'l' | '!' | ',' | '.' | ':' | ';' => 12,
        'I' | '(' | ')' => 15,
        '1' | '"' | '[' | ']' => 18,
        't' => 20,
        'E' | 'F' | 'L' | 'S' | 'c' | 'f' | 'j' | 'r' | 's' | '$' | '*' | '+' | '-' | '/' | '<' | '>' | '\\' => 25,
        'N' | 'k' | '4' | '_' => 33,
        'K' => 34,
        '&' => 40,
        '%' | '@' => 43,
        'w' => 45,
        'M' | 'W' | 'm' => 50,
        _ => GLYPH_DEFAULT_WIDTH,
    }
}

/// Font row of the glyph drawn for `c`.
pub fn char_index(c: char) -> (r: u32)
    ensures
        r == glyph_row(c),
        r < 88,
{
    match c {
        'A'..='Z' => c as u32 - 'A' as u32,
        'a'..='z' => 26 + (c as u32 - 'a' as u32),
        '0'..='9' => 52 + (c as u32 - '0' as u32),
        '!' => 62,
        '"' => 63,
        '$' => 64,
        '%' => 65,
        '&' => 66,
        '\'' => 67,
        '(' => 68,
        ')' => 69,
        '*' => 70,
        '+' => 71,
        ',' => 72,
        '-' => 73,
        '.' => 74,
        '/' => 75,
        ':' => 76,
        ';' => 77,
        '<' => 78,
        '=' => 79,
        '>' => 80,
        '?' => 81,
        '@' => 82,
        '[' => 83,
        '\\' => 84,
        ']' => 85,
        '_' => 86,
        ' ' => 87,
        _ => GLYPH_FALLBACK_ROW,
    }
}

/// Width in font pixels of the glyph drawn for `c`.
pub fn source_char_width(c: char) -> (r: u32)
    ensures
        r == glyph_width(c),
        8 <= r <= 50,
{
    match c {
        '\'' => 8,
        'i' | 'l' | '!' | ',' | '.' | ':' | ';' => 12,
        'I' | '(' | ')' => 15,
        '1' | '"' | '[' | ']' => 18,
        't' => 20,
        'E' | 'F' | 'L' | 'S' | 'c' | 'f' | 'j' | 'r' | 's' | '$' | '*' | '+' | '-' | '/' | '<' | '>' | '\\' => 25,
        'N' | 'k' | '4' | '_' => 33,
        'K' => 34,
        '&' => 40,
        '%' | '@' => 43,
        'w' => 45,
        'M' | 'W' | 'm' => 50,
        _ => GLYPH_DEFAULT_WIDTH,
    }
}

} // verus!
