//! ASCII case folding and the narrowing of characters to bytes, shared by both matchers.
use vstd::prelude::*;

verus! {

/// Whether `b` is an ASCII uppercase letter.
pub open spec fn is_ascii_upper(b: u8) -> bool {
    65 <= b <= 90  // 'A' ..= 'Z'
}

/// Whether `b` is an ASCII lowercase letter.
pub open spec fn is_ascii_lower(b: u8) -> bool {
    97 <= b <= 122  // 'a' ..= 'z'
}

/// `b` with an ASCII uppercase letter turned into lowercase; every other byte is kept.
pub open spec fn ascii_lower(b: u8) -> u8 {
    if is_ascii_upper(b) {
        (b + 32) as u8  // 'a' - 'A' == 32
    } else {
        b
    }
}

/// `b` with an ASCII lowercase letter turned into uppercase; every other byte is kept.
pub open spec fn ascii_upper(b: u8) -> u8 {
    if is_ascii_lower(b) {
        (b - 32) as u8
    } else {
        b
    }
}

/// The byte that `c` narrows to, if its code point is at most 255.
pub open spec fn char_byte(c: char) -> Option<u8> {
    if (c as u32) <= 255 {
        Some(c as u8)
    } else {
        None
    }
}

/// ASCII lowercase of one byte.
pub fn to_ascii_lower(b: u8) -> (r: u8)
    ensures
        r == ascii_lower(b),
{
    if 65 <= b && b <= 90 {  // 'A' ..= 'Z'
        b + 32
    } else {
        b
    }
}

/// ASCII uppercase of one byte.
pub fn to_ascii_upper(b: u8) -> (r: u8)
    ensures
        r == ascii_upper(b),
{
    if 97 <= b && b <= 122 {  // 'a' ..= 'z'
        b - 32
    } else {
        b
    }
}

/// Narrows `c` to a byte when its code point fits in eight bits.
pub fn narrow_char(c: char) -> (r: Option<u8>)
    ensures
        r == char_byte(c),
{
    let code: u32 = c as u32;
    if code <= 255 {
        Some(code as u8)
    } else {
        None
    }
}

} // verus!
