//! ASCII text, read byte by byte.

use vstd::prelude::*;
use vstd::string::*;

verus! {

pub(crate) const SPACE: u8 = 32;

pub(crate) const PLUS: u8 = 43;

pub(crate) const MINUS: u8 = 45;

pub(crate) const POINT: u8 = 46;

pub(crate) const DIGIT_0: u8 = 48;

pub(crate) const DIGIT_9: u8 = 57;

pub(crate) const COLON: u8 = 58;

pub(crate) const CAPITAL_E: u8 = 69;

pub(crate) const CAPITAL_H: u8 = 72;

pub(crate) const CAPITAL_L: u8 = 76;

pub(crate) const SMALL_E: u8 = 101;

/// The character at `at` of an ASCII text, as a byte.
pub(crate) fn byte_at(text: &str, at: usize) -> (byte: u8)
    requires
        text.is_ascii(),
        at < text@.len(),
    ensures
        byte == text@[at as int] as int,
        byte < 128,
{
    text.get_ascii(at)
}

/// The number of characters of an ASCII text.
pub(crate) fn ascii_len(text: &str) -> (len: usize)
    requires
        text.is_ascii(),
    ensures
        len == text@.len(),
{
    proof {
        is_ascii_spec_bytes(text);
    }
    text.as_bytes().len()
}

} // verus!
