//! The syntax of patterns: what has a meaning of its own in a pattern, and
//! how to write it so that it has none.

use vstd::prelude::*;

verus! {

/// How a byte is written in a pattern that matches the byte itself: a byte
/// that has a meaning in a pattern behind a backslash, a space and the
/// control characters tab, newline, vertical tab, form feed and return by
/// their escapes, and every other byte as it is.
pub open spec fn escape_byte(b: u8) -> Seq<u8> {
    if b == 10 {
        seq![92u8, 110u8]
    } else if b == 9 {
        seq![92u8, 116u8]
    } else if b == 13 {
        seq![92u8, 114u8]
    } else if b == 12 {
        seq![92u8, 102u8]
    } else if b == 11 {
        seq![92u8, 118u8]
    } else if is_meta_character(b) {
        seq![92u8, b]
    } else {
        seq![b]
    }
}

/// Whether a byte has a meaning in a pattern, or is a space: one of
/// `[ ] { } ( ) | - * . \ ? + ^ $ #` and the space.
pub open spec fn is_meta_character(b: u8) -> bool {
    b == 91 || b == 93 || b == 123 || b == 125 || b == 40 || b == 41 || b == 124 || b == 45
        || b == 42 || b == 46 || b == 92 || b == 63 || b == 43 || b == 94 || b == 36 || b == 35
        || b == 32
}

/// The pattern that matches the bytes themselves.
pub open spec fn escape_spec(s: Seq<u8>) -> Seq<u8>
    decreases s.len(),
{
    if s.len() == 0 {
        Seq::<u8>::empty()
    } else {
        escape_spec(s.drop_last()) + escape_byte(s.last())
    }
}

/// Whether a byte has a meaning in a pattern, or is a space.
pub fn is_meta(b: u8) -> (r: bool)
    ensures
        r == is_meta_character(b),
{
    b == 91 || b == 93 || b == 123 || b == 125 || b == 40 || b == 41 || b == 124 || b == 45
        || b == 42 || b == 46 || b == 92 || b == 63 || b == 43 || b == 94 || b == 36 || b == 35
        || b == 32
}

/// The pattern that matches the bytes of `pattern` themselves.
pub fn escape(pattern: &[u8]) -> (r: Vec<u8>)
    ensures
        r@ == escape_spec(pattern@),
{
    let mut out: Vec<u8> = Vec::new();
    let mut i: usize = 0;
    while i < pattern.len()
        invariant
            i <= pattern@.len(),
            out@ == escape_spec(pattern@.take(i as int)),
        decreases pattern@.len() - i,
    {
        proof {
            assert(pattern@.take(i + 1).drop_last() =~= pattern@.take(i as int));
        }
        let b: u8 = pattern[i];
        let letter: u8 = if b == 10 {
            110
        } else if b == 9 {
            116
        } else if b == 13 {
            114
        } else if b == 12 {
            102
        } else if b == 11 {
            118
        } else if is_meta(b) {
            b
        } else {
            0
        };
        if letter != 0 {
            out.push(92u8);
            out.push(letter);
        } else {
            out.push(b);
        }
        i += 1;
    }
    assert(pattern@.take(pattern@.len() as int) =~= pattern@);
    out
}

} // verus!
