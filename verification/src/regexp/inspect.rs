//! How a pattern is shown.

use vstd::prelude::*;

use crate::bytes::append;
use crate::regexp::Config;
use crate::regexp::backend::from_utf8;
use crate::regexp::enc::Encoding;
use crate::regexp::opts::Options;

verus! {

/// The bytes with a backslash put before every slash.
pub open spec fn slashes_escaped(s: Seq<u8>) -> Seq<u8>
    decreases s.len(),
{
    if s.len() == 0 {
        Seq::<u8>::empty()
    } else if s.last() == 47 {
        slashes_escaped(s.drop_last()) + seq![92u8, 47u8]
    } else {
        slashes_escaped(s.drop_last()).push(s.last())
    }
}

/// How a pattern is shown: between slashes, with the letters of its options
/// and of its encoding behind. A slash in a pattern that is UTF-8 is shown
/// with a backslash before it.
pub open spec fn inspect_of(literal: (Seq<u8>, Options), encoding: Encoding) -> Seq<u8> {
    seq![47u8] + (if vstd::utf8::valid_utf8(literal.0) {
        slashes_escaped(literal.0)
    } else {
        literal.0
    }) + seq![47u8] + literal.1.modifier_spec() + encoding.string_spec()
}

/// The pattern as `inspect` shows it.
pub fn inspect_config(literal: &Config, encoding: Encoding) -> (r: Vec<u8>)
    ensures
        r@ == inspect_of(literal@, encoding),
{
    let pattern: &[u8] = literal.pattern();
    let mut out: Vec<u8> = Vec::new();
    out.push(47u8);
    if from_utf8(pattern).is_some() {
        let ghost head = out@;
        let mut i: usize = 0;
        while i < pattern.len()
            invariant
                i <= pattern@.len(),
                out@ == head + slashes_escaped(pattern@.take(i as int)),
            decreases pattern@.len() - i,
        {
            proof {
                assert(pattern@.take(i + 1).drop_last() =~= pattern@.take(i as int));
            }
            if pattern[i] == 47u8 {
                out.push(92u8);
                out.push(47u8);
            } else {
                out.push(pattern[i]);
            }
            i += 1;
        }
        assert(pattern@.take(pattern@.len() as int) =~= pattern@);
    } else {
        append(&mut out, pattern);
    }
    out.push(47u8);
    let modifiers: Vec<u8> = literal.options().modifier_string();
    append(&mut out, modifiers.as_slice());
    append(&mut out, encoding.string().as_bytes());
    out
}

} // verus!
