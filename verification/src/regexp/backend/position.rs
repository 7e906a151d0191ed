//! Where in a haystack a match is to start.
//!
//! A position counts characters, and counts from the end if it is negative.
//! A search starts at a byte offset.

use vstd::prelude::*;
use vstd::string::StringSliceAdditionalSpecFns;
use vstd::utf8::valid_utf8;

use crate::exception::{Exception, Kind};
use crate::regexp::backend::{haystack_error, haystack_message, search_spec, Key, Matcher};
use crate::types::Int;
use crate::value::outcome;

verus! {

/// Whether a byte begins a character in UTF-8, that is, continues none.
pub open spec fn is_lead(b: u8) -> bool {
    b < 128 || b >= 192
}

/// The number of characters that begin in the bytes.
pub open spec fn leads(s: Seq<u8>) -> nat
    decreases s.len(),
{
    if s.len() == 0 {
        0
    } else {
        leads(s.drop_last()) + if is_lead(s.last()) {
            1nat
        } else {
            0nat
        }
    }
}

/// The offset at or after `at` at which the character begins that has `n`
/// characters beginning between `at` and itself, or the length of the bytes
/// where there is no such character.
pub open spec fn skip_chars(s: Seq<u8>, at: int, n: nat) -> int
    decreases s.len() - at,
{
    if at < 0 || at >= s.len() {
        s.len() as int
    } else if is_lead(s[at]) {
        if n == 0 {
            at
        } else {
            skip_chars(s, at + 1, (n - 1) as nat)
        }
    } else {
        skip_chars(s, at + 1, n)
    }
}

/// The number of characters in the bytes, counted by the bytes that begin
/// one.
pub fn char_count(haystack: &[u8]) -> (r: usize)
    ensures
        r == leads(haystack@),
{
    let mut count: usize = 0;
    let mut i: usize = 0;
    while i < haystack.len()
        invariant
            i <= haystack@.len(),
            count <= i,
            count == leads(haystack@.take(i as int)),
        decreases haystack@.len() - i,
    {
        proof {
            assert(haystack@.take(i + 1).drop_last() =~= haystack@.take(i as int));
        }
        let b: u8 = haystack[i];
        if b < 128 || b >= 192 {
            count += 1;
        }
        i += 1;
    }
    assert(haystack@.take(haystack@.len() as int) =~= haystack@);
    count
}

/// The byte offset at which the character number `n` begins, counted from 0,
/// or the length of the bytes where they hold no more than `n` characters.
pub fn char_offset(haystack: &[u8], n: usize) -> (r: usize)
    ensures
        r == skip_chars(haystack@, 0, n as nat),
        r <= haystack@.len(),
{
    let mut left: usize = n;
    let mut i: usize = 0;
    while i < haystack.len()
        invariant
            i <= haystack@.len(),
            skip_chars(haystack@, 0, n as nat) == skip_chars(haystack@, i as int, left as nat),
        decreases haystack@.len() - i,
    {
        let b: u8 = haystack[i];
        if b < 128 || b >= 192 {
            if left == 0 {
                return i;
            }
            left -= 1;
        }
        i += 1;
    }
    haystack.len()
}

/// The message of the error raised for a position that no haystack can
/// hold.
pub open spec fn position_message() -> Seq<u8> {
    "invalid position".spec_bytes()
}

/// The byte offset at which a match from the position `pos` starts: that of
/// the character number `pos`, or of the character `-pos` before the end. No
/// offset where a negative position reaches back before the first character;
/// an `ArgumentError` for a position that is more than a size holds.
pub open spec fn start_offset_spec(haystack: Seq<u8>, pos: Option<Int>) -> Result<
    Option<usize>,
    (Kind, Seq<u8>),
> {
    let pos: int = match pos {
        Some(pos) => pos as int,
        None => 0,
    };
    if pos > usize::MAX {
        Err((Kind::ArgumentError, position_message()))
    } else if pos >= 0 {
        Ok(Some(skip_chars(haystack, 0, pos as nat) as usize))
    } else if -pos > leads(haystack) {
        Ok(None)
    } else {
        Ok(Some(skip_chars(haystack, 0, (leads(haystack) + pos) as nat) as usize))
    }
}

/// The byte offset at which a match from the position `pos` starts.
pub fn start_offset(haystack: &[u8], pos: Option<Int>) -> (r: Result<Option<usize>, Exception>)
    ensures
        outcome(r) == start_offset_spec(
            haystack@,
            pos,
        ),
        r matches Ok(Some(offset)) ==> offset <= haystack@.len(),
{
    let pos: Int = match pos {
        Some(pos) => pos,
        None => 0,
    };
    if pos >= 0 {
        match usize::try_from(pos) {
            Ok(pos) => Ok(Some(char_offset(haystack, pos))),
            Err(_) => Err(Exception::new(Kind::ArgumentError, "invalid position")),
        }
    } else {
        let count: usize = char_count(haystack);
        let back: u64 = if pos == Int::MIN {
            9223372036854775808u64
        } else {
            (-pos) as u64
        };
        if back > count as u64 {
            Ok(None)
        } else {
            Ok(Some(char_offset(haystack, (count as u64 - back) as usize)))
        }
    }
}

/// What `is_match` gives: whether the pattern matches in the haystack at or
/// after the position `pos`.
///
/// A haystack that is not UTF-8 is an `ArgumentError`. A negative position
/// that reaches back before the first character gives `false`.
pub open spec fn is_match_spec(key: Key, haystack: Seq<u8>, pos: Option<Int>) -> Result<
    bool,
    (Kind, Seq<u8>),
> {
    if !valid_utf8(haystack) {
        Err((Kind::ArgumentError, haystack_message(key.kind)))
    } else {
        match start_offset_spec(haystack, pos) {
            Err(e) => Err(e),
            Ok(None) => Ok(false),
            Ok(Some(offset)) => {
                let target = haystack.subrange(offset as int, haystack.len() as int);
                if !valid_utf8(target) {
                    Ok(false)
                } else {
                    match search_spec(key, target, 0) {
                        Err(e) => Err(e),
                        Ok(found) => Ok(found is Some),
                    }
                }
            },
        }
    }
}

/// Whether the pattern matches in the haystack at or after the position
/// `pos`, which counts characters, from the end if it is negative.
pub fn is_match(matcher: &Matcher<'_>, haystack: &[u8], pos: Option<Int>) -> (r: Result<
    bool,
    Exception,
>)
    requires
        matcher.wf(),
    ensures
        outcome(r) == is_match_spec(matcher.key(), haystack@, pos),
{
    if crate::regexp::backend::from_utf8(haystack).is_none() {
        return Err(haystack_error(matcher.kind()));
    }
    let offset: usize = match start_offset(haystack, pos) {
        Err(e) => {
            return Err(e);
        },
        Ok(None) => {
            return Ok(false);
        },
        Ok(Some(offset)) => offset,
    };
    let target: &[u8] = vstd::slice::slice_subrange(haystack, offset, haystack.len());
    if crate::regexp::backend::from_utf8(target).is_none() {
        return Ok(false);
    }
    match matcher.search(target, 0) {
        Err(e) => Err(e),
        Ok(found) => Ok(found.is_some()),
    }
}

} // verus!
