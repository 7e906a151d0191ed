//! From the spans that a search finds to the strings that were captured.

use vstd::prelude::*;
use vstd::string::StringSliceAdditionalSpecFns;

use crate::bytes::copy;
use crate::exception::{Exception, Kind};
use crate::regexp::backend::{groups_model, search_spec, Key, Matcher, NilableString};
use crate::value::outcome;

verus! {

/// Whether a span, if there is one, is a range of bytes of a haystack of
/// `len` bytes.
pub open spec fn span_within(span: Option<(usize, usize)>, len: int) -> bool {
    span matches Some((start, end)) ==> start <= end <= len
}

/// Whether all the spans are ranges of bytes of a haystack of `len` bytes.
pub open spec fn spans_within(slots: Seq<Option<(usize, usize)>>, len: int) -> bool {
    forall|i: int| 0 <= i < slots.len() ==> span_within(#[trigger] slots[i], len)
}

/// The bytes of the haystack that a span covers.
pub open spec fn capture_of(haystack: Seq<u8>, span: Option<(usize, usize)>) -> Option<Seq<u8>> {
    match span {
        Some((start, end)) => Some(haystack.subrange(start as int, end as int)),
        None => None,
    }
}

/// The bytes of the haystack that each span covers.
pub open spec fn captures_of(haystack: Seq<u8>, slots: Seq<Option<(usize, usize)>>) -> Seq<
    Option<Seq<u8>>,
> {
    slots.map_values(|span: Option<(usize, usize)>| capture_of(haystack, span))
}

/// A string that may be `nil`, seen as a sequence of bytes.
pub open spec fn nilable_view(capture: Option<Vec<u8>>) -> Option<Seq<u8>> {
    match capture {
        Some(bytes) => Some(bytes@),
        None => None,
    }
}

/// A list of strings that may be `nil`, each seen as a sequence of bytes.
pub open spec fn nilables_view(captures: Seq<Option<Vec<u8>>>) -> Seq<Option<Seq<u8>>> {
    captures.map_values(|capture: Option<Vec<u8>>| nilable_view(capture))
}

/// The message of the error raised where an engine reports a span that is no
/// range of bytes of the haystack.
pub open spec fn span_message() -> Seq<u8> {
    "Capture lies outside of the haystack".spec_bytes()
}

/// The captures that the spans of a match stand for.
pub open spec fn extract_spec(haystack: Seq<u8>, slots: Seq<Option<(usize, usize)>>) -> Result<
    Seq<Option<Seq<u8>>>,
    (Kind, Seq<u8>),
> {
    if spans_within(slots, haystack.len() as int) {
        Ok(captures_of(haystack, slots))
    } else {
        Err((Kind::Fatal, span_message()))
    }
}

/// A list of captures, or an exception seen by its class and message.
pub open spec fn extract_view(result: Result<Vec<NilableString>, Exception>) -> Result<
    Seq<Option<Seq<u8>>>,
    (Kind, Seq<u8>),
> {
    match result {
        Ok(captures) => Ok(nilables_view(captures@)),
        Err(e) => Err(e@),
    }
}

/// The captures of a match that may have failed, or an exception seen by its
/// class and message.
pub open spec fn captures_view(result: Result<Option<Vec<NilableString>>, Exception>) -> Result<
    Option<Seq<Option<Seq<u8>>>>,
    (Kind, Seq<u8>),
> {
    match result {
        Ok(Some(captures)) => Ok(Some(nilables_view(captures@))),
        Ok(None) => Ok(None),
        Err(e) => Err(e@),
    }
}

/// One capture that may be missing, or an exception seen by its class and
/// message.
pub open spec fn capture_view(result: Result<NilableString, Exception>) -> Result<
    Option<Seq<u8>>,
    (Kind, Seq<u8>),
> {
    match result {
        Ok(capture) => Ok(nilable_view(capture)),
        Err(e) => Err(e@),
    }
}

/// A copy of a string that may be `nil`.
pub fn dup(capture: &NilableString) -> (r: NilableString)
    ensures
        nilable_view(r) == nilable_view(*capture),
{
    match capture {
        Some(bytes) => Some(copy(bytes.as_slice())),
        None => None,
    }
}

/// The error raised where an engine reports a span that is no range of bytes
/// of the haystack.
pub fn span_error() -> (r: Exception)
    ensures
        r@ == (Kind::Fatal, span_message()),
{
    Exception::new(Kind::Fatal, "Capture lies outside of the haystack")
}

/// The bytes of the haystack that each span of a match covers: one string for
/// each group, `nil` for a group that took no part in the match. A span that
/// is no range of bytes of the haystack is a `Fatal` error.
pub fn extract(haystack: &[u8], slots: &Vec<Option<(usize, usize)>>) -> (r: Result<
    Vec<NilableString>,
    Exception,
>)
    ensures
        extract_view(r) == extract_spec(haystack@, slots@),
{
    let mut captures: Vec<NilableString> = Vec::new();
    let mut i: usize = 0;
    while i < slots.len()
        invariant
            i <= slots@.len(),
            captures@.len() == i,
            forall|k: int| 0 <= k < i ==> span_within(#[trigger] slots@[k], haystack@.len() as int),
            forall|k: int|
                0 <= k < i ==> nilable_view(#[trigger] captures@[k]) == capture_of(
                    haystack@,
                    slots@[k],
                ),
        decreases slots@.len() - i,
    {
        match slots[i] {
            Some((start, end)) => {
                if start <= end && end <= haystack.len() {
                    let bytes: Vec<u8> = copy(vstd::slice::slice_subrange(haystack, start, end));
                    captures.push(Some(bytes));
                } else {
                    return Err(span_error());
                }
            },
            None => {
                captures.push(None);
            },
        }
        i += 1;
    }
    assert(nilables_view(captures@) =~= captures_of(haystack@, slots@));
    Ok(captures)
}

/// What `captures` gives: nothing where the pattern does not match, else the
/// capture of each group of the leftmost match.
pub open spec fn captures_spec(key: Key, haystack: Seq<u8>) -> Result<
    Option<Seq<Option<Seq<u8>>>>,
    (Kind, Seq<u8>),
> {
    match search_spec(key, haystack, 0) {
        Err(e) => Err(e),
        Ok(None) => Ok(None),
        Ok(Some(slots)) => match extract_spec(haystack, slots) {
            Ok(captures) => Ok(Some(captures)),
            Err(e) => Err(e),
        },
    }
}

/// Matches the pattern against the haystack and gives the capture of each
/// group of the leftmost match, or nothing where the pattern does not match.
pub fn captures(matcher: &Matcher<'_>, haystack: &[u8]) -> (r: Result<
    Option<Vec<NilableString>>,
    Exception,
>)
    requires
        matcher.wf(),
    ensures
        captures_view(r) == captures_spec(matcher.key(), haystack@),
{
    match matcher.search(haystack, 0) {
        Err(e) => Err(e),
        Ok(None) => Ok(None),
        Ok(Some(slots)) => match extract(haystack, &slots) {
            Ok(captures) => Ok(Some(captures)),
            Err(e) => Err(e),
        },
    }
}

/// What `captures_len` gives: with a haystack, the number of groups of the
/// leftmost match in it, the whole match counted, and 0 where there is no
/// match; without one, the number of groups of the pattern, the whole match
/// not counted.
pub open spec fn captures_len_spec(key: Key, haystack: Option<Seq<u8>>) -> Result<
    usize,
    (Kind, Seq<u8>),
> {
    match haystack {
        Some(haystack) => match search_spec(key, haystack, 0) {
            Err(e) => Err(e),
            Ok(None) => Ok(0),
            Ok(Some(slots)) => Ok(slots.len() as usize),
        },
        None => Ok(groups_model(key)),
    }
}

/// The number of groups: those of the leftmost match in a haystack, or those
/// of the pattern where no haystack is given.
pub fn captures_len(matcher: &Matcher<'_>, haystack: Option<&[u8]>) -> (r: Result<usize, Exception>)
    requires
        matcher.wf(),
    ensures
        outcome(r) == captures_len_spec(
            matcher.key(),
            match haystack {
                Some(haystack) => Some(haystack@),
                None => None,
            },
        ),
{
    match haystack {
        Some(haystack) => match matcher.search(haystack, 0) {
            Err(e) => Err(e),
            Ok(None) => Ok(0),
            Ok(Some(slots)) => Ok(slots.len()),
        },
        None => Ok(matcher.groups()),
    }
}

/// What `capture0` gives: the bytes of the leftmost match, or nothing where
/// the pattern does not match.
pub open spec fn capture0_spec(key: Key, haystack: Seq<u8>) -> Result<
    Option<Seq<u8>>,
    (Kind, Seq<u8>),
> {
    match search_spec(key, haystack, 0) {
        Err(e) => Err(e),
        Ok(None) => Ok(None),
        Ok(Some(slots)) => if slots.len() == 0 {
            Ok(None)
        } else if span_within(slots[0], haystack.len() as int) {
            Ok(capture_of(haystack, slots[0]))
        } else {
            Err((Kind::Fatal, span_message()))
        },
    }
}

/// The bytes of the leftmost match of the pattern in the haystack.
pub fn capture0<'h>(matcher: &Matcher<'_>, haystack: &'h [u8]) -> (r: Result<
    Option<&'h [u8]>,
    Exception,
>)
    requires
        matcher.wf(),
    ensures
        match r {
            Ok(Some(bytes)) => capture0_spec(matcher.key(), haystack@) == Ok::<
                Option<Seq<u8>>,
                (Kind, Seq<u8>),
            >(Some(bytes@)),
            Ok(None) => capture0_spec(matcher.key(), haystack@) == Ok::<
                Option<Seq<u8>>,
                (Kind, Seq<u8>),
            >(None),
            Err(e) => capture0_spec(matcher.key(), haystack@) == Err::<
                Option<Seq<u8>>,
                (Kind, Seq<u8>),
            >(e@),
        },
{
    match matcher.search(haystack, 0) {
        Err(e) => Err(e),
        Ok(None) => Ok(None),
        Ok(Some(slots)) => {
            if slots.len() == 0 {
                Ok(None)
            } else {
                match slots[0] {
                    Some((start, end)) => {
                        if start <= end && end <= haystack.len() {
                            Ok(Some(vstd::slice::slice_subrange(haystack, start, end)))
                        } else {
                            Err(span_error())
                        }
                    },
                    None => Ok(None),
                }
            }
        },
    }
}

/// What `pos` gives: the span of the group `at` of the leftmost match, or
/// nothing where there is no match or no such group in it.
pub open spec fn pos_spec(key: Key, haystack: Seq<u8>, at: usize) -> Result<
    Option<(usize, usize)>,
    (Kind, Seq<u8>),
> {
    match search_spec(key, haystack, 0) {
        Err(e) => Err(e),
        Ok(None) => Ok(None),
        Ok(Some(slots)) => if at < slots.len() {
            Ok(slots[at as int])
        } else {
            Ok(None)
        },
    }
}

/// The byte span of the group `at` of the leftmost match of the pattern in
/// the haystack.
pub fn pos(matcher: &Matcher<'_>, haystack: &[u8], at: usize) -> (r: Result<
    Option<(usize, usize)>,
    Exception,
>)
    requires
        matcher.wf(),
    ensures
        outcome(r) == pos_spec(matcher.key(), haystack@, at),
{
    match matcher.search(haystack, 0) {
        Err(e) => Err(e),
        Ok(None) => Ok(None),
        Ok(Some(slots)) => {
            if at < slots.len() {
                Ok(slots[at])
            } else {
                Ok(None)
            }
        },
    }
}

} // verus!
