//! One match of a pattern against a haystack, and what it publishes.
//!
//! Every operation that matches goes through the same steps. It clears the
//! groups, the string of the match and the strings beside it, runs the
//! engine on the haystack from the position that was asked for, and then
//! either publishes the match or records that there was none.

use vstd::prelude::*;
use vstd::string::StringSliceAdditionalSpecFns;
use vstd::utf8::valid_utf8;

use crate::bytes::copy;
use crate::exception::{Exception, Kind};
use crate::matchdata::{MatchData, MatchModel, Region};
use crate::regexp::Regexp;
use crate::regexp::backend::{
    from_utf8, haystack_error, haystack_message, search_spec, Matcher, NilableString,
};
use crate::regexp::backend::capture::{extract, extract_spec};
use crate::regexp::backend::position::{start_offset, start_offset_spec};
use crate::regexp::backend::regex_utf8::slots_view;
use crate::regexp::globals::{match_view, Globals, GlobalsModel};
use crate::regexp::model::Model;
use crate::types::Int;

verus! {

/// The region of the haystack that a match covers, where the match was found
/// in the part of the haystack from `offset` on with the spans `slots`: the
/// span of the whole match, moved by `offset`. The whole haystack where the
/// engine reports no span for the whole match.
pub open spec fn region_of(
    haystack: Seq<u8>,
    offset: usize,
    slots: Seq<Option<(usize, usize)>>,
) -> Region {
    if slots.len() > 0 && slots[0] is Some {
        Region {
            start: (offset + slots[0].unwrap().0) as usize,
            end: (offset + slots[0].unwrap().1) as usize,
        }
    } else {
        Region { start: 0, end: haystack.len() as usize }
    }
}

/// What a search of the part of the haystack from `offset` on comes to: the
/// globals after it, and the match, if any.
///
/// Nothing found sets `$~` to `nil`. A match is published: its region is
/// the span of the whole match in the haystack, and its captures are the
/// bytes that the spans cover. Spans that are no ranges of bytes of the part
/// that was searched are a `Fatal` error.
pub open spec fn conclude_spec(
    settled: Model,
    globals: GlobalsModel,
    haystack: Seq<u8>,
    offset: usize,
    found: Option<Seq<Option<(usize, usize)>>>,
) -> (GlobalsModel, Result<Option<MatchModel>, (Kind, Seq<u8>)>) {
    match found {
        None => (globals.failed(), Ok(None)),
        Some(slots) => match extract_spec(
            haystack.subrange(offset as int, haystack.len() as int),
            slots,
        ) {
            Err(e) => (globals, Err(e)),
            Ok(captures) => {
                let matched = MatchModel {
                    string: haystack,
                    regexp: settled,
                    region: region_of(haystack, offset, slots),
                };
                (GlobalsModel::published(matched, captures), Ok(Some(matched)))
            },
        },
    }
}

/// The outcome of a match: the globals after it, and the match, if any.
pub open spec fn match_spec(
    model: Model,
    globals: GlobalsModel,
    haystack: Seq<u8>,
    pos: Option<Int>,
) -> (GlobalsModel, Result<Option<MatchModel>, (Kind, Seq<u8>)>) {
    if model.error() is Some {
        (globals, Err(model.error().unwrap()))
    } else if !valid_utf8(haystack) {
        (globals, Err((Kind::ArgumentError, haystack_message(model.kind()))))
    } else {
        match start_offset_spec(haystack, pos) {
            Err(e) => (globals.cleared(), Err(e)),
            Ok(None) => (globals.failed(), Ok(None)),
            Ok(Some(offset)) => {
                let target = haystack.subrange(offset as int, haystack.len() as int);
                if !valid_utf8(target) {
                    (globals.failed(), Ok(None))
                } else {
                    match search_spec(model.key(), target, 0) {
                        Err(e) => (globals.cleared(), Err(e)),
                        Ok(found) => conclude_spec(
                            model.settled(),
                            globals.cleared(),
                            haystack,
                            offset,
                            found,
                        ),
                    }
                }
            },
        }
    }
}

/// A match that may have failed, or an exception seen by its class and
/// message.
pub open spec fn matched_view(result: Result<Option<MatchData>, Exception>) -> Result<
    Option<MatchModel>,
    (Kind, Seq<u8>),
> {
    match result {
        Ok(found) => Ok(match_view(found)),
        Err(e) => Err(e@),
    }
}

/// Concludes a match from what a search of the part of `haystack` from
/// `offset` on found: the spans of the groups of the match, or nothing.
///
/// Publishes the match and returns it, or sets `$~` to `nil` where nothing
/// was found. Spans that are no ranges of bytes of the part that was searched
/// are a `Fatal` error, which leaves the globals as they are.
pub fn conclude(
    regexp: Regexp,
    globals: &mut Globals,
    haystack: &[u8],
    offset: usize,
    found: Option<Vec<Option<(usize, usize)>>>,
) -> (r: Result<Option<MatchData>, Exception>)
    requires
        offset <= haystack@.len(),
    ensures
        (final(globals)@, matched_view(r)) == conclude_spec(
            regexp.model(),
            old(globals)@,
            haystack@,
            offset,
            slots_view(found),
        ),
{
    let slots: Vec<Option<(usize, usize)>> = match found {
        None => {
            globals.fail();
            return Ok(None);
        },
        Some(slots) => slots,
    };
    let target: &[u8] = vstd::slice::slice_subrange(haystack, offset, haystack.len());
    let captures: Vec<NilableString> = match extract(target, &slots) {
        Err(e) => {
            return Err(e);
        },
        Ok(captures) => captures,
    };
    let region: Region = if slots.len() > 0 {
        match slots[0] {
            Some((start, end)) => Region { start: offset + start, end: offset + end },
            None => Region { start: 0, end: haystack.len() },
        }
    } else {
        Region { start: 0, end: haystack.len() }
    };
    let matched = MatchData::new(copy(haystack), regexp, region.start, region.end);
    globals.publish(&matched, &captures);
    Ok(Some(matched))
}

/// Matches the pattern against the haystack at or after the position `pos`,
/// which counts characters, from the end if it is negative.
///
/// The groups, the string of the match and the strings beside it are cleared
/// first. A match is published and returned; where there is none, `$~` is
/// set to `nil`. A haystack that is not UTF-8 is an `ArgumentError`.
pub fn match_at(
    matcher: &Matcher<'_>,
    regexp: Regexp,
    globals: &mut Globals,
    haystack: &[u8],
    pos: Option<Int>,
) -> (r: Result<Option<MatchData>, Exception>)
    requires
        matcher.wf(),
    ensures
        forall|model: Model|
            model.error() is None && model.key() == matcher.key() && model.settled()
                == regexp.model() ==> (final(globals)@, matched_view(r)) == #[trigger] match_spec(
                model,
                old(globals)@,
                haystack@,
                pos,
            ),
{
    if from_utf8(haystack).is_none() {
        return Err(haystack_error(matcher.kind()));
    }
    globals.clear_capture_globals();
    let offset: usize = match start_offset(haystack, pos) {
        Err(e) => {
            return Err(e);
        },
        Ok(None) => {
            globals.fail();
            return Ok(None);
        },
        Ok(Some(offset)) => offset,
    };
    let target: &[u8] = vstd::slice::slice_subrange(haystack, offset, haystack.len());
    if from_utf8(target).is_none() {
        globals.fail();
        return Ok(None);
    }
    match matcher.search(target, 0) {
        Err(e) => Err(e),
        Ok(found) => conclude(regexp, globals, haystack, offset, found),
    }
}

/// The message of the error raised for a match that begins at an offset that
/// is more than the interpreter's integers hold.
pub open spec fn match_position_message() -> Seq<u8> {
    "Match position does not fit in Integer max".spec_bytes()
}

/// What `=~` gives for the outcome of a match: the byte offset at which the
/// match begins, or `nil` where there is none.
pub open spec fn match_operator_spec(found: Result<Option<MatchModel>, (Kind, Seq<u8>)>) -> Result<
    Option<Int>,
    (Kind, Seq<u8>),
> {
    match found {
        Err(e) => Err(e),
        Ok(None) => Ok(None),
        Ok(Some(matched)) => if matched.region.start <= Int::MAX {
            Ok(Some(matched.region.start as Int))
        } else {
            Err((Kind::Fatal, match_position_message()))
        },
    }
}

/// The byte offset at which a match begins, or `nil` where there is none.
pub fn match_position(found: Result<Option<MatchData>, Exception>) -> (r: Result<
    Option<Int>,
    Exception,
>)
    ensures
        crate::value::outcome(r) == match_operator_spec(matched_view(found)),
{
    match found {
        Err(e) => Err(e),
        Ok(None) => Ok(None),
        Ok(Some(matched)) => match Int::try_from(matched.region().start) {
            Ok(start) => Ok(Some(start)),
            Err(_) => Err(
                Exception::new(Kind::Fatal, "Match position does not fit in Integer max"),
            ),
        },
    }
}

/// What `===` gives for the outcome of a match: whether there is one.
pub open spec fn case_match_spec(found: Result<Option<MatchModel>, (Kind, Seq<u8>)>) -> Result<
    bool,
    (Kind, Seq<u8>),
> {
    match found {
        Err(e) => Err(e),
        Ok(found) => Ok(found is Some),
    }
}

/// Whether there is a match.
pub fn match_found(found: Result<Option<MatchData>, Exception>) -> (r: Result<bool, Exception>)
    ensures
        crate::value::outcome(r) == case_match_spec(matched_view(found)),
{
    match found {
        Err(e) => Err(e),
        Ok(found) => Ok(found.is_some()),
    }
}

} // verus!
