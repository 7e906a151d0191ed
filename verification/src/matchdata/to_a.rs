//! `MatchData#to_a`.

use vstd::prelude::*;
use vstd::string::StringSliceAdditionalSpecFns;

use crate::exception::{Exception, Kind};
use crate::matchdata::{MatchData, MatchModel};
use crate::regexp::RegexpType;
use crate::regexp::backend::NilableString;
use crate::regexp::backend::capture::extract_view;

verus! {

/// The message of the error raised where the pattern does not match the
/// region that it matched before.
pub open spec fn rematch_message() -> Seq<u8> {
    "MatchData region does not match its Regexp".spec_bytes()
}

/// What `to_a` gives: the captures of the match of the pattern against the
/// region. That the pattern does not match the region is a `Fatal` error.
pub open spec fn to_a_spec(data: MatchModel) -> Result<Seq<Option<Seq<u8>>>, (Kind, Seq<u8>)> {
    match data.regexp.captures(data.matched()) {
        Err(e) => Err(e),
        Ok(Some(captures)) => Ok(captures),
        Ok(None) => Err((Kind::Fatal, rematch_message())),
    }
}

/// `MatchData#to_a`: the capture of each group of the match, the whole match
/// first. The pattern is matched against the region again, so that the
/// result is the same for every call.
pub fn method(data: &MatchData) -> (r: Result<Vec<NilableString>, Exception>)
    ensures
        extract_view(r) == to_a_spec(data.model()),
{
    let haystack: &[u8] = data.matched();
    match data.regexp().inner().captures(haystack) {
        Err(e) => Err(e),
        Ok(Some(captures)) => Ok(captures),
        Ok(None) => Err(Exception::new(Kind::Fatal, "MatchData region does not match its Regexp")),
    }
}

/// The captures of a match depend on nothing but the bytes of the region
/// and on how the pattern matches: two results with the same bytes in their
/// regions, whose patterns match by the same engine, pattern and options,
/// have the same captures.
pub proof fn lemma_captures_repeat(first: MatchModel, second: MatchModel)
    requires
        first.matched() == second.matched(),
        first.regexp.key() == second.regexp.key(),
        first.regexp.error() == second.regexp.error(),
    ensures
        to_a_spec(first) == to_a_spec(second),
{
}

} // verus!
