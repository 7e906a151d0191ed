//! `MatchData#length`.

use vstd::prelude::*;
use vstd::string::StringSliceAdditionalSpecFns;

use crate::exception::{Exception, Kind};
use crate::matchdata::{MatchData, MatchModel};
use crate::regexp::RegexpType;
use crate::types::Int;
use crate::value::outcome;

verus! {

/// The message of the error raised for a number of groups that is more than
/// the interpreter's integers hold.
pub open spec fn length_message() -> Seq<u8> {
    "MatchData#length does not fit in Integer max".spec_bytes()
}

/// What `length` gives: the number of groups of the match of the pattern
/// against the region, the whole match counted.
pub open spec fn length_spec(data: MatchModel) -> Result<Int, (Kind, Seq<u8>)> {
    match data.regexp.captures_len(Some(data.matched())) {
        Err(e) => Err(e),
        Ok(len) => if len <= Int::MAX {
            Ok(len as Int)
        } else {
            Err((Kind::Fatal, length_message()))
        },
    }
}

/// `MatchData#length`: the number of groups of the match, the whole match
/// counted. The pattern is matched against the region again.
pub fn method(data: &MatchData) -> (r: Result<Int, Exception>)
    ensures
        outcome(r) == length_spec(data.model()),
{
    let haystack: &[u8] = data.matched();
    match data.regexp().inner().captures_len(Some(haystack)) {
        Err(e) => Err(e),
        Ok(len) => match Int::try_from(len) {
            Ok(len) => Ok(len),
            Err(_) => Err(
                Exception::new(Kind::Fatal, "MatchData#length does not fit in Integer max"),
            ),
        },
    }
}

} // verus!
