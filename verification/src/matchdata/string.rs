//! `MatchData#string`.

use vstd::prelude::*;

use crate::bytes::copy;
use crate::matchdata::MatchData;

verus! {

/// `MatchData#string`: a copy of the haystack, which the caller is to
/// freeze.
pub fn method(data: &MatchData) -> (r: Vec<u8>)
    ensures
        r@ == data.model().string,
{
    copy(data.haystack())
}

} // verus!
