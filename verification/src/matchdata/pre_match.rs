//! `MatchData#pre_match`.

use vstd::prelude::*;

use crate::bytes::copy;
use crate::matchdata::MatchData;

verus! {

/// `MatchData#pre_match`: the bytes of the haystack before the region that
/// matched.
pub fn method(data: &MatchData) -> (r: Vec<u8>)
    ensures
        r@ == data.model().string.subrange(0, data.model().region.start as int),
{
    let region = data.region();
    copy(vstd::slice::slice_subrange(data.haystack(), 0, region.start))
}

} // verus!
