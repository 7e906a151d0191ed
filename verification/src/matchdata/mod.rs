//! `MatchData`: the result of a match, as the haystack, the pattern and the
//! region of the haystack that matched.
//!
//! The captures are not stored: what an accessor returns is worked out from
//! a new match of the pattern against the region.

pub mod element_reference;
pub mod length;
pub mod pre_match;
pub mod string;
pub mod to_a;

use vstd::prelude::*;

use crate::bytes::copy;
use crate::regexp::Regexp;
use crate::regexp::model::Model;

verus! {

/// A range of bytes of a haystack.
#[derive(Debug, Clone, Copy, PartialEq, Eq, Structural)]
pub struct Region {
    /// The offset of the first byte.
    pub start: usize,
    /// The offset behind the last byte.
    pub end: usize,
}

/// The result of a match.
#[derive(Debug)]
pub struct MatchData {
    string: Vec<u8>,
    regexp: Regexp,
    region: Region,
}

/// What a `MatchData` is, seen as plain data.
pub struct MatchModel {
    /// The haystack.
    pub string: Seq<u8>,
    /// The pattern.
    pub regexp: Model,
    /// The region of the haystack that matched.
    pub region: Region,
}

impl MatchModel {
    /// The bytes of the haystack that matched.
    pub open spec fn matched(self) -> Seq<u8> {
        self.string.subrange(self.region.start as int, self.region.end as int)
    }
}

impl Clone for MatchData {
    fn clone(&self) -> (r: MatchData)
        ensures
            r.model() == self.model(),
    {
        self.dup()
    }
}

impl MatchData {
    /// The region is a range of bytes of the haystack.
    #[verifier::type_invariant]
    spec fn inv(&self) -> bool {
        self.region.start <= self.region.end <= self.string@.len()
    }

    /// The haystack, the pattern and the region, as plain data.
    pub closed spec fn model(&self) -> MatchModel {
        MatchModel { string: self.string@, regexp: self.regexp.model(), region: self.region }
    }

    /// The result of a match of `regexp` against `string` in which the bytes
    /// from `start` to `end` matched.
    pub fn new(string: Vec<u8>, regexp: Regexp, start: usize, end: usize) -> (r: MatchData)
        requires
            start <= end <= string@.len(),
        ensures
            r.model() == (MatchModel {
                string: string@,
                regexp: regexp.model(),
                region: Region { start, end },
            }),
    {
        MatchData { string, regexp, region: Region { start, end } }
    }

    /// The haystack.
    pub fn haystack(&self) -> (r: &[u8])
        ensures
            r@ == self.model().string,
    {
        self.string.as_slice()
    }

    /// The pattern.
    pub fn regexp(&self) -> (r: &Regexp)
        ensures
            r.model() == self.model().regexp,
    {
        &self.regexp
    }

    /// The region of the haystack that matched, which is a range of its
    /// bytes.
    pub fn region(&self) -> (r: Region)
        ensures
            r == self.model().region,
            r.start <= r.end <= self.model().string.len(),
    {
        proof {
            use_type_invariant(self);
        }
        self.region
    }

    /// The bytes of the haystack that matched.
    pub fn matched(&self) -> (r: &[u8])
        ensures
            r@ == self.model().matched(),
    {
        proof {
            use_type_invariant(self);
        }
        vstd::slice::slice_subrange(self.string.as_slice(), self.region.start, self.region.end)
    }

    /// A copy of the result.
    pub fn dup(&self) -> (r: MatchData)
        ensures
            r.model() == self.model(),
    {
        proof {
            use_type_invariant(self);
        }
        MatchData {
            string: copy(self.string.as_slice()),
            regexp: self.regexp.box_clone(),
            region: self.region,
        }
    }
}

} // verus!
