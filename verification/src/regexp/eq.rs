//! When two `Regexp`s are equal.

use vstd::prelude::*;
use vstd::std_specs::cmp::PartialEqSpecImpl;

use crate::bytes::equal;
use crate::regexp::{Regexp, RegexpType};

verus! {

impl PartialEq for Regexp {
    /// Whether the two have the same compiled pattern, and encodings that
    /// match the same way.
    fn eq(&self, other: &Regexp) -> (r: bool) {
        equal(self.inner().derived_config().pattern(), other.inner().derived_config().pattern())
            && self.inner().encoding().same(other.inner().encoding())
    }
}

impl PartialEqSpecImpl for Regexp {
    open spec fn obeys_eq_spec() -> bool {
        true
    }

    open spec fn eq_spec(&self, other: &Regexp) -> bool {
        self.model().derived.0 == other.model().derived.0 && self.model().encoding.same_spec(
            other.model().encoding,
        )
    }
}

} // verus!
