//! The globals that mirror the last match: `$~`, `$&`, `` $` ``, `$'` and
//! `$1`, `$2` and so on.
//!
//! Every operation that matches clears the groups, the string of the match
//! and the strings beside it before it runs the engine. A match then
//! publishes all of them; a failure sets `$~` to `nil`.

use vstd::prelude::*;
use vstd::string::StringSliceAdditionalSpecFns;

use crate::bytes::{copy, decimal};
use crate::matchdata::{MatchData, MatchModel};
use crate::regexp::{
    nth_match_group, LAST_MATCHED_STRING, STRING_LEFT_OF_MATCH, STRING_RIGHT_OF_MATCH,
};
use crate::regexp::backend::NilableString;
use crate::regexp::backend::capture::{dup, nilable_view, nilables_view};
use crate::regexp::backend::names::named_view;

verus! {

/// The globals of the last match.
#[derive(Debug)]
pub struct Globals {
    last_match: Option<MatchData>,
    last_matched_string: NilableString,
    string_left_of_match: NilableString,
    string_right_of_match: NilableString,
    groups: Vec<NilableString>,
    active_regexp_globals: usize,
}

/// The globals of the last match, seen as plain data.
pub struct GlobalsModel {
    /// `$~`: the last match.
    pub last_match: Option<MatchModel>,
    /// `$&`: the string that matched.
    pub last_matched_string: Option<Seq<u8>>,
    /// `` $` ``: the string to the left of the match.
    pub string_left_of_match: Option<Seq<u8>>,
    /// `$'`: the string to the right of the match.
    pub string_right_of_match: Option<Seq<u8>>,
    /// `$1`, `$2` and so on: the captures of the groups of the match.
    pub groups: Seq<Option<Seq<u8>>>,
    /// The number of groups of the last match, the whole match counted; 0
    /// where no match has published its groups.
    pub active_regexp_globals: usize,
}

impl GlobalsModel {
    /// The globals before any match.
    pub open spec fn empty() -> GlobalsModel {
        GlobalsModel {
            last_match: None,
            last_matched_string: None,
            string_left_of_match: None,
            string_right_of_match: None,
            groups: Seq::empty(),
            active_regexp_globals: 0,
        }
    }

    /// The globals after they were cleared for a match: no groups, no string
    /// of the match and no strings beside it; `$~` as it was.
    pub open spec fn cleared(self) -> GlobalsModel {
        GlobalsModel {
            last_match: self.last_match,
            last_matched_string: None,
            string_left_of_match: None,
            string_right_of_match: None,
            groups: Seq::empty(),
            active_regexp_globals: 0,
        }
    }

    /// The globals after a match failed: cleared, and `$~` set to `nil`.
    pub open spec fn failed(self) -> GlobalsModel {
        GlobalsModel {
            last_match: None,
            last_matched_string: None,
            string_left_of_match: None,
            string_right_of_match: None,
            groups: Seq::empty(),
            active_regexp_globals: 0,
        }
    }

    /// The globals after the match `matched` with the captures `captures`
    /// was published: `$~` is the match, `$&` the capture of the whole match,
    /// `$1` and so on those of its groups, and the strings beside the match
    /// are the bytes of the haystack before and behind the region.
    pub open spec fn published(matched: MatchModel, captures: Seq<Option<Seq<u8>>>) -> GlobalsModel {
        GlobalsModel {
            last_match: Some(matched),
            last_matched_string: if captures.len() > 0 {
                captures[0]
            } else {
                None
            },
            string_left_of_match: Some(matched.string.subrange(0, matched.region.start as int)),
            string_right_of_match: Some(
                matched.string.subrange(matched.region.end as int, matched.string.len() as int),
            ),
            groups: if captures.len() > 0 {
                captures.subrange(1, captures.len() as int)
            } else {
                Seq::empty()
            },
            active_regexp_globals: captures.len() as usize,
        }
    }

    /// What `$n` holds for `n` from 1 on: the capture of group `n` of the
    /// last match, `nil` where the group took no part or does not exist.
    pub open spec fn nth(self, group: usize) -> Option<Seq<u8>> {
        if 1 <= group <= self.groups.len() {
            self.groups[group - 1]
        } else {
            None
        }
    }

    /// The number of the last group for which a global is written: that of
    /// the last group that the match before or this match has published.
    pub open spec fn written_groups(self, stale: usize) -> usize {
        if self.active_regexp_globals >= stale {
            self.active_regexp_globals
        } else {
            stale
        }
    }

    /// The globals that hold strings, by name and in the order in which they
    /// are written to the interpreter: `$&`, `` $` `` and `$'`, then `$1` and
    /// so on up to the last group that the match before or this match has
    /// published.
    pub open spec fn named(self, stale: usize) -> Seq<(Seq<u8>, Option<Seq<u8>>)> {
        seq![
            ("$&".spec_bytes(), self.last_matched_string),
            ("$`".spec_bytes(), self.string_left_of_match),
            ("$'".spec_bytes(), self.string_right_of_match),
        ] + Seq::new(
            self.written_groups(stale) as nat,
            |i: int| (seq![36u8] + decimal(i + 1), self.nth((i + 1) as usize)),
        )
    }
}

/// A match that may be missing, seen as plain data.
pub open spec fn match_view(found: Option<MatchData>) -> Option<MatchModel> {
    match found {
        Some(found) => Some(found.model()),
        None => None,
    }
}

impl View for Globals {
    type V = GlobalsModel;

    closed spec fn view(&self) -> GlobalsModel {
        GlobalsModel {
            last_match: match_view(self.last_match),
            last_matched_string: nilable_view(self.last_matched_string),
            string_left_of_match: nilable_view(self.string_left_of_match),
            string_right_of_match: nilable_view(self.string_right_of_match),
            groups: nilables_view(self.groups@),
            active_regexp_globals: self.active_regexp_globals,
        }
    }
}

impl Globals {
    /// The globals before any match.
    pub fn new() -> (r: Globals)
        ensures
            r@ == GlobalsModel::empty(),
    {
        let r = Globals {
            last_match: None,
            last_matched_string: None,
            string_left_of_match: None,
            string_right_of_match: None,
            groups: Vec::new(),
            active_regexp_globals: 0,
        };
        assert(r@.groups =~= Seq::empty());
        r
    }

    /// Clears the globals for a match: the groups `$1` and so on, the string
    /// of the match and the strings beside it.
    pub fn clear_capture_globals(&mut self)
        ensures
            final(self)@ == old(self)@.cleared(),
    {
        self.groups = Vec::new();
        self.last_matched_string = None;
        self.active_regexp_globals = 0;
        self.string_left_of_match = None;
        self.string_right_of_match = None;
        assert(self@.groups =~= Seq::empty());
    }

    /// Records that a match failed: clears the globals and sets `$~` to
    /// `nil`.
    pub fn fail(&mut self)
        ensures
            final(self)@ == old(self)@.failed(),
    {
        self.clear_capture_globals();
        self.last_match = None;
    }

    /// Sets `$~` to `nil` and leaves the other globals as they are.
    pub fn unset_last_match(&mut self)
        ensures
            final(self)@ == (GlobalsModel { last_match: None, ..old(self)@ }),
    {
        self.last_match = None;
    }

    /// Publishes a match and its captures.
    pub fn publish(&mut self, matched: &MatchData, captures: &Vec<NilableString>)
        ensures
            final(self)@ == GlobalsModel::published(matched.model(), nilables_view(captures@)),
    {
        let region = matched.region();
        let haystack = matched.haystack();
        let mut groups: Vec<NilableString> = Vec::new();
        let mut i: usize = 1;
        while i < captures.len()
            invariant
                1 <= i,
                captures@.len() > 0 ==> i <= captures@.len(),
                captures@.len() > 0 ==> groups@.len() == i - 1,
                captures@.len() == 0 ==> groups@.len() == 0,
                forall|k: int|
                    0 <= k < groups@.len() ==> nilable_view(#[trigger] groups@[k]) == nilable_view(
                        captures@[k + 1],
                    ),
            decreases captures@.len() - i,
        {
            groups.push(dup(&captures[i]));
            i += 1;
        }
        self.last_matched_string = if captures.len() > 0 {
            dup(&captures[0])
        } else {
            None
        };
        self.string_left_of_match = Some(copy(vstd::slice::slice_subrange(haystack, 0, region.start)));
        self.string_right_of_match = Some(
            copy(vstd::slice::slice_subrange(haystack, region.end, haystack.len())),
        );
        self.groups = groups;
        self.active_regexp_globals = captures.len();
        self.last_match = Some(matched.dup());
        proof {
            let wanted = GlobalsModel::published(matched.model(), nilables_view(captures@));
            assert(self@.groups =~= wanted.groups);
        }
    }

    /// Sets `$~` again to a match that was published before, as after a
    /// block has run that may have matched on its own.
    pub fn restore_last_match(&mut self, matched: &MatchData)
        ensures
            final(self)@ == (GlobalsModel { last_match: Some(matched.model()), ..old(self)@ }),
    {
        self.last_match = Some(matched.dup());
    }

    /// `$~`: the last match.
    pub fn last_match(&self) -> (r: Option<&MatchData>)
        ensures
            match r {
                Some(found) => self@.last_match == Some(found.model()),
                None => self@.last_match is None,
            },
    {
        self.last_match.as_ref()
    }

    /// `$&`: the string that matched.
    pub fn last_matched_string(&self) -> (r: Option<&[u8]>)
        ensures
            match r {
                Some(bytes) => self@.last_matched_string == Some(bytes@),
                None => self@.last_matched_string is None,
            },
    {
        match &self.last_matched_string {
            Some(bytes) => Some(bytes.as_slice()),
            None => None,
        }
    }

    /// `` $` ``: the string to the left of the match.
    pub fn string_left_of_match(&self) -> (r: Option<&[u8]>)
        ensures
            match r {
                Some(bytes) => self@.string_left_of_match == Some(bytes@),
                None => self@.string_left_of_match is None,
            },
    {
        match &self.string_left_of_match {
            Some(bytes) => Some(bytes.as_slice()),
            None => None,
        }
    }

    /// `$'`: the string to the right of the match.
    pub fn string_right_of_match(&self) -> (r: Option<&[u8]>)
        ensures
            match r {
                Some(bytes) => self@.string_right_of_match == Some(bytes@),
                None => self@.string_right_of_match is None,
            },
    {
        match &self.string_right_of_match {
            Some(bytes) => Some(bytes.as_slice()),
            None => None,
        }
    }

    /// `$n` for `n` from 1 on: the capture of group `n` of the last match.
    pub fn nth_match_group(&self, group: usize) -> (r: Option<&[u8]>)
        ensures
            match r {
                Some(bytes) => self@.nth(group) == Some(bytes@),
                None => self@.nth(group) is None,
            },
    {
        if 1 <= group && group <= self.groups.len() {
            match &self.groups[group - 1] {
                Some(bytes) => Some(bytes.as_slice()),
                None => None,
            }
        } else {
            None
        }
    }

    /// The globals that hold strings, by name and in the order in which they
    /// are to be written to the interpreter. `stale` is the number of groups
    /// that the match before had published, whose globals are written again
    /// so that none keeps a capture of that match.
    pub fn named(&self, stale: usize) -> (r: Vec<(Vec<u8>, NilableString)>)
        ensures
            named_view(r@) == self@.named(stale),
    {
        let mut slots: Vec<(Vec<u8>, NilableString)> = Vec::new();
        slots.push((copy(LAST_MATCHED_STRING.as_bytes()), dup(&self.last_matched_string)));
        slots.push((copy(STRING_LEFT_OF_MATCH.as_bytes()), dup(&self.string_left_of_match)));
        slots.push((copy(STRING_RIGHT_OF_MATCH.as_bytes()), dup(&self.string_right_of_match)));
        let count: usize = if self.active_regexp_globals >= stale {
            self.active_regexp_globals
        } else {
            stale
        };
        let mut written: usize = 0;
        while written < count
            invariant
                written <= count,
                slots@.len() == 3 + written,
                named_view(slots@).subrange(0, 3) == self@.named(stale).subrange(0, 3),
                count == self@.written_groups(stale),
                forall|k: int|
                    0 <= k < written ==> (#[trigger] slots@[3 + k]).0@ == seq![36u8] + decimal(
                        k + 1,
                    ) && nilable_view(slots@[3 + k].1) == self@.nth((k + 1) as usize),
            decreases count - written,
        {
            let group: usize = written + 1;
            let capture: NilableString = match self.nth_match_group(group) {
                Some(bytes) => Some(copy(bytes)),
                None => None,
            };
            let ghost before = named_view(slots@);
            slots.push((nth_match_group(group), capture));
            assert(named_view(slots@).subrange(0, 3) =~= before.subrange(0, 3));
            written += 1;
        }
        proof {
            let wanted = self@.named(stale);
            assert forall|k: int| 0 <= k < slots@.len() implies named_view(slots@)[k]
                == wanted[k] by {
                if k < 3 {
                    assert(named_view(slots@).subrange(0, 3)[k] == wanted.subrange(0, 3)[k]);
                } else {
                    assert(slots@[3 + (k - 3)] == slots@[k]);
                }
            }
            assert(named_view(slots@) =~= wanted);
        }
        slots
    }

    /// The number of groups of the last match, the whole match counted; 0
    /// where no match has published its groups.
    pub fn active_regexp_globals(&self) -> (r: usize)
        ensures
            r == self@.active_regexp_globals,
    {
        self.active_regexp_globals
    }
}

} // verus!
