//! All the matches of a pattern in a haystack, one after the other.

use vstd::prelude::*;
use vstd::string::StringSliceAdditionalSpecFns;
use vstd::utf8::valid_utf8;

use crate::bytes::copy;
use crate::exception::{Exception, Kind};
use crate::matchdata::{MatchData, MatchModel, Region};
use crate::regexp::Regexp;
use crate::regexp::backend::{
    from_utf8, groups_model, haystack_error, haystack_message, search_spec, Key, Matcher,
    NilableString,
};
use crate::regexp::backend::capture::{
    dup, extract, nilable_view, nilables_view, span_error, span_message, spans_within,
};
use crate::regexp::globals::{Globals, GlobalsModel};
use crate::regexp::model::Model;
use crate::value::{outcome, Block, Value};

verus! {

/// What one match gives to the block or to the result of `scan`.
#[derive(Debug)]
pub enum Scanned {
    /// The string that matched, for a pattern without groups.
    Match(Vec<u8>),
    /// The captures of the groups, for a pattern with groups.
    Groups(Vec<NilableString>),
}

/// What one match gives, seen as plain data.
pub enum ScannedModel {
    /// The string that matched, for a pattern without groups.
    Match(Seq<u8>),
    /// The captures of the groups, for a pattern with groups.
    Groups(Seq<Option<Seq<u8>>>),
}

/// One match of a scan: what it gives, the match itself, and the captures of
/// all its groups, the whole match first.
#[derive(Debug)]
pub struct ScanStep {
    /// What the match gives to the block or to the result.
    pub value: Scanned,
    /// The match.
    pub matched: MatchData,
    /// The captures of the match, the whole match first.
    pub captures: Vec<NilableString>,
}

/// One match of a scan, seen as plain data.
pub struct StepModel {
    /// What the match gives to the block or to the result.
    pub value: ScannedModel,
    /// The match.
    pub matched: MatchModel,
    /// The captures of the match, the whole match first.
    pub captures: Seq<Option<Seq<u8>>>,
}

/// What `scan` returns.
#[derive(Debug)]
pub enum Scan {
    /// Without a block: what each match gives, in turn.
    Collected(Vec<Scanned>),
    /// With a block: the matches for which the caller is to run the block, in
    /// turn. Before each run the caller publishes the match, and after it
    /// sets `$~` to the match again.
    Yield(Vec<ScanStep>),
}

/// What `scan` returns, seen as plain data.
pub enum ScanModel {
    /// Without a block: what each match gives, in turn.
    Collected(Seq<ScannedModel>),
    /// With a block: the matches for which the caller is to run the block.
    Yield(Seq<StepModel>),
}

impl View for Scanned {
    type V = ScannedModel;

    open spec fn view(&self) -> ScannedModel {
        match self {
            Scanned::Match(bytes) => ScannedModel::Match(bytes@),
            Scanned::Groups(groups) => ScannedModel::Groups(nilables_view(groups@)),
        }
    }
}

impl View for ScanStep {
    type V = StepModel;

    open spec fn view(&self) -> StepModel {
        StepModel {
            value: self.value@,
            matched: self.matched.model(),
            captures: nilables_view(self.captures@),
        }
    }
}

/// A list of steps, each seen as plain data.
pub open spec fn steps_view(steps: Seq<ScanStep>) -> Seq<StepModel> {
    steps.map_values(|step: ScanStep| step@)
}

/// A list of what matches give, each seen as plain data.
pub open spec fn scanned_view(values: Seq<Scanned>) -> Seq<ScannedModel> {
    values.map_values(|value: Scanned| value@)
}

impl View for Scan {
    type V = ScanModel;

    open spec fn view(&self) -> ScanModel {
        match self {
            Scan::Collected(values) => ScanModel::Collected(scanned_view(values@)),
            Scan::Yield(steps) => ScanModel::Yield(steps_view(steps@)),
        }
    }
}

/// The number of bytes of the character that begins at `at`, read off its
/// first byte; 1 where no character begins there.
pub open spec fn char_width(haystack: Seq<u8>, at: int) -> int {
    if at < 0 || at >= haystack.len() {
        1
    } else if haystack[at] < 192 {
        1
    } else if haystack[at] < 224 {
        2
    } else if haystack[at] < 240 {
        3
    } else {
        4
    }
}

/// How far a scan is from its end: it ends when the search has passed the
/// end of the haystack, which each match and each skipped character bring
/// nearer.
pub open spec fn scan_measure(len: int, last_end: int, last_match_end: Option<usize>) -> int {
    if last_end > len {
        0
    } else {
        2 * (len + 1 - last_end) + if last_match_end == Some(last_end as usize) {
            0int
        } else {
            1int
        }
    }
}

/// Whether the spans of a match begin with a span of the whole match that
/// lies in the haystack at or behind `last_end`.
pub open spec fn match_ahead(slots: Seq<Option<(usize, usize)>>, last_end: int, len: int) -> bool {
    slots.len() > 0 && slots[0] is Some && last_end <= slots[0].unwrap().0 <= slots[0].unwrap().1
        <= len
}

/// How a scan goes on after a search.
#[derive(Debug, Clone, Copy, PartialEq, Eq, Structural)]
pub enum Advance {
    /// The scan is over.
    Stop,
    /// The match is passed over, and the search goes on at the offset.
    Skip(usize),
    /// The match is taken, and the search goes on at the offset, where the
    /// match ended.
    Take(usize),
}

/// How a scan goes on after a search from the byte offset `last_end` found
/// `found`, where the match before ended at `last_match_end`.
///
/// Nothing found ends the scan. A match of no bytes at the very place where
/// the match before ended is passed over, and the search goes on one
/// character further, or ends where there is no further. Every other match
/// is taken. A match that lies before the search began, or outside the
/// haystack, is a `Fatal` error.
pub open spec fn advance_spec(
    haystack: Seq<u8>,
    last_end: usize,
    last_match_end: Option<usize>,
    found: Option<Seq<Option<(usize, usize)>>>,
) -> Result<Advance, (Kind, Seq<u8>)> {
    match found {
        None => Ok(Advance::Stop),
        Some(slots) => if !match_ahead(slots, last_end as int, haystack.len() as int) {
            Err((Kind::Fatal, span_message()))
        } else {
            let start = slots[0].unwrap().0;
            let end = slots[0].unwrap().1;
            if end == start && last_match_end == Some(end) {
                let next = last_end + char_width(haystack, last_end as int);
                if next > usize::MAX {
                    Ok(Advance::Stop)
                } else {
                    Ok(Advance::Skip(next as usize))
                }
            } else {
                Ok(Advance::Take(end))
            }
        },
    }
}

/// The spans of all the matches in the haystack from the byte offset
/// `last_end` on, where the match before ended at `last_match_end`.
///
/// Each search begins where the match before ended. A match of no bytes at
/// the very place where the match before ended is passed over, and the
/// search goes on one character further. A match that lies before the
/// search began, or outside the haystack, is a `Fatal` error.
pub open spec fn scan_from(
    key: Key,
    haystack: Seq<u8>,
    last_end: usize,
    last_match_end: Option<usize>,
) -> Result<Seq<Seq<Option<(usize, usize)>>>, (Kind, Seq<u8>)>
    decreases scan_measure(haystack.len() as int, last_end as int, last_match_end),
{
    if last_end > haystack.len() {
        Ok(Seq::empty())
    } else {
        match search_spec(key, haystack, last_end) {
            Err(e) => Err(e),
            Ok(found) => match advance_spec(haystack, last_end, last_match_end, found) {
                Err(e) => Err(e),
                Ok(Advance::Stop) => Ok(Seq::empty()),
                Ok(Advance::Skip(next)) => scan_from(key, haystack, next, last_match_end),
                Ok(Advance::Take(end)) => match scan_from(key, haystack, end, Some(end)) {
                    Err(e) => Err(e),
                    Ok(rest) => Ok(seq![found.unwrap()] + rest),
                },
            },
        }
    }
}

/// The spans of all the matches in the haystack.
pub open spec fn scan_spans_spec(key: Key, haystack: Seq<u8>) -> Result<
    Seq<Seq<Option<(usize, usize)>>>,
    (Kind, Seq<u8>),
> {
    scan_from(key, haystack, 0, None)
}

/// A list of lists of spans, each seen as a sequence.
pub open spec fn spans_view(found: Seq<Vec<Option<(usize, usize)>>>) -> Seq<
    Seq<Option<(usize, usize)>>,
> {
    found.map_values(|slots: Vec<Option<(usize, usize)>>| slots@)
}

/// The matches that were found so far, then those that a scan still finds.
pub open spec fn followed_by(
    found: Seq<Seq<Option<(usize, usize)>>>,
    rest: Result<Seq<Seq<Option<(usize, usize)>>>, (Kind, Seq<u8>)>,
) -> Result<Seq<Seq<Option<(usize, usize)>>>, (Kind, Seq<u8>)> {
    match rest {
        Ok(rest) => Ok(found + rest),
        Err(e) => Err(e),
    }
}

/// The number of bytes of the character that begins at `at`.
pub fn width_at(haystack: &[u8], at: usize) -> (r: usize)
    ensures
        r == char_width(haystack@, at as int),
        1 <= r <= 4,
{
    if at >= haystack.len() {
        1
    } else {
        let b: u8 = haystack[at];
        if b < 192 {
            1
        } else if b < 224 {
            2
        } else if b < 240 {
            3
        } else {
            4
        }
    }
}

/// Decides how a scan goes on after a search from the byte offset
/// `last_end` found `found`, where the match before ended at
/// `last_match_end`.
pub fn advance(
    haystack: &[u8],
    last_end: usize,
    last_match_end: Option<usize>,
    found: Option<&Vec<Option<(usize, usize)>>>,
) -> (r: Result<Advance, Exception>)
    ensures
        outcome(r) == advance_spec(
            haystack@,
            last_end,
            last_match_end,
            match found {
                Some(slots) => Some(slots@),
                None => None,
            },
        ),
{
    let slots: &Vec<Option<(usize, usize)>> = match found {
        None => {
            return Ok(Advance::Stop);
        },
        Some(slots) => slots,
    };
    let ahead: Option<(usize, usize)> = if slots.len() > 0 {
        match slots[0] {
            Some((start, end)) => {
                if last_end <= start && start <= end && end <= haystack.len() {
                    Some((start, end))
                } else {
                    None
                }
            },
            None => None,
        }
    } else {
        None
    };
    let (start, end) = match ahead {
        Some(span) => span,
        None => {
            return Err(span_error());
        },
    };
    let passed: bool = match last_match_end {
        Some(before) => end == start && before == end,
        None => false,
    };
    if passed {
        let width: usize = width_at(haystack, last_end);
        if width > usize::MAX - last_end {
            Ok(Advance::Stop)
        } else {
            Ok(Advance::Skip(last_end + width))
        }
    } else {
        Ok(Advance::Take(end))
    }
}

/// Finds all the matches of the pattern in the haystack, and gives the spans
/// of the groups of each.
pub fn scan_spans(matcher: &Matcher<'_>, haystack: &[u8]) -> (r: Result<
    Vec<Vec<Option<(usize, usize)>>>,
    Exception,
>)
    requires
        matcher.wf(),
    ensures
        match r {
            Ok(found) => scan_spans_spec(matcher.key(), haystack@) == Ok::<
                Seq<Seq<Option<(usize, usize)>>>,
                (Kind, Seq<u8>),
            >(spans_view(found@)),
            Err(e) => scan_spans_spec(matcher.key(), haystack@) == Err::<
                Seq<Seq<Option<(usize, usize)>>>,
                (Kind, Seq<u8>),
            >(e@),
        },
        r matches Ok(found) ==> forall|i: int|
            0 <= i < found@.len() ==> match_ahead((#[trigger] found@[i])@, 0, haystack@.len() as int),
{
    let ghost key = matcher.key();
    let mut found: Vec<Vec<Option<(usize, usize)>>> = Vec::new();
    let mut last_end: usize = 0;
    let mut last_match_end: Option<usize> = None;
    while last_end <= haystack.len()
        invariant
            matcher.wf(),
            key == matcher.key(),
            scan_spans_spec(key, haystack@) == followed_by(
                spans_view(found@),
                scan_from(key, haystack@, last_end, last_match_end),
            ),
            forall|i: int|
                0 <= i < found@.len() ==> match_ahead(
                    (#[trigger] found@[i])@,
                    0,
                    haystack@.len() as int,
                ),
        decreases scan_measure(haystack@.len() as int, last_end as int, last_match_end),
    {
        let searched: Option<Vec<Option<(usize, usize)>>> = match matcher.search(
            haystack,
            last_end,
        ) {
            Err(e) => {
                return Err(e);
            },
            Ok(searched) => searched,
        };
        let step: Advance = match advance(haystack, last_end, last_match_end, searched.as_ref()) {
            Err(e) => {
                return Err(e);
            },
            Ok(step) => step,
        };
        match step {
            Advance::Stop => {
                return Ok(found);
            },
            Advance::Skip(next) => {
                last_end = next;
            },
            Advance::Take(end) => {
                let slots: Vec<Option<(usize, usize)>> = match searched {
                    Some(slots) => slots,
                    None => Vec::new(),
                };
                let ghost before = spans_view(found@);
                let ghost rest = scan_from(key, haystack@, end, Some(end));
                found.push(slots);
                proof {
                    assert(spans_view(found@) =~= before.push(slots@));
                    if rest is Ok {
                        assert(before + (seq![slots@] + rest->Ok_0) =~= before.push(slots@)
                            + rest->Ok_0);
                    }
                }
                last_end = end;
                last_match_end = Some(end);
            },
        }
    }
    Ok(found)
}

/// The captures of the groups 1 to `groups` of a match, `nil` for a group of
/// which the match says nothing.
pub open spec fn groups_of(captures: Seq<Option<Seq<u8>>>, groups: usize) -> Seq<Option<Seq<u8>>> {
    Seq::new(
        groups as nat,
        |group: int|
            if group + 1 < captures.len() {
                captures[group + 1]
            } else {
                None
            },
    )
}

/// What the match with the spans `slots` gives in a scan: the string that
/// matched for a pattern without groups, else the captures of its groups.
pub open spec fn step_of(
    model: Model,
    haystack: Seq<u8>,
    groups: usize,
    slots: Seq<Option<(usize, usize)>>,
) -> StepModel {
    let captures = crate::regexp::backend::capture::captures_of(haystack, slots);
    StepModel {
        value: if groups == 0 {
            ScannedModel::Match(
                haystack.subrange(slots[0].unwrap().0 as int, slots[0].unwrap().1 as int),
            )
        } else {
            ScannedModel::Groups(groups_of(captures, groups))
        },
        matched: MatchModel {
            string: haystack,
            regexp: model,
            region: Region { start: slots[0].unwrap().0, end: slots[0].unwrap().1 },
        },
        captures,
    }
}

/// Whether the spans of every match are ranges of bytes of the haystack.
pub open spec fn all_within(found: Seq<Seq<Option<(usize, usize)>>>, len: int) -> bool {
    forall|i: int| 0 <= i < found.len() ==> spans_within(#[trigger] found[i], len)
}

/// The steps of a scan that found the matches with the spans `found`.
pub open spec fn steps_of(
    model: Model,
    haystack: Seq<u8>,
    groups: usize,
    found: Seq<Seq<Option<(usize, usize)>>>,
) -> Result<Seq<StepModel>, (Kind, Seq<u8>)> {
    if all_within(found, haystack.len() as int) {
        Ok(found.map_values(|slots: Seq<Option<(usize, usize)>>| step_of(model, haystack, groups, slots)))
    } else {
        Err((Kind::Fatal, span_message()))
    }
}

/// All the steps of a scan of the haystack.
pub open spec fn scan_steps_spec(model: Model, haystack: Seq<u8>) -> Result<
    Seq<StepModel>,
    (Kind, Seq<u8>),
> {
    match scan_spans_spec(model.key(), haystack) {
        Err(e) => Err(e),
        Ok(found) => steps_of(model.settled(), haystack, groups_model(model.key()), found),
    }
}

/// The captures of the groups 1 to `groups` of a match.
fn groups_from(captures: &Vec<NilableString>, groups: usize) -> (r: Vec<NilableString>)
    ensures
        nilables_view(r@) == groups_of(nilables_view(captures@), groups),
{
    let mut out: Vec<NilableString> = Vec::new();
    let mut group: usize = 0;
    while group < groups
        invariant
            group <= groups,
            out@.len() == group,
            forall|k: int|
                0 <= k < group ==> nilable_view(#[trigger] out@[k]) == groups_of(
                    nilables_view(captures@),
                    groups,
                )[k],
        decreases groups - group,
    {
        let capture: NilableString = if group < captures.len() && group + 1 < captures.len() {
            dup(&captures[group + 1])
        } else {
            None
        };
        out.push(capture);
        group += 1;
    }
    out
}

/// Finds all the matches of the pattern in the haystack, and gives for each
/// what it gives to the block or to the result, the match itself and its
/// captures.
pub fn scan_steps(matcher: &Matcher<'_>, regexp: &Regexp, haystack: &[u8]) -> (r: Result<
    Vec<ScanStep>,
    Exception,
>)
    requires
        matcher.wf(),
    ensures
        forall|model: Model|
            model.key() == matcher.key() && model.settled() == regexp.model() ==> match r {
                Ok(steps) => #[trigger] scan_steps_spec(model, haystack@) == Ok::<
                    Seq<StepModel>,
                    (Kind, Seq<u8>),
                >(steps_view(steps@)),
                Err(e) => scan_steps_spec(model, haystack@) == Err::<
                    Seq<StepModel>,
                    (Kind, Seq<u8>),
                >(e@),
            },
{
    let found: Vec<Vec<Option<(usize, usize)>>> = match scan_spans(matcher, haystack) {
        Err(e) => {
            return Err(e);
        },
        Ok(found) => found,
    };
    let groups: usize = matcher.groups();
    let ghost all = spans_view(found@);
    let mut steps: Vec<ScanStep> = Vec::new();
    let mut i: usize = 0;
    while i < found.len()
        invariant
            i <= found@.len(),
            all == spans_view(found@),
            scan_spans_spec(matcher.key(), haystack@) == Ok::<
                Seq<Seq<Option<(usize, usize)>>>,
                (Kind, Seq<u8>),
            >(all),
            steps@.len() == i,
            forall|k: int|
                0 <= k < found@.len() ==> match_ahead(
                    (#[trigger] found@[k])@,
                    0,
                    haystack@.len() as int,
                ),
            forall|k: int| 0 <= k < i ==> spans_within(#[trigger] all[k], haystack@.len() as int),
            forall|k: int|
                0 <= k < i ==> (#[trigger] steps@[k])@ == step_of(
                    regexp.model(),
                    haystack@,
                    groups,
                    all[k],
                ),
        decreases found@.len() - i,
    {
        let slots: &Vec<Option<(usize, usize)>> = &found[i];
        let captures: Vec<NilableString> = match extract(haystack, slots) {
            Err(e) => {
                assert(!spans_within(all[i as int], haystack@.len() as int));
                return Err(e);
            },
            Ok(captures) => captures,
        };
        let (start, end) = match slots[0] {
            Some(span) => span,
            None => (0, 0),
        };
        let value: Scanned = if groups == 0 {
            Scanned::Match(copy(vstd::slice::slice_subrange(haystack, start, end)))
        } else {
            Scanned::Groups(groups_from(&captures, groups))
        };
        let matched = MatchData::new(copy(haystack), regexp.box_clone(), start, end);
        steps.push(ScanStep { value, matched, captures });
        i += 1;
    }
    proof {
        assert forall|model: Model|
            model.key() == matcher.key() && model.settled()
                == regexp.model() implies #[trigger] scan_steps_spec(model, haystack@) == Ok::<
            Seq<StepModel>,
            (Kind, Seq<u8>),
        >(steps_view(steps@)) by {
            assert(steps_view(steps@) =~= all.map_values(
                |slots: Seq<Option<(usize, usize)>>|
                    step_of(model.settled(), haystack@, groups, slots),
            ));
        }
    }
    Ok(steps)
}

/// The message of the error raised for a haystack that is no string.
pub open spec fn scan_haystack_message() -> Seq<u8> {
    "Regexp scan expected String haystack".spec_bytes()
}

/// The outcome of a scan: the globals after it, and what it returns.
///
/// Without a block the result holds what each match gives, and the last
/// match is published. With a block the result holds the matches for which
/// the caller is to run the block, and nothing is published yet. Where there
/// is no match, `$~` is set to `nil`. A haystack that is no string, or not
/// UTF-8, is an `ArgumentError`.
pub open spec fn scan_spec(model: Model, globals: GlobalsModel, haystack: Value, block: bool) -> (
    GlobalsModel,
    Result<ScanModel, (Kind, Seq<u8>)>,
) {
    if model.error() is Some {
        (globals, Err(model.error().unwrap()))
    } else if haystack.bytes_spec() is None {
        (globals, Err((Kind::ArgumentError, scan_haystack_message())))
    } else if !valid_utf8(haystack.bytes_spec().unwrap()) {
        (globals, Err((Kind::ArgumentError, haystack_message(model.kind()))))
    } else {
        match scan_steps_spec(model, haystack.bytes_spec().unwrap()) {
            Err(e) => (globals.cleared(), Err(e)),
            Ok(steps) => if steps.len() == 0 {
                (
                    globals.failed(),
                    Ok(
                        if block {
                            ScanModel::Yield(Seq::empty())
                        } else {
                            ScanModel::Collected(Seq::empty())
                        },
                    ),
                )
            } else if block {
                (globals.cleared(), Ok(ScanModel::Yield(steps)))
            } else {
                (
                    GlobalsModel::published(steps.last().matched, steps.last().captures),
                    Ok(ScanModel::Collected(steps.map_values(|step: StepModel| step.value))),
                )
            },
        }
    }
}

/// What a scan returns, or an exception seen by its class and message.
pub open spec fn scan_view(result: Result<Scan, Exception>) -> Result<ScanModel, (Kind, Seq<u8>)> {
    match result {
        Ok(scan) => Ok(scan@),
        Err(e) => Err(e@),
    }
}

impl Scanned {
    /// A copy of what a match gives.
    pub fn dup(&self) -> (r: Scanned)
        ensures
            r@ == self@,
    {
        match self {
            Scanned::Match(bytes) => Scanned::Match(copy(bytes.as_slice())),
            Scanned::Groups(groups) => {
                let mut out: Vec<NilableString> = Vec::new();
                let mut i: usize = 0;
                while i < groups.len()
                    invariant
                        i <= groups@.len(),
                        out@.len() == i,
                        forall|k: int|
                            0 <= k < i ==> nilable_view(#[trigger] out@[k]) == nilable_view(
                                groups@[k],
                            ),
                    decreases groups@.len() - i,
                {
                    out.push(dup(&groups[i]));
                    i += 1;
                }
                assert(nilables_view(out@) =~= nilables_view(groups@));
                Scanned::Groups(out)
            },
        }
    }
}

/// What each step gives, in turn.
fn values_of(steps: &Vec<ScanStep>) -> (r: Vec<Scanned>)
    ensures
        scanned_view(r@) == steps_view(steps@).map_values(|step: StepModel| step.value),
{
    let mut values: Vec<Scanned> = Vec::new();
    let mut i: usize = 0;
    while i < steps.len()
        invariant
            i <= steps@.len(),
            values@.len() == i,
            forall|k: int| 0 <= k < i ==> (#[trigger] values@[k])@ == steps@[k]@.value,
        decreases steps@.len() - i,
    {
        values.push(steps[i].value.dup());
        i += 1;
    }
    values
}

/// Finds all the matches of the pattern in the haystack.
///
/// Without a block, returns what each match gives and publishes the last
/// match. With a block, returns the matches for which the caller is to run
/// the block.
pub fn scan(
    matcher: &Matcher<'_>,
    regexp: &Regexp,
    globals: &mut Globals,
    haystack: &Value,
    block: Option<&Block>,
) -> (r: Result<Scan, Exception>)
    requires
        matcher.wf(),
    ensures
        forall|model: Model|
            model.error() is None && model.key() == matcher.key() && model.settled()
                == regexp.model() ==> (final(globals)@, scan_view(r)) == #[trigger] scan_spec(
                model,
                old(globals)@,
                *haystack,
                block is Some,
            ),
{
    let bytes: &[u8] = match haystack.try_into_bytes() {
        Some(bytes) => bytes,
        None => {
            return Err(Exception::new(Kind::ArgumentError, "Regexp scan expected String haystack"));
        },
    };
    if from_utf8(bytes).is_none() {
        return Err(haystack_error(matcher.kind()));
    }
    globals.clear_capture_globals();
    let steps: Vec<ScanStep> = match scan_steps(matcher, regexp, bytes) {
        Err(e) => {
            return Err(e);
        },
        Ok(steps) => steps,
    };
    if steps.len() == 0 {
        globals.fail();
        if block.is_some() {
            assert(steps_view(steps@) =~= Seq::empty());
            Ok(Scan::Yield(steps))
        } else {
            let values: Vec<Scanned> = Vec::new();
            assert(scanned_view(values@) =~= Seq::empty());
            Ok(Scan::Collected(values))
        }
    } else if block.is_some() {
        Ok(Scan::Yield(steps))
    } else {
        let last: &ScanStep = &steps[steps.len() - 1];
        globals.publish(&last.matched, &last.captures);
        Ok(Scan::Collected(values_of(&steps)))
    }
}

} // verus!
