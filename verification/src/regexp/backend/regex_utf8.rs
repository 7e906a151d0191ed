//! The fast engine: the `regex` crate, which matches UTF-8 text only and
//! accepts fewer patterns.
//!
//! The options of a pattern are given to the builder of the engine: `i` as
//! `case_insensitive`, `m` as `multi_line` and `x` as `ignore_whitespace`.

use std::rc::Rc;
use vstd::prelude::*;
use vstd::string::StringSliceAdditionalSpecFns;
use vstd::utf8::decode_utf8;

use crate::exception::Exception;
use crate::matchdata::MatchData;
use crate::regexp::{Backend, Config, Regexp, RegexpType};
use crate::regexp::backend::{
    capture, compile_spec, from_utf8, key_of, lemma_text_of_bytes, names, pattern_error, position,
    rejected, EngineKind, Matcher, NilableString,
};
use crate::regexp::backend::onig::share;
use crate::regexp::enc::Encoding;
use crate::regexp::globals::Globals;
use crate::regexp::inspect::inspect_config;
use crate::regexp::matching::{match_at, match_found, match_position};
use crate::regexp::model::{Backing, Model};
use crate::regexp::opts::Options;
use crate::regexp::scan::{self, Scan};
use crate::types::Int;
use crate::value::{Block, Value};

verus! {

/// `regex::Regex`: a pattern that the `regex` crate has compiled. Nothing
/// inside it is seen here.
#[verifier::external_type_specification]
#[verifier::external_body]
pub struct ExRegex(regex::Regex);

/// The pattern that a compiled `regex::Regex` was made from, and whether it
/// was built case insensitive, multi-line and ignoring whitespace.
pub uninterp spec fn utf8_source(regex: regex::Regex) -> (Seq<char>, bool, bool, bool);

/// The message with which `regex::RegexBuilder::build` rejects a pattern, or
/// `None` where it compiles the pattern.
pub uninterp spec fn utf8_compile_error(
    pattern: Seq<char>,
    case_insensitive: bool,
    multi_line: bool,
    ignore_whitespace: bool,
) -> Option<Seq<char>>;

/// What `regex::Regex::captures_len` returns for a pattern: the number of its
/// capture groups, the whole match counted.
pub uninterp spec fn utf8_groups(
    pattern: Seq<char>,
    case_insensitive: bool,
    multi_line: bool,
    ignore_whitespace: bool,
) -> usize;

/// What `regex::Regex::captures_at` finds for a pattern in `haystack` from the
/// byte offset `from` on: `None` where nothing matches, else the byte span of
/// each group of the leftmost match, `None` for a group that took no part.
pub uninterp spec fn utf8_search(
    pattern: Seq<char>,
    case_insensitive: bool,
    multi_line: bool,
    ignore_whitespace: bool,
    haystack: Seq<char>,
    from: usize,
) -> Option<Seq<Option<(usize, usize)>>>;

/// What `regex::Regex::capture_names` yields for a pattern: for each group in
/// turn its name, `None` for a group without one.
pub uninterp spec fn utf8_names(
    pattern: Seq<char>,
    case_insensitive: bool,
    multi_line: bool,
    ignore_whitespace: bool,
) -> Seq<Option<Seq<char>>>;

/// The spans of a search seen as a sequence.
pub open spec fn slots_view(result: Option<Vec<Option<(usize, usize)>>>) -> Option<
    Seq<Option<(usize, usize)>>,
> {
    match result {
        Some(slots) => Some(slots@),
        None => None,
    }
}

/// Group names with each name seen as a sequence.
pub open spec fn group_names_view(names: Seq<Option<String>>) -> Seq<Option<Seq<char>>> {
    names.map_values(
        |name: Option<String>|
            match name {
                Some(name) => Some(name@),
                None => None,
            },
    )
}

/// `regex::RegexBuilder::build` on a builder for `pattern` with the three
/// switches set. The outcome is a function of the four; a regex that comes
/// back was made from them, and an error comes back as its display text.
#[verifier::external_body]
pub(crate) fn build(
    pattern: &str,
    case_insensitive: bool,
    multi_line: bool,
    ignore_whitespace: bool,
) -> (r: Result<regex::Regex, String>)
    ensures
        match r {
            Ok(regex) => utf8_compile_error(
                pattern@,
                case_insensitive,
                multi_line,
                ignore_whitespace,
            ) is None && utf8_source(regex) == (
                pattern@,
                case_insensitive,
                multi_line,
                ignore_whitespace,
            ),
            Err(message) => utf8_compile_error(
                pattern@,
                case_insensitive,
                multi_line,
                ignore_whitespace,
            ) == Some(message@),
        },
{
    let mut builder = regex::RegexBuilder::new(pattern);
    builder.case_insensitive(case_insensitive);
    builder.multi_line(multi_line);
    builder.ignore_whitespace(ignore_whitespace);
    match builder.build() {
        Ok(regex) => Ok(regex),
        Err(err) => Err(err.to_string()),
    }
}

/// `regex::Regex::captures_len`: the number of capture groups, the whole
/// match counted, a function of what the regex was compiled from.
#[verifier::external_body]
pub(crate) fn captures_len(regex: &regex::Regex) -> (r: usize)
    ensures
        r == utf8_groups(
            utf8_source(*regex).0,
            utf8_source(*regex).1,
            utf8_source(*regex).2,
            utf8_source(*regex).3,
        ),
{
    regex.captures_len()
}

/// `regex::Regex::captures_at`: the leftmost match in `haystack` that starts
/// at the byte offset `from` or later. The outcome is a function of what the
/// regex was compiled from, the haystack and the offset; the spans are those
/// of `regex::Captures::get` for each group.
#[verifier::external_body]
pub(crate) fn captures_at(regex: &regex::Regex, haystack: &str, from: usize) -> (r: Option<
    Vec<Option<(usize, usize)>>,
>)
    requires
        from <= haystack.spec_bytes().len(),
    ensures
        slots_view(r) == utf8_search(
            utf8_source(*regex).0,
            utf8_source(*regex).1,
            utf8_source(*regex).2,
            utf8_source(*regex).3,
            haystack@,
            from,
        ),
{
    match regex.captures_at(haystack, from) {
        Some(found) => Some(
            (0..found.len()).map(|group| found.get(group).map(|m| (m.start(), m.end()))).collect(),
        ),
        None => None,
    }
}

/// `regex::Regex::capture_names`: the name of each group in turn, a function
/// of what the regex was compiled from.
#[verifier::external_body]
pub(crate) fn capture_names(regex: &regex::Regex) -> (r: Vec<Option<String>>)
    ensures
        group_names_view(r@) == utf8_names(
            utf8_source(*regex).0,
            utf8_source(*regex).1,
            utf8_source(*regex).2,
            utf8_source(*regex).3,
        ),
{
    regex.capture_names().map(|name| name.map(|name| name.to_owned())).collect()
}

/// A pattern compiled by the fast engine.
#[derive(Debug)]
pub struct RegexUtf8 {
    literal: Config,
    derived: Config,
    encoding: Encoding,
    regex: Rc<regex::Regex>,
}

impl Clone for RegexUtf8 {
    fn clone(&self) -> (r: RegexUtf8)
        ensures
            r.utf8_model() == self.utf8_model(),
    {
        self.dup()
    }
}

impl RegexUtf8 {
    /// The regex was compiled from the derived pattern and options.
    #[verifier::type_invariant]
    spec fn inv(&self) -> bool {
        utf8_source(*self.regex) == (
            decode_utf8(self.derived.pattern@),
            self.derived.options.ignore_case,
            self.derived.options.multiline,
            self.derived.options.extended,
        )
    }

    /// The pattern and options as the caller gave them.
    pub closed spec fn literal_spec(&self) -> (Seq<u8>, Options) {
        self.literal@
    }

    /// The pattern and options that were compiled.
    pub closed spec fn derived_spec(&self) -> (Seq<u8>, Options) {
        self.derived@
    }

    /// The encoding of the pattern.
    pub closed spec fn encoding_spec(&self) -> Encoding {
        self.encoding
    }

    /// The pattern as plain data.
    pub open spec fn utf8_model(&self) -> Model {
        Model {
            literal: self.literal_spec(),
            derived: self.derived_spec(),
            encoding: self.encoding_spec(),
            backing: Backing::Utf8,
        }
    }

    /// Compiles the pattern and options `derived` with the fast engine, and
    /// keeps `literal` and `encoding` beside the result.
    ///
    /// A pattern that is not UTF-8 is an `ArgumentError`. One that the engine
    /// rejects is a `SyntaxError` with the engine's message where `literal`
    /// says that the pattern was written as a literal, and a `RegexpError`
    /// where it does not.
    pub fn new(literal: Config, derived: Config, encoding: Encoding) -> (r: Result<
        RegexUtf8,
        Exception,
    >)
        ensures
            match r {
                Ok(regex) => compile_spec(EngineKind::Utf8, literal@, derived@) is None
                    && regex.literal_spec() == literal@ && regex.derived_spec() == derived@
                    && regex.encoding_spec() == encoding,
                Err(e) => compile_spec(EngineKind::Utf8, literal@, derived@) == Some(e@),
            },
    {
        let compiled = match from_utf8(derived.pattern.as_slice()) {
            Some(pattern) => {
                proof {
                    lemma_text_of_bytes(pattern, derived.pattern@);
                }
                build(
                    pattern,
                    derived.options.ignore_case,
                    derived.options.multiline,
                    derived.options.extended,
                )
            },
            None => {
                return Err(pattern_error(EngineKind::Utf8));
            },
        };
        match compiled {
            Ok(regex) => Ok(RegexUtf8 { literal, derived, encoding, regex: Rc::new(regex) }),
            Err(message) => Err(rejected(literal.options.literal, message.as_str())),
        }
    }

    /// The pattern and options as the caller gave them.
    pub fn literal(&self) -> (r: &Config)
        ensures
            r@ == self.literal_spec(),
    {
        &self.literal
    }

    /// The pattern and options that were compiled.
    pub fn derived(&self) -> (r: &Config)
        ensures
            r@ == self.derived_spec(),
    {
        &self.derived
    }

    /// The encoding of the pattern.
    pub fn encoding_of(&self) -> (r: Encoding)
        ensures
            r == self.encoding_spec(),
    {
        self.encoding
    }

    /// The compiled pattern.
    pub fn matcher(&self) -> (r: Matcher<'_>)
        ensures
            r.wf(),
            r.key() == key_of(EngineKind::Utf8, self.derived_spec()),
    {
        proof {
            use_type_invariant(self);
        }
        Matcher::Utf8(&*self.regex)
    }

    /// Another handle to the same compiled pattern.
    pub fn dup(&self) -> (r: RegexUtf8)
        ensures
            r.literal_spec() == self.literal_spec(),
            r.derived_spec() == self.derived_spec(),
            r.encoding_spec() == self.encoding_spec(),
    {
        proof {
            use_type_invariant(self);
        }
        RegexUtf8 {
            literal: self.literal.dup(),
            derived: self.derived.dup(),
            encoding: self.encoding,
            regex: share(&self.regex),
        }
    }
}

impl RegexpType for RegexUtf8 {
    open spec fn model(&self) -> Model {
        self.utf8_model()
    }

    fn box_clone(&self) -> (r: Regexp) {
        Regexp::from(Backend::RegexUtf8(self.dup()))
    }

    fn literal_config(&self) -> (r: &Config) {
        self.literal()
    }

    fn derived_config(&self) -> (r: &Config) {
        self.derived()
    }

    fn encoding(&self) -> (r: Encoding) {
        self.encoding_of()
    }

    fn inspect(&self) -> (r: Vec<u8>) {
        inspect_config(self.literal(), self.encoding_of())
    }

    fn string(&self) -> (r: &[u8]) {
        self.derived().pattern()
    }

    fn captures(&self, haystack: &[u8]) -> (r: Result<Option<Vec<NilableString>>, Exception>) {
        capture::captures(&self.matcher(), haystack)
    }

    fn capture_indexes_for_name(&self, name: &[u8]) -> (r: Result<Option<Vec<usize>>, Exception>) {
        let table = self.matcher().name_table();
        Ok(names::capture_indexes_for_name(&table, name))
    }

    fn captures_len(&self, haystack: Option<&[u8]>) -> (r: Result<usize, Exception>) {
        capture::captures_len(&self.matcher(), haystack)
    }

    fn capture0<'a>(&self, haystack: &'a [u8]) -> (r: Result<Option<&'a [u8]>, Exception>) {
        capture::capture0(&self.matcher(), haystack)
    }

    fn case_match(&self, globals: &mut Globals, haystack: &[u8]) -> (r: Result<bool, Exception>) {
        let regexp = self.box_clone();
        match_found(match_at(&self.matcher(), regexp, globals, haystack, None))
    }

    fn is_match(&self, haystack: &[u8], pos: Option<Int>) -> (r: Result<bool, Exception>) {
        position::is_match(&self.matcher(), haystack, pos)
    }

    fn match_(&self, globals: &mut Globals, haystack: &[u8], pos: Option<Int>) -> (r: Result<
        Option<MatchData>,
        Exception,
    >) {
        let regexp = self.box_clone();
        match_at(&self.matcher(), regexp, globals, haystack, pos)
    }

    fn match_operator(&self, globals: &mut Globals, haystack: &[u8]) -> (r: Result<
        Option<Int>,
        Exception,
    >) {
        let regexp = self.box_clone();
        match_position(match_at(&self.matcher(), regexp, globals, haystack, None))
    }

    fn named_captures(&self) -> (r: Result<Vec<(Vec<u8>, Vec<Int>)>, Exception>) {
        let table = self.matcher().name_table();
        names::named_captures(&table)
    }

    fn named_captures_for_haystack(&self, haystack: &[u8]) -> (r: Result<
        Option<Vec<(Vec<u8>, NilableString)>>,
        Exception,
    >) {
        let matcher = self.matcher();
        match capture::captures(&matcher, haystack) {
            Err(e) => Err(e),
            Ok(None) => Ok(None),
            Ok(Some(captures)) => {
                let table = matcher.name_table();
                Ok(Some(names::named_captures_for(&table, &captures)))
            },
        }
    }

    fn names(&self) -> (r: Vec<Vec<u8>>) {
        let table = self.matcher().name_table();
        names::names(&table)
    }

    fn pos(&self, haystack: &[u8], at: usize) -> (r: Result<Option<(usize, usize)>, Exception>) {
        capture::pos(&self.matcher(), haystack, at)
    }

    fn scan(&self, globals: &mut Globals, haystack: &Value, block: Option<&Block>) -> (r: Result<
        Scan,
        Exception,
    >) {
        let regexp = self.box_clone();
        scan::scan(&self.matcher(), &regexp, globals, haystack, block)
    }
}

} // verus!
