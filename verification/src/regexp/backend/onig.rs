//! The general engine: Oniguruma with Ruby syntax.

use std::rc::Rc;
use vstd::prelude::*;
use vstd::string::StringSliceAdditionalSpecFns;
use vstd::utf8::decode_utf8;

use crate::exception::Exception;
use crate::matchdata::MatchData;
use crate::regexp::{Backend, Config, Regexp, RegexpType};
use crate::regexp::backend::{
    capture, compile_spec, from_utf8, key_of, lemma_flags_of_bits, lemma_text_of_bytes, names,
    pattern_error, position, rejected, EngineKind, Matcher, NilableString,
};
use crate::regexp::enc::Encoding;
use crate::regexp::globals::Globals;
use crate::regexp::inspect::inspect_config;
use crate::regexp::matching::{match_at, match_found, match_position};
use crate::regexp::model::{Backing, Model};
use crate::regexp::opts::Options;
use crate::regexp::scan::{self, Scan};
use crate::types::Int;
use crate::value::{Block, Value};

verus! {

/// `onig::Regex`: a pattern that Oniguruma has compiled. Nothing inside it is
/// seen here.
#[verifier::external_type_specification]
#[verifier::external_body]
pub struct ExOnigRegex(onig::Regex);

/// The pattern and the option bits that a compiled `onig::Regex` was made
/// from.
pub uninterp spec fn onig_source(regex: onig::Regex) -> (Seq<char>, u32);

/// The message with which `onig::Regex::with_options` rejects a pattern under
/// the Ruby syntax, or `None` where it compiles the pattern.
pub uninterp spec fn onig_compile_error(pattern: Seq<char>, options: u32) -> Option<Seq<char>>;

/// What `onig::Regex::captures_len` returns for a pattern: the number of its
/// capture groups, the whole match not counted.
pub uninterp spec fn onig_groups(pattern: Seq<char>, options: u32) -> usize;

/// What `onig::Regex::search_with_param` finds for a pattern in `haystack`
/// from the byte offset `from` on: an error message where the engine gives
/// up, `None` where nothing matches, else the byte span of each group of the
/// leftmost match, `None` for a group that took no part.
pub uninterp spec fn onig_search(
    pattern: Seq<char>,
    options: u32,
    haystack: Seq<char>,
    from: usize,
) -> Result<Option<Seq<Option<(usize, usize)>>>, Seq<char>>;

/// What `onig::Regex::foreach_name` visits for a pattern: each group name with
/// the numbers of the groups that bear it, in the engine's order.
pub uninterp spec fn onig_names(pattern: Seq<char>, options: u32) -> Seq<(Seq<char>, Seq<u32>)>;

/// The result of a search with the message and the spans seen as sequences.
pub open spec fn search_view(
    result: Result<Option<Vec<Option<(usize, usize)>>>, String>,
) -> Result<Option<Seq<Option<(usize, usize)>>>, Seq<char>> {
    match result {
        Ok(Some(slots)) => Ok(Some(slots@)),
        Ok(None) => Ok(None),
        Err(message) => Err(message@),
    }
}

/// A name table with each name and each list of group numbers seen as a
/// sequence.
pub open spec fn names_view(table: Seq<(String, Vec<u32>)>) -> Seq<(Seq<char>, Seq<u32>)> {
    table.map_values(|entry: (String, Vec<u32>)| (entry.0@, entry.1@))
}

/// `onig::Regex::with_options` with the Ruby syntax: compiles `pattern` with
/// the option bits `options` (1 ignore case, 2 extended, 4 multiline). The
/// outcome is a function of the two; a regex that comes back was made from
/// them, and an error comes back as the engine's description of it.
#[verifier::external_body]
pub(crate) fn with_options(pattern: &str, options: u32) -> (r: Result<onig::Regex, String>)
    requires
        options < 8,
    ensures
        match r {
            Ok(regex) => onig_compile_error(pattern@, options) is None && onig_source(regex) == (
                pattern@,
                options,
            ),
            Err(message) => onig_compile_error(pattern@, options) == Some(message@),
        },
{
    let flags = onig::RegexOptions::from_bits_truncate(options);
    match onig::Regex::with_options(pattern, flags, onig::Syntax::ruby()) {
        Ok(regex) => Ok(regex),
        Err(err) => Err(err.description().to_owned()),
    }
}

/// `onig::Regex::captures_len`: the number of capture groups, a function of
/// what the regex was compiled from.
#[verifier::external_body]
pub(crate) fn captures_len(regex: &onig::Regex) -> (r: usize)
    ensures
        r == onig_groups(onig_source(*regex).0, onig_source(*regex).1),
{
    regex.captures_len()
}

/// `onig::Regex::search_with_param` over the whole of `haystack` from the byte
/// offset `from`, with no search options and the default match parameters.
/// The outcome is a function of what the regex was compiled from, the
/// haystack and the offset; the spans are those of `onig::Region::pos` for
/// each group of the region that the search filled.
#[verifier::external_body]
pub(crate) fn search_with_param(regex: &onig::Regex, haystack: &str, from: usize) -> (r: Result<
    Option<Vec<Option<(usize, usize)>>>,
    String,
>)
    requires
        from <= haystack.spec_bytes().len(),
    ensures
        search_view(r) == onig_search(
            onig_source(*regex).0,
            onig_source(*regex).1,
            haystack@,
            from,
        ),
{
    let mut region = onig::Region::new();
    let none = onig::SearchOptions::SEARCH_OPTION_NONE;
    let param = onig::MatchParam::default();
    match regex.search_with_param(haystack, from, haystack.len(), none, Some(&mut region), param) {
        Ok(Some(_)) => Ok(Some((0..region.len()).map(|group| region.pos(group)).collect())),
        Ok(None) => Ok(None),
        Err(err) => Err(err.description().to_owned()),
    }
}

/// `onig::Regex::foreach_name`: every group name with the numbers of its
/// groups, in the order in which the engine visits them, a function of what
/// the regex was compiled from.
#[verifier::external_body]
pub(crate) fn foreach_name(regex: &onig::Regex) -> (r: Vec<(String, Vec<u32>)>)
    ensures
        names_view(r@) == onig_names(onig_source(*regex).0, onig_source(*regex).1),
{
    let mut table = Vec::new();
    regex.foreach_name(
        |name, groups| {
            table.push((name.to_owned(), groups.to_vec()));
            true
        },
    );
    table
}

/// `Rc::clone`: another handle to the same value.
#[verifier::external_body]
pub(crate) fn share<T>(handle: &Rc<T>) -> (r: Rc<T>)
    ensures
        *r == **handle,
{
    Rc::clone(handle)
}

/// A pattern compiled by the general engine.
#[derive(Debug)]
pub struct Onig {
    literal: Config,
    derived: Config,
    encoding: Encoding,
    regex: Rc<onig::Regex>,
}

impl Clone for Onig {
    fn clone(&self) -> (r: Onig)
        ensures
            r.onig_model() == self.onig_model(),
    {
        self.dup()
    }
}

impl Onig {
    /// The regex was compiled from the derived pattern and options.
    #[verifier::type_invariant]
    spec fn inv(&self) -> bool {
        onig_source(*self.regex) == (
            decode_utf8(self.derived.pattern@),
            self.derived.options.flags_spec(),
        )
    }

    /// The pattern and options as the caller gave them.
    pub closed spec fn literal_spec(&self) -> (Seq<u8>, Options) {
        self.literal@
    }

    /// The pattern and options that were compiled.
    pub closed spec fn derived_spec(&self) -> (Seq<u8>, Options) {
        self.derived@
    }

    /// The encoding of the pattern.
    pub closed spec fn encoding_spec(&self) -> Encoding {
        self.encoding
    }

    /// The pattern as plain data.
    pub open spec fn onig_model(&self) -> Model {
        Model {
            literal: self.literal_spec(),
            derived: self.derived_spec(),
            encoding: self.encoding_spec(),
            backing: Backing::Onig,
        }
    }

    /// Compiles the pattern and options `derived` with the general engine,
    /// and keeps `literal` and `encoding` beside the result.
    ///
    /// A pattern that is not UTF-8 is an `ArgumentError`. One that the engine
    /// rejects is a `SyntaxError` with the engine's message where `literal`
    /// says that the pattern was written as a literal, and a `RegexpError`
    /// where it does not.
    pub fn new(literal: Config, derived: Config, encoding: Encoding) -> (r: Result<Onig, Exception>)
        ensures
            match r {
                Ok(onig) => compile_spec(EngineKind::Onig, literal@, derived@) is None
                    && onig.literal_spec() == literal@ && onig.derived_spec() == derived@
                    && onig.encoding_spec() == encoding,
                Err(e) => compile_spec(EngineKind::Onig, literal@, derived@) == Some(e@),
            },
    {
        let compiled = match from_utf8(derived.pattern.as_slice()) {
            Some(pattern) => {
                proof {
                    lemma_text_of_bytes(pattern, derived.pattern@);
                }
                with_options(pattern, derived.options.flags())
            },
            None => {
                return Err(pattern_error(EngineKind::Onig));
            },
        };
        match compiled {
            Ok(regex) => Ok(Onig { literal, derived, encoding, regex: Rc::new(regex) }),
            Err(message) => Err(rejected(literal.options.literal, message.as_str())),
        }
    }

    /// The pattern and options as the caller gave them.
    pub fn literal(&self) -> (r: &Config)
        ensures
            r@ == self.literal_spec(),
    {
        &self.literal
    }

    /// The pattern and options that were compiled.
    pub fn derived(&self) -> (r: &Config)
        ensures
            r@ == self.derived_spec(),
    {
        &self.derived
    }

    /// The encoding of the pattern.
    pub fn encoding_of(&self) -> (r: Encoding)
        ensures
            r == self.encoding_spec(),
    {
        self.encoding
    }

    /// The compiled pattern.
    pub fn matcher(&self) -> (r: Matcher<'_>)
        ensures
            r.wf(),
            r.key() == key_of(EngineKind::Onig, self.derived_spec()),
    {
        proof {
            use_type_invariant(self);
            lemma_flags_of_bits(self.derived.options);
        }
        Matcher::Onig(&*self.regex)
    }

    /// Another handle to the same compiled pattern.
    pub fn dup(&self) -> (r: Onig)
        ensures
            r.literal_spec() == self.literal_spec(),
            r.derived_spec() == self.derived_spec(),
            r.encoding_spec() == self.encoding_spec(),
    {
        proof {
            use_type_invariant(self);
        }
        Onig {
            literal: self.literal.dup(),
            derived: self.derived.dup(),
            encoding: self.encoding,
            regex: share(&self.regex),
        }
    }
}

impl RegexpType for Onig {
    open spec fn model(&self) -> Model {
        self.onig_model()
    }

    fn box_clone(&self) -> (r: Regexp) {
        Regexp::from(Backend::Onig(self.dup()))
    }

    fn literal_config(&self) -> (r: &Config) {
        self.literal()
    }

    fn derived_config(&self) -> (r: &Config) {
        self.derived()
    }

    fn encoding(&self) -> (r: Encoding) {
        self.encoding_of()
    }

    fn inspect(&self) -> (r: Vec<u8>) {
        inspect_config(self.literal(), self.encoding_of())
    }

    fn string(&self) -> (r: &[u8]) {
        self.derived().pattern()
    }

    fn captures(&self, haystack: &[u8]) -> (r: Result<Option<Vec<NilableString>>, Exception>) {
        capture::captures(&self.matcher(), haystack)
    }

    fn capture_indexes_for_name(&self, name: &[u8]) -> (r: Result<Option<Vec<usize>>, Exception>) {
        let table = self.matcher().name_table();
        Ok(names::capture_indexes_for_name(&table, name))
    }

    fn captures_len(&self, haystack: Option<&[u8]>) -> (r: Result<usize, Exception>) {
        capture::captures_len(&self.matcher(), haystack)
    }

    fn capture0<'a>(&self, haystack: &'a [u8]) -> (r: Result<Option<&'a [u8]>, Exception>) {
        capture::capture0(&self.matcher(), haystack)
    }

    fn case_match(&self, globals: &mut Globals, haystack: &[u8]) -> (r: Result<bool, Exception>) {
        let regexp = self.box_clone();
        match_found(match_at(&self.matcher(), regexp, globals, haystack, None))
    }

    fn is_match(&self, haystack: &[u8], pos: Option<Int>) -> (r: Result<bool, Exception>) {
        position::is_match(&self.matcher(), haystack, pos)
    }

    fn match_(&self, globals: &mut Globals, haystack: &[u8], pos: Option<Int>) -> (r: Result<
        Option<MatchData>,
        Exception,
    >) {
        let regexp = self.box_clone();
        match_at(&self.matcher(), regexp, globals, haystack, pos)
    }

    fn match_operator(&self, globals: &mut Globals, haystack: &[u8]) -> (r: Result<
        Option<Int>,
        Exception,
    >) {
        let regexp = self.box_clone();
        match_position(match_at(&self.matcher(), regexp, globals, haystack, None))
    }

    fn named_captures(&self) -> (r: Result<Vec<(Vec<u8>, Vec<Int>)>, Exception>) {
        let table = self.matcher().name_table();
        names::named_captures(&table)
    }

    fn named_captures_for_haystack(&self, haystack: &[u8]) -> (r: Result<
        Option<Vec<(Vec<u8>, NilableString)>>,
        Exception,
    >) {
        let matcher = self.matcher();
        match capture::captures(&matcher, haystack) {
            Err(e) => Err(e),
            Ok(None) => Ok(None),
            Ok(Some(captures)) => {
                let table = matcher.name_table();
                Ok(Some(names::named_captures_for(&table, &captures)))
            },
        }
    }

    fn names(&self) -> (r: Vec<Vec<u8>>) {
        let table = self.matcher().name_table();
        names::names(&table)
    }

    fn pos(&self, haystack: &[u8], at: usize) -> (r: Result<Option<(usize, usize)>, Exception>) {
        capture::pos(&self.matcher(), haystack, at)
    }

    fn scan(&self, globals: &mut Globals, haystack: &Value, block: Option<&Block>) -> (r: Result<
        Scan,
        Exception,
    >) {
        let regexp = self.box_clone();
        scan::scan(&self.matcher(), &regexp, globals, haystack, block)
    }
}

} // verus!
