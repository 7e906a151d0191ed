//! `Regexp`: a pattern, the engine that matches it, and what a match publishes.

pub mod backend;
pub mod enc;
pub mod eq;
pub mod globals;
pub mod initialize;
pub mod inspect;
pub mod matching;
pub mod model;
pub mod opts;
pub mod scan;
pub mod syntax;
pub mod union;

pub use globals::Globals;

use core::hash::Hasher;
use std::collections::hash_map::DefaultHasher;
use vstd::prelude::*;
use vstd::std_specs::hash::DefaultHasherAdditionalSpecFns;
use vstd::string::StringSliceAdditionalSpecFns;
use vstd::utf8::valid_utf8;

use backend::{compile_spec, from_utf8, EngineKind, NilableString};
use backend::capture::captures_view;
use backend::lazy::{Chosen, Lazy};
use backend::names::{int_table_view, named_view, strings_view};
use backend::onig::Onig;
use backend::regex_utf8::RegexUtf8;
use crate::bytes::{copy, decimal, equal, push_digits};
use crate::exception::{Exception, Kind};
use crate::matchdata::MatchData;
use crate::types::Int;
use crate::value::{
    no_implicit_conversion, no_implicit_conversion_error, outcome, Block, Inner, Value,
};
use enc::Encoding;
use globals::GlobalsModel;
use initialize::{initialize_spec, read_encoding, read_literal, warnings_spec, Initialized};
use matching::matched_view;
use model::{selected, Backing, Model};
use opts::{parse_pattern, Options};
use scan::{scan_view, Scan};
use union::{join, union_part, union_parts, union_spec};

verus! {

/// A pattern and the options it is matched with.
#[derive(Debug, Clone, Hash, PartialEq, Eq)]
pub struct Config {
    /// The pattern, as bytes.
    pub pattern: Vec<u8>,
    /// The options.
    pub options: Options,
}

impl View for Config {
    type V = (Seq<u8>, Options);

    open spec fn view(&self) -> (Seq<u8>, Options) {
        (self.pattern@, self.options)
    }
}

impl Config {
    /// A pattern with its options.
    pub fn new(pattern: Vec<u8>, options: Options) -> (r: Config)
        ensures
            r@ == (pattern@, options),
    {
        Config { pattern, options }
    }

    /// A copy of the pattern and its options.
    pub fn dup(&self) -> (r: Config)
        ensures
            r@ == self@,
    {
        Config { pattern: self.pattern.clone(), options: self.options }
    }

    /// The pattern, as bytes.
    pub fn pattern(&self) -> (r: &[u8])
        ensures
            r@ == self@.0,
    {
        self.pattern.as_slice()
    }

    /// The options.
    pub fn options(&self) -> (r: Options)
        ensures
            r == self@.1,
    {
        self.options
    }
}

/// What holds the pattern of a `Regexp`.
#[derive(Debug)]
pub enum Backend {
    /// A pattern compiled by the general engine.
    Onig(Onig),
    /// A pattern compiled by the fast engine.
    RegexUtf8(RegexUtf8),
    /// A pattern that is compiled when it is first used.
    Lazy(Lazy),
}

/// A regular expression.
#[derive(Debug)]
pub struct Regexp(Backend);

/// The numbers of the groups of a name, or an exception seen by its class
/// and message.
pub open spec fn indexes_view(result: Result<Option<Vec<usize>>, Exception>) -> Result<
    Option<Seq<usize>>,
    (Kind, Seq<u8>),
> {
    match result {
        Ok(Some(indexes)) => Ok(Some(indexes@)),
        Ok(None) => Ok(None),
        Err(e) => Err(e@),
    }
}

/// A borrowed string that may be missing, or an exception seen by its class
/// and message.
pub open spec fn slice_view(result: Result<Option<&[u8]>, Exception>) -> Result<
    Option<Seq<u8>>,
    (Kind, Seq<u8>),
> {
    match result {
        Ok(Some(bytes)) => Ok(Some(bytes@)),
        Ok(None) => Ok(None),
        Err(e) => Err(e@),
    }
}

/// A haystack that may be missing, seen as a sequence of bytes.
pub open spec fn haystack_view(haystack: Option<&[u8]>) -> Option<Seq<u8>> {
    match haystack {
        Some(haystack) => Some(haystack@),
        None => None,
    }
}

/// The names of a pattern with the numbers of their groups, or an exception
/// seen by its class and message.
pub open spec fn named_captures_view(result: Result<Vec<(Vec<u8>, Vec<Int>)>, Exception>) -> Result<
    Seq<(Seq<u8>, Seq<Int>)>,
    (Kind, Seq<u8>),
> {
    match result {
        Ok(map) => Ok(int_table_view(map@)),
        Err(e) => Err(e@),
    }
}

/// The names of a pattern with their captures in a match that may have
/// failed, or an exception seen by its class and message.
pub open spec fn named_for_view(
    result: Result<Option<Vec<(Vec<u8>, NilableString)>>, Exception>,
) -> Result<Option<Seq<(Seq<u8>, Option<Seq<u8>>)>>, (Kind, Seq<u8>)> {
    match result {
        Ok(Some(named)) => Ok(Some(named_view(named@))),
        Ok(None) => Ok(None),
        Err(e) => Err(e@),
    }
}

/// What a backend does for a `Regexp`.
///
/// Every answer is a function of what the backend was made from. A backend
/// that compiles its pattern on first use answers with the error of the
/// compilation where that fails.
pub trait RegexpType {
    /// The backend as plain data.
    spec fn model(&self) -> Model;

    /// A `Regexp` with a copy of this backend.
    fn box_clone(&self) -> (r: Regexp)
        ensures
            r.model() == self.model(),
    ;

    /// The pattern and options as the caller gave them.
    fn literal_config(&self) -> (r: &Config)
        ensures
            r@ == self.model().literal,
    ;

    /// The pattern and options that are compiled.
    fn derived_config(&self) -> (r: &Config)
        ensures
            r@ == self.model().derived,
    ;

    /// The encoding of the pattern.
    fn encoding(&self) -> (r: Encoding)
        ensures
            r == self.model().encoding,
    ;

    /// The pattern as `inspect` shows it.
    fn inspect(&self) -> (r: Vec<u8>)
        ensures
            r@ == self.model().inspect(),
    ;

    /// The pattern that is compiled, as `to_s` shows it.
    fn string(&self) -> (r: &[u8])
        ensures
            r@ == self.model().string(),
    ;

    /// The capture of each group of the leftmost match in the haystack, or
    /// nothing where the pattern does not match.
    fn captures(&self, haystack: &[u8]) -> (r: Result<Option<Vec<NilableString>>, Exception>)
        ensures
            captures_view(r) == self.model().captures(haystack@),
    ;

    /// The numbers of the groups that bear `name`, or nothing where no group
    /// does.
    fn capture_indexes_for_name(&self, name: &[u8]) -> (r: Result<Option<Vec<usize>>, Exception>)
        ensures
            indexes_view(r) == self.model().capture_indexes_for_name(name@),
    ;

    /// The number of groups: those of the leftmost match in a haystack, the
    /// whole match counted, or those of the pattern where no haystack is
    /// given, the whole match not counted.
    fn captures_len(&self, haystack: Option<&[u8]>) -> (r: Result<usize, Exception>)
        ensures
            outcome(r) == self.model().captures_len(haystack_view(haystack)),
    ;

    /// The bytes of the leftmost match in the haystack.
    fn capture0<'a>(&self, haystack: &'a [u8]) -> (r: Result<Option<&'a [u8]>, Exception>)
        ensures
            slice_view(r) == self.model().capture0(haystack@),
    ;

    /// `===`: whether the pattern matches in the haystack. Publishes the
    /// match as `match_` does.
    fn case_match(&self, globals: &mut Globals, haystack: &[u8]) -> (r: Result<bool, Exception>)
        ensures
            (final(globals)@, outcome(r)) == self.model().case_match(old(globals)@, haystack@),
    ;

    /// `match?`: whether the pattern matches in the haystack at or after the
    /// position `pos`. Publishes nothing.
    fn is_match(&self, haystack: &[u8], pos: Option<Int>) -> (r: Result<bool, Exception>)
        ensures
            outcome(r) == self.model().is_match(haystack@, pos),
    ;

    /// `match`: the leftmost match of the pattern in the haystack at or after
    /// the position `pos`. Publishes the match, or sets `$~` to `nil` where
    /// there is none. Where a block is given, the caller runs it on the
    /// match.
    fn match_(&self, globals: &mut Globals, haystack: &[u8], pos: Option<Int>) -> (r: Result<
        Option<MatchData>,
        Exception,
    >)
        ensures
            (final(globals)@, matched_view(r)) == self.model().match_(
                old(globals)@,
                haystack@,
                pos,
            ),
    ;

    /// `=~`: the byte offset at which the leftmost match of the pattern in
    /// the haystack begins. Publishes the match as `match_` does.
    fn match_operator(&self, globals: &mut Globals, haystack: &[u8]) -> (r: Result<
        Option<Int>,
        Exception,
    >)
        ensures
            (final(globals)@, outcome(r)) == self.model().match_operator(
                old(globals)@,
                haystack@,
            ),
    ;

    /// Each group name with the numbers of the groups that bear it.
    fn named_captures(&self) -> (r: Result<Vec<(Vec<u8>, Vec<Int>)>, Exception>)
        ensures
            named_captures_view(r) == self.model().named_captures(),
    ;

    /// Each group name with its capture in the leftmost match in the
    /// haystack, or nothing where the pattern does not match.
    fn named_captures_for_haystack(&self, haystack: &[u8]) -> (r: Result<
        Option<Vec<(Vec<u8>, NilableString)>>,
        Exception,
    >)
        ensures
            named_for_view(r) == self.model().named_captures_for_haystack(haystack@),
    ;

    /// The group names of the pattern.
    fn names(&self) -> (r: Vec<Vec<u8>>)
        ensures
            strings_view(r@) == self.model().names(),
    ;

    /// The byte span of the group `at` of the leftmost match in the
    /// haystack.
    fn pos(&self, haystack: &[u8], at: usize) -> (r: Result<Option<(usize, usize)>, Exception>)
        ensures
            outcome(r) == self.model().pos(haystack@, at),
    ;

    /// `scan`: all the matches of the pattern in the haystack.
    fn scan(&self, globals: &mut Globals, haystack: &Value, block: Option<&Block>) -> (r: Result<
        Scan,
        Exception,
    >)
        ensures
            (final(globals)@, scan_view(r)) == self.model().scan(
                old(globals)@,
                *haystack,
                block is Some,
            ),
    ;
}

impl Backend {
    /// The backend as plain data.
    pub open spec fn backend_model(&self) -> Model {
        match self {
            Backend::Onig(onig) => onig.onig_model(),
            Backend::RegexUtf8(regex) => regex.utf8_model(),
            Backend::Lazy(lazy) => lazy.lazy_model(),
        }
    }
}

impl RegexpType for Backend {
    open spec fn model(&self) -> Model {
        self.backend_model()
    }

    fn box_clone(&self) -> (r: Regexp) {
        match self {
            Backend::Onig(onig) => onig.box_clone(),
            Backend::RegexUtf8(regex) => regex.box_clone(),
            Backend::Lazy(lazy) => lazy.box_clone(),
        }
    }

    fn literal_config(&self) -> (r: &Config) {
        match self {
            Backend::Onig(onig) => onig.literal_config(),
            Backend::RegexUtf8(regex) => regex.literal_config(),
            Backend::Lazy(lazy) => lazy.literal_config(),
        }
    }

    fn derived_config(&self) -> (r: &Config) {
        match self {
            Backend::Onig(onig) => onig.derived_config(),
            Backend::RegexUtf8(regex) => regex.derived_config(),
            Backend::Lazy(lazy) => lazy.derived_config(),
        }
    }

    fn encoding(&self) -> (r: Encoding) {
        match self {
            Backend::Onig(onig) => onig.encoding(),
            Backend::RegexUtf8(regex) => regex.encoding(),
            Backend::Lazy(lazy) => lazy.encoding(),
        }
    }

    fn inspect(&self) -> (r: Vec<u8>) {
        match self {
            Backend::Onig(onig) => onig.inspect(),
            Backend::RegexUtf8(regex) => regex.inspect(),
            Backend::Lazy(lazy) => lazy.inspect(),
        }
    }

    fn string(&self) -> (r: &[u8]) {
        match self {
            Backend::Onig(onig) => onig.string(),
            Backend::RegexUtf8(regex) => regex.string(),
            Backend::Lazy(lazy) => lazy.string(),
        }
    }

    fn captures(&self, haystack: &[u8]) -> (r: Result<Option<Vec<NilableString>>, Exception>) {
        match self {
            Backend::Onig(onig) => onig.captures(haystack),
            Backend::RegexUtf8(regex) => regex.captures(haystack),
            Backend::Lazy(lazy) => lazy.captures(haystack),
        }
    }

    fn capture_indexes_for_name(&self, name: &[u8]) -> (r: Result<Option<Vec<usize>>, Exception>) {
        match self {
            Backend::Onig(onig) => onig.capture_indexes_for_name(name),
            Backend::RegexUtf8(regex) => regex.capture_indexes_for_name(name),
            Backend::Lazy(lazy) => lazy.capture_indexes_for_name(name),
        }
    }

    fn captures_len(&self, haystack: Option<&[u8]>) -> (r: Result<usize, Exception>) {
        match self {
            Backend::Onig(onig) => onig.captures_len(haystack),
            Backend::RegexUtf8(regex) => regex.captures_len(haystack),
            Backend::Lazy(lazy) => lazy.captures_len(haystack),
        }
    }

    fn capture0<'a>(&self, haystack: &'a [u8]) -> (r: Result<Option<&'a [u8]>, Exception>) {
        match self {
            Backend::Onig(onig) => onig.capture0(haystack),
            Backend::RegexUtf8(regex) => regex.capture0(haystack),
            Backend::Lazy(lazy) => lazy.capture0(haystack),
        }
    }

    fn case_match(&self, globals: &mut Globals, haystack: &[u8]) -> (r: Result<bool, Exception>) {
        match self {
            Backend::Onig(onig) => onig.case_match(globals, haystack),
            Backend::RegexUtf8(regex) => regex.case_match(globals, haystack),
            Backend::Lazy(lazy) => lazy.case_match(globals, haystack),
        }
    }

    fn is_match(&self, haystack: &[u8], pos: Option<Int>) -> (r: Result<bool, Exception>) {
        match self {
            Backend::Onig(onig) => onig.is_match(haystack, pos),
            Backend::RegexUtf8(regex) => regex.is_match(haystack, pos),
            Backend::Lazy(lazy) => lazy.is_match(haystack, pos),
        }
    }

    fn match_(&self, globals: &mut Globals, haystack: &[u8], pos: Option<Int>) -> (r: Result<
        Option<MatchData>,
        Exception,
    >) {
        match self {
            Backend::Onig(onig) => onig.match_(globals, haystack, pos),
            Backend::RegexUtf8(regex) => regex.match_(globals, haystack, pos),
            Backend::Lazy(lazy) => lazy.match_(globals, haystack, pos),
        }
    }

    fn match_operator(&self, globals: &mut Globals, haystack: &[u8]) -> (r: Result<
        Option<Int>,
        Exception,
    >) {
        match self {
            Backend::Onig(onig) => onig.match_operator(globals, haystack),
            Backend::RegexUtf8(regex) => regex.match_operator(globals, haystack),
            Backend::Lazy(lazy) => lazy.match_operator(globals, haystack),
        }
    }

    fn named_captures(&self) -> (r: Result<Vec<(Vec<u8>, Vec<Int>)>, Exception>) {
        match self {
            Backend::Onig(onig) => onig.named_captures(),
            Backend::RegexUtf8(regex) => regex.named_captures(),
            Backend::Lazy(lazy) => lazy.named_captures(),
        }
    }

    fn named_captures_for_haystack(&self, haystack: &[u8]) -> (r: Result<
        Option<Vec<(Vec<u8>, NilableString)>>,
        Exception,
    >) {
        match self {
            Backend::Onig(onig) => onig.named_captures_for_haystack(haystack),
            Backend::RegexUtf8(regex) => regex.named_captures_for_haystack(haystack),
            Backend::Lazy(lazy) => lazy.named_captures_for_haystack(haystack),
        }
    }

    fn names(&self) -> (r: Vec<Vec<u8>>) {
        match self {
            Backend::Onig(onig) => onig.names(),
            Backend::RegexUtf8(regex) => regex.names(),
            Backend::Lazy(lazy) => lazy.names(),
        }
    }

    fn pos(&self, haystack: &[u8], at: usize) -> (r: Result<Option<(usize, usize)>, Exception>) {
        match self {
            Backend::Onig(onig) => onig.pos(haystack, at),
            Backend::RegexUtf8(regex) => regex.pos(haystack, at),
            Backend::Lazy(lazy) => lazy.pos(haystack, at),
        }
    }

    fn scan(&self, globals: &mut Globals, haystack: &Value, block: Option<&Block>) -> (r: Result<
        Scan,
        Exception,
    >) {
        match self {
            Backend::Onig(onig) => onig.scan(globals, haystack, block),
            Backend::RegexUtf8(regex) => regex.scan(globals, haystack, block),
            Backend::Lazy(lazy) => lazy.scan(globals, haystack, block),
        }
    }
}

impl Clone for Regexp {
    fn clone(&self) -> (r: Regexp)
        ensures
            r.model() == self.model(),
    {
        self.box_clone()
    }
}

impl Regexp {
    /// The `Regexp` as plain data.
    pub closed spec fn model(&self) -> Model {
        self.0.backend_model()
    }

    /// The `Regexp` that `backend` holds.
    pub fn from(backend: Backend) -> (r: Regexp)
        ensures
            r.model() == backend.backend_model(),
    {
        Regexp(backend)
    }

    /// A copy of the `Regexp`.
    pub fn box_clone(&self) -> (r: Regexp)
        ensures
            r.model() == self.model(),
    {
        self.0.box_clone()
    }

    /// The backend that holds the pattern.
    pub fn inner(&self) -> (r: &Backend)
        ensures
            r.backend_model() == self.model(),
    {
        &self.0
    }
}

/// The option bit of `i`.
pub const IGNORECASE: Int = 1;

/// The option bit of `x`.
pub const EXTENDED: Int = 2;

/// The option bit of `m`.
pub const MULTILINE: Int = 4;

/// The option bit of a fixed encoding.
pub const FIXEDENCODING: Int = 16;

/// The option bit of no encoding.
pub const NOENCODING: Int = 32;

/// The option bit of a pattern that was written as a literal.
pub const LITERAL: Int = 128;

/// The name of the global that holds the string of the last match.
pub const LAST_MATCHED_STRING: &'static str = "$&";

/// The name of the global that holds the string to the left of the last
/// match.
pub const STRING_LEFT_OF_MATCH: &'static str = "$`";

/// The name of the global that holds the string to the right of the last
/// match.
pub const STRING_RIGHT_OF_MATCH: &'static str = "$'";

/// The name of the global that holds the last group of the last match.
pub const HIGHEST_MATCH_GROUP: &'static str = "$+";

/// The name of the global that holds the last match.
pub const LAST_MATCH: &'static str = "$~";

/// The name of the global that holds the capture of the group `group` of the
/// last match: `$` and the number of the group. There is no such global for
/// group 0: `$0` is the name of the program.
pub fn nth_match_group(group: usize) -> (r: Vec<u8>)
    requires
        group != 0,
    ensures
        r@ == seq![36u8] + decimal(group as int),
{
    let mut name: Vec<u8> = Vec::new();
    name.push(36u8);
    push_digits(&mut name, group as u64);
    name
}

/// The kind of backend that holds a pattern compiled by `kind`.
pub open spec fn backing_of(kind: EngineKind) -> Backing {
    match kind {
        EngineKind::Onig => Backing::Onig,
        EngineKind::Utf8 => Backing::Utf8,
    }
}

/// What `Regexp::new` gives: the pattern compiled by the fast engine, or by
/// the general engine where the fast engine rejects it; where both reject
/// it, the error of the general engine.
pub open spec fn new_spec(
    literal: (Seq<u8>, Options),
    derived: (Seq<u8>, Options),
    encoding: Encoding,
) -> Result<Model, (Kind, Seq<u8>)> {
    match selected(literal, derived) {
        Ok(kind) => Ok(Model { literal, derived, encoding, backing: backing_of(kind) }),
        Err(e) => Err(e),
    }
}

/// A `Regexp`, or an exception, as plain data.
pub open spec fn regexp_view(result: Result<Regexp, Exception>) -> Result<Model, (Kind, Seq<u8>)> {
    match result {
        Ok(regexp) => Ok(regexp.model()),
        Err(e) => Err(e@),
    }
}

/// The message of the error raised by `escape` and `union` for a value that
/// is no string.
pub open spec fn no_string_message() -> Seq<u8> {
    "No implicit conversion into String".spec_bytes()
}

/// The message of the error raised by `union` for one of several values that
/// is no string.
pub open spec fn no_string_among_message() -> Seq<u8> {
    "no implicit conversion into String".spec_bytes()
}

/// The message of the error raised by `escape` for a string that is not
/// UTF-8.
pub open spec fn escape_utf8_message() -> Seq<u8> {
    "Self::escape only supports UTF-8 patterns".spec_bytes()
}

/// The message of the error raised by `union` for a string that is not
/// UTF-8.
pub open spec fn union_utf8_message() -> Seq<u8> {
    "Self::union only supports UTF-8 patterns".spec_bytes()
}

/// What `escape` gives: the pattern that matches the bytes of the string
/// itself. A value that is no string and has no `to_str` is a `TypeError`;
/// a string that is not UTF-8 is an `ArgumentError`.
pub open spec fn escape_spec(pattern: Value) -> Result<Seq<u8>, (Kind, Seq<u8>)> {
    match pattern.coerced_bytes_spec() {
        None => Err((Kind::TypeError, no_string_message())),
        Some(bytes) => if valid_utf8(bytes) {
            Ok(syntax::escape_spec(bytes))
        } else {
            Err((Kind::ArgumentError, escape_utf8_message()))
        },
    }
}

/// A value that may be missing.
pub open spec fn value_view(value: Option<&Value>) -> Option<Value> {
    match value {
        Some(value) => Some(*value),
        None => None,
    }
}

/// The position that an argument stands for: none where there is no
/// argument, the integer that the argument is or converts to, and a
/// `TypeError` for an argument that is no integer.
pub open spec fn position_spec(pos: Option<Value>) -> Result<Option<Int>, (Kind, Seq<u8>)> {
    match pos {
        None => Ok(None),
        Some(pos) => match pos.coerced_int_spec() {
            Some(pos) => Ok(Some(pos)),
            None => Err(
                (Kind::TypeError, no_implicit_conversion(pos.pretty_name_spec(), "Integer"@)),
            ),
        },
    }
}

/// The position that an argument stands for.
pub fn position_of(pos: Option<&Value>) -> (r: Result<Option<Int>, Exception>)
    ensures
        outcome(r) == position_spec(value_view(pos)),
{
    match pos {
        None => Ok(None),
        Some(pos) => match pos.coerce_to_int() {
            Some(pos) => Ok(Some(pos)),
            None => Err(no_implicit_conversion_error(pos.pretty_name(), "Integer")),
        },
    }
}

impl Regexp {
    /// Compiles the pattern and options `derived_config`, with the fast
    /// engine where it accepts them and with the general engine where it
    /// does not, and keeps `literal_config` and `encoding` beside the
    /// result. Where both engines reject the pattern, the error is that of
    /// the general engine.
    pub fn new(literal_config: Config, derived_config: Config, encoding: Encoding) -> (r: Result<
        Regexp,
        Exception,
    >)
        ensures
            regexp_view(r) == new_spec(literal_config@, derived_config@, encoding),
    {
        match Chosen::new(literal_config, derived_config, encoding) {
            Ok(chosen) => Ok(Regexp(chosen.into_compiled().into_backend())),
            Err(e) => Err(e),
        }
    }

    /// A `Regexp` of `pattern` with no options and no encoding, which is
    /// compiled when it is first used.
    pub fn lazy(pattern: &[u8]) -> (r: Regexp)
        ensures
            r.model() == (Model {
                literal: (pattern@, Options::default_spec()),
                derived: (pattern@, Options::default_spec()),
                encoding: Encoding::Unset,
                backing: Backing::Lazy,
            }),
    {
        let literal = Config { pattern: copy(pattern), options: Options::default() };
        Regexp(Backend::Lazy(Lazy::new(literal)))
    }

    /// `Regexp.new`: the `Regexp` of a pattern, which is a string or another
    /// `Regexp`, with the options and the encoding that the other arguments
    /// stand for.
    ///
    /// The encoding is read from the third argument, or from the second
    /// where there is no third; a value that names none gives a warning.
    /// Options beside a pattern that is a `Regexp` are ignored with a
    /// warning. A pattern that is neither a string nor a `Regexp` is a
    /// `TypeError`.
    pub fn initialize(pattern: &Value, options: Option<&Value>, encoding: Option<&Value>) -> (r:
        Result<Initialized, Exception>)
        ensures
            match r {
                Ok(made) => initialize_spec(*pattern, value_view(options), value_view(encoding))
                    == Ok::<Model, (Kind, Seq<u8>)>(made.regexp.model()) && strings_view(
                    made.warnings@,
                ) == warnings_spec(*pattern, value_view(options), value_view(encoding)),
                Err(e) => initialize_spec(*pattern, value_view(options), value_view(encoding))
                    == Err::<Model, (Kind, Seq<u8>)>(e@),
            },
    {
        let mut warnings: Vec<Vec<u8>> = Vec::new();
        let given_encoding: Option<Encoding> = read_encoding(options, encoding, &mut warnings);
        let given_options: Option<Options> = match options {
            Some(options) => Some(opts::parse(options)),
            None => None,
        };
        let flags: bool = given_options.is_some() || given_encoding.is_some();
        let literal_config: Config = match read_literal(
            pattern,
            given_options,
            flags,
            &mut warnings,
        ) {
            Ok(literal_config) => literal_config,
            Err(e) => {
                return Err(e);
            },
        };
        let (derived_pattern, derived_options) = parse_pattern(
            literal_config.pattern(),
            literal_config.options(),
        );
        let derived_config = Config { pattern: derived_pattern, options: derived_options };
        let encoding: Encoding = match given_encoding {
            Some(encoding) => encoding,
            None => Encoding::Unset,
        };
        match Regexp::new(literal_config, derived_config, encoding) {
            Ok(regexp) => Ok(Initialized { regexp, warnings }),
            Err(e) => Err(e),
        }
    }

    /// `Regexp.escape`: the pattern that matches the bytes of a string
    /// themselves. Nothing is compiled.
    pub fn escape(pattern: &Value) -> (r: Result<Vec<u8>, Exception>)
        ensures
            match r {
                Ok(escaped) => escape_spec(*pattern) == Ok::<Seq<u8>, (Kind, Seq<u8>)>(escaped@),
                Err(e) => escape_spec(*pattern) == Err::<Seq<u8>, (Kind, Seq<u8>)>(e@),
            },
    {
        match pattern.coerce_to_bytes() {
            None => Err(Exception::new(Kind::TypeError, "No implicit conversion into String")),
            Some(bytes) => {
                if from_utf8(bytes).is_some() {
                    Ok(syntax::escape(bytes))
                } else {
                    Err(
                        Exception::new(
                            Kind::ArgumentError,
                            "Self::escape only supports UTF-8 patterns",
                        ),
                    )
                }
            },
        }
    }

    /// `Regexp.union`: the `Regexp` that matches what any of the patterns
    /// matches. The patterns are not compiled one by one: they are put
    /// together with `|` between them, and the result is compiled once.
    pub fn union(patterns: &[Value]) -> (r: Result<Regexp, Exception>)
        ensures
            regexp_view(r) == union_spec(patterns@),
    {
        let source: Result<Vec<u8>, Exception> = if patterns.len() == 0 {
            Ok(copy("(?!)".as_bytes()))
        } else if patterns.len() == 1 {
            match patterns[0].inner() {
                Inner::Array(elements) => match union_parts(elements.as_slice(), true) {
                    Err(e) => Err(e),
                    Ok(parts) => {
                        let bar: Vec<u8> = vec![124u8];
                        assert(bar@ =~= seq![124u8]);
                        Ok(join(bar.as_slice(), &parts))
                    },
                },
                _ => union_part(&patterns[0], true),
            }
        } else {
            match union_parts(patterns, false) {
                Err(e) => Err(e),
                Ok(parts) => {
                    let bar: Vec<u8> = vec![124u8];
                    assert(bar@ =~= seq![124u8]);
                    Ok(join(bar.as_slice(), &parts))
                },
            }
        };
        match source {
            Err(e) => Err(e),
            Ok(pattern) => {
                let (derived_pattern, derived_options) = parse_pattern(
                    pattern.as_slice(),
                    Options::default(),
                );
                let derived_config = Config { pattern: derived_pattern, options: derived_options };
                let literal_config = Config { pattern, options: Options::default() };
                Regexp::new(literal_config, derived_config, Encoding::Unset)
            },
        }
    }

    /// `===`: whether the pattern matches in `other`, which is a string or
    /// has a `to_str`. Publishes the match. For every other value the answer
    /// is `false`, and `$~` is set to `nil`.
    pub fn case_compare(&self, globals: &mut Globals, other: &Value) -> (r: Result<bool, Exception>)
        ensures
            (final(globals)@, outcome(r)) == (match other.coerced_bytes_spec() {
                Some(haystack) => self.model().case_match(old(globals)@, haystack),
                None => (GlobalsModel { last_match: None, ..old(globals)@ }, Ok(false)),
            }),
    {
        match other.coerce_to_bytes() {
            Some(haystack) => self.0.case_match(globals, haystack),
            None => {
                globals.unset_last_match();
                Ok(false)
            },
        }
    }

    /// `==`: whether `other` is a `Regexp` with the same compiled pattern
    /// and an encoding that matches the same way.
    pub fn eql(&self, other: &Value) -> (r: bool)
        ensures
            r == (other.inner_spec() matches Inner::Regexp(source) && source.derived@.0
                == self.model().derived.0 && self.model().encoding.same_spec(source.encoding)),
    {
        match other.inner() {
            Inner::Regexp(source) => equal(
                self.0.derived_config().pattern(),
                source.derived.pattern(),
            ) && self.0.encoding().same(source.encoding),
            _ => false,
        }
    }

    /// `hash`: a number that is the same for every `Regexp` with the same
    /// pattern and options as written.
    pub fn hash(&self) -> (r: Int)
        ensures
            r == DefaultHasher::spec_finish(
                seq![self.model().literal.0, seq![self.model().literal.1.flags_spec() as u8]],
            ) as Int,
    {
        let literal: &Config = self.0.literal_config();
        let mut hasher = DefaultHasher::new();
        hasher.write(literal.pattern());
        let bits: Vec<u8> = vec![literal.options().flags() as u8];
        assert(bits@ =~= seq![literal@.1.flags_spec() as u8]);
        hasher.write(bits.as_slice());
        assert(hasher@ =~= seq![
            self.model().literal.0,
            seq![self.model().literal.1.flags_spec() as u8],
        ]);
        hasher.finish() as Int
    }

    /// `inspect`: the pattern between slashes, with the letters of its
    /// options behind.
    pub fn inspect(&self) -> (r: Vec<u8>)
        ensures
            r@ == self.model().inspect(),
    {
        self.0.inspect()
    }

    /// `casefold?`: whether the pattern was written with the option `i`.
    pub fn is_casefold(&self) -> (r: bool)
        ensures
            r == self.model().literal.1.ignore_case,
    {
        self.0.literal_config().options().ignore_case
    }

    /// `fixed_encoding?`: whether the pattern is bound to one encoding.
    pub fn is_fixed_encoding(&self) -> (r: bool)
        ensures
            r == (self.model().encoding is Fixed),
    {
        match self.0.encoding() {
            Encoding::Fixed => true,
            _ => false,
        }
    }

    /// `match?`: whether the pattern matches in `pattern`, which is a string
    /// or has a `to_str`, at or after the position `pos`. `nil` is matched
    /// by no pattern. Publishes nothing.
    pub fn is_match(&self, pattern: &Value, pos: Option<&Value>) -> (r: Result<bool, Exception>)
        ensures
            outcome(r) == (match pattern.coerced_nilable_bytes_spec() {
                None => Err(
                    (
                        Kind::TypeError,
                        no_implicit_conversion(pattern.pretty_name_spec(), "String"@),
                    ),
                ),
                Some(None) => Ok(false),
                Some(Some(haystack)) => match position_spec(value_view(pos)) {
                    Err(e) => Err(e),
                    Ok(pos) => self.model().is_match(haystack, pos),
                },
            }),
    {
        let haystack: &[u8] = match pattern.coerce_to_nilable_bytes() {
            None => {
                return Err(no_implicit_conversion_error(pattern.pretty_name(), "String"));
            },
            Some(None) => {
                return Ok(false);
            },
            Some(Some(haystack)) => haystack,
        };
        match position_of(pos) {
            Err(e) => Err(e),
            Ok(pos) => self.0.is_match(haystack, pos),
        }
    }

    /// `match`: the leftmost match of the pattern in `pattern`, which is a
    /// string or has a `to_str`, at or after the position `pos`. Publishes
    /// the match. For `nil` there is no match, and `$~` is set to `nil`.
    /// Where a block is given, the caller runs it on the match.
    pub fn match_(&self, globals: &mut Globals, pattern: &Value, pos: Option<&Value>) -> (r: Result<
        Option<MatchData>,
        Exception,
    >)
        ensures
            (final(globals)@, matched_view(r)) == (match pattern.coerced_nilable_bytes_spec() {
                None => (
                    old(globals)@,
                    Err(
                        (
                            Kind::TypeError,
                            no_implicit_conversion(pattern.pretty_name_spec(), "String"@),
                        ),
                    ),
                ),
                Some(None) => (GlobalsModel { last_match: None, ..old(globals)@ }, Ok(None)),
                Some(Some(haystack)) => match position_spec(value_view(pos)) {
                    Err(e) => (old(globals)@, Err(e)),
                    Ok(pos) => self.model().match_(old(globals)@, haystack, pos),
                },
            }),
    {
        let haystack: &[u8] = match pattern.coerce_to_nilable_bytes() {
            None => {
                return Err(no_implicit_conversion_error(pattern.pretty_name(), "String"));
            },
            Some(None) => {
                globals.unset_last_match();
                return Ok(None);
            },
            Some(Some(haystack)) => haystack,
        };
        match position_of(pos) {
            Err(e) => Err(e),
            Ok(pos) => self.0.match_(globals, haystack, pos),
        }
    }

    /// `=~`: the byte offset at which the leftmost match of the pattern in
    /// `pattern` begins, which is a string or has a `to_str`. Publishes the
    /// match. For `nil` there is no match, and nothing is published.
    pub fn match_operator(&self, globals: &mut Globals, pattern: &Value) -> (r: Result<
        Option<Int>,
        Exception,
    >)
        ensures
            (final(globals)@, outcome(r)) == (match pattern.coerced_nilable_bytes_spec() {
                None => (
                    old(globals)@,
                    Err(
                        (
                            Kind::TypeError,
                            no_implicit_conversion(pattern.pretty_name_spec(), "String"@),
                        ),
                    ),
                ),
                Some(None) => (old(globals)@, Ok(None)),
                Some(Some(haystack)) => self.model().match_operator(old(globals)@, haystack),
            }),
    {
        match pattern.coerce_to_nilable_bytes() {
            None => Err(no_implicit_conversion_error(pattern.pretty_name(), "String")),
            Some(None) => Ok(None),
            Some(Some(haystack)) => self.0.match_operator(globals, haystack),
        }
    }

    /// `named_captures`: each group name with the numbers of the groups that
    /// bear it.
    pub fn named_captures(&self) -> (r: Result<Vec<(Vec<u8>, Vec<Int>)>, Exception>)
        ensures
            named_captures_view(r) == self.model().named_captures(),
    {
        self.0.named_captures()
    }

    /// `names`: the group names of the pattern.
    pub fn names(&self) -> (r: Vec<Vec<u8>>)
        ensures
            strings_view(r@) == self.model().names(),
    {
        self.0.names()
    }

    /// `options`: the option bits of the pattern as written, with the bit of
    /// its encoding: 1 for `i`, 2 for `x`, 4 for `m`, 16 for a fixed
    /// encoding and 32 for none.
    pub fn options(&self) -> (r: Int)
        ensures
            r == self.model().literal.1.flags_spec() + self.model().encoding.flags_spec(),
    {
        let bits: Int = self.0.literal_config().options().flags() as Int;
        bits + self.0.encoding().flags()
    }

    /// `source`: the pattern as written.
    pub fn source(&self) -> (r: &[u8])
        ensures
            r@ == self.model().literal.0,
    {
        self.0.literal_config().pattern()
    }

    /// `to_s`: the pattern that is compiled.
    pub fn string(&self) -> (r: &[u8])
        ensures
            r@ == self.model().string(),
    {
        self.0.string()
    }
}

/// A `Regexp` that `new` makes holds the pattern and options as written,
/// the pattern and options to compile, and the encoding, as they were given
/// to `new`: what `literal_config` returns is what went in.
pub proof fn lemma_literal_round_trip(
    literal: (Seq<u8>, Options),
    derived: (Seq<u8>, Options),
    encoding: Encoding,
)
    ensures
        new_spec(literal, derived, encoding) matches Ok(model) ==> model.literal == literal
            && model.derived == derived && model.encoding == encoding,
        new_spec(literal, derived, encoding) is Ok <==> compile_spec(
            EngineKind::Utf8,
            literal,
            derived,
        ) is None || compile_spec(EngineKind::Onig, literal, derived) is None,
{
}

/// A pattern that the fast engine rejects and the general engine accepts
/// makes a `Regexp` that the general engine holds. It raises no error of
/// its own, and its captures are worked out from what its engine finds in
/// the same way as those of a `Regexp` that the fast engine holds.
pub proof fn lemma_backend_fallback(
    literal: (Seq<u8>, Options),
    derived: (Seq<u8>, Options),
    encoding: Encoding,
    haystack: Seq<u8>,
)
    requires
        compile_spec(EngineKind::Utf8, literal, derived) is Some,
        compile_spec(EngineKind::Onig, literal, derived) is None,
    ensures
        new_spec(literal, derived, encoding) == Ok::<Model, (Kind, Seq<u8>)>(
            Model { literal, derived, encoding, backing: Backing::Onig },
        ),
        new_spec(literal, derived, encoding) matches Ok(model) && model.error() is None
            && model.key() == backend::key_of(EngineKind::Onig, derived) && model.captures(
            haystack,
        ) == backend::capture::captures_spec(model.key(), haystack),
        forall|fast: Model|
            fast.backing == Backing::Utf8 ==> #[trigger] fast.captures(haystack)
                == backend::capture::captures_spec(fast.key(), haystack),
{
}

} // verus!
