//! A pattern that is compiled when it is first used.
//!
//! The compiled pattern is kept in a cell that is written once. A pattern
//! that fails to compile leaves the cell empty, so that the next use tries
//! again.

use once_cell::sync::OnceCell;
use vstd::prelude::*;

use crate::bytes::equal;
use crate::exception::{Exception, Kind};
use crate::matchdata::MatchData;
use crate::regexp::{Backend, Config, Regexp, RegexpType};
use crate::regexp::backend::{capture, key_of, names, position, EngineKind, Matcher, NilableString};
use crate::regexp::backend::onig::Onig;
use crate::regexp::backend::regex_utf8::RegexUtf8;
use crate::regexp::enc::Encoding;
use crate::regexp::globals::Globals;
use crate::regexp::inspect::inspect_config;
use crate::regexp::matching::{match_at, match_found, match_position};
use crate::regexp::model::{selected, Backing, Model};
use crate::regexp::opts::Options;
use crate::regexp::scan::{self, Scan};
use crate::types::Int;
use crate::value::{Block, Value};

verus! {

/// `once_cell::sync::OnceCell`: a cell that is written at most once. Nothing
/// inside it is seen here.
#[verifier::external_type_specification]
#[verifier::external_body]
#[verifier::reject_recursive_types(T)]
pub struct ExOnceCell<T>(OnceCell<T>);

/// `OnceCell::new`: an empty cell.
pub assume_specification<T>[ OnceCell::<T>::new ]() -> OnceCell<T>;

/// `OnceCell::get`: the value in the cell, if it holds one. What it holds
/// depends on what was put in before, of which nothing is said here.
pub assume_specification<T>[ OnceCell::<T>::get ](cell: &OnceCell<T>) -> Option<&T>;

/// `OnceCell::try_insert`: puts `value` in the cell if it is empty, and then
/// returns the value in the cell, which is `value`; if the cell holds a
/// value, returns that value and gives `value` back.
pub assume_specification<T>[ OnceCell::<T>::try_insert ](cell: &OnceCell<T>, value: T) -> (r:
    Result<&T, (&T, T)>)
    ensures
        r matches Ok(stored) ==> *stored == value,
        r matches Err(kept) ==> kept.1 == value,
;

/// A pattern compiled by one of the two engines.
#[derive(Debug)]
pub enum Compiled {
    /// Compiled by the general engine.
    Onig(Onig),
    /// Compiled by the fast engine.
    RegexUtf8(RegexUtf8),
}

impl Compiled {
    /// The engine that compiled the pattern.
    pub open spec fn kind_spec(&self) -> EngineKind {
        match self {
            Compiled::Onig(_) => EngineKind::Onig,
            Compiled::RegexUtf8(_) => EngineKind::Utf8,
        }
    }

    /// The pattern and options as the caller gave them.
    pub open spec fn literal_spec(&self) -> (Seq<u8>, Options) {
        match self {
            Compiled::Onig(onig) => onig.literal_spec(),
            Compiled::RegexUtf8(regex) => regex.literal_spec(),
        }
    }

    /// The pattern and options that were compiled.
    pub open spec fn derived_spec(&self) -> (Seq<u8>, Options) {
        match self {
            Compiled::Onig(onig) => onig.derived_spec(),
            Compiled::RegexUtf8(regex) => regex.derived_spec(),
        }
    }

    /// The encoding of the pattern.
    pub open spec fn encoding_spec(&self) -> Encoding {
        match self {
            Compiled::Onig(onig) => onig.encoding_spec(),
            Compiled::RegexUtf8(regex) => regex.encoding_spec(),
        }
    }

    /// The pattern and options as the caller gave them.
    pub fn literal_config(&self) -> (r: &Config)
        ensures
            r@ == self.literal_spec(),
    {
        match self {
            Compiled::Onig(onig) => onig.literal(),
            Compiled::RegexUtf8(regex) => regex.literal(),
        }
    }

    /// The pattern and options that were compiled.
    pub fn derived_config(&self) -> (r: &Config)
        ensures
            r@ == self.derived_spec(),
    {
        match self {
            Compiled::Onig(onig) => onig.derived(),
            Compiled::RegexUtf8(regex) => regex.derived(),
        }
    }

    /// The encoding of the pattern.
    pub fn encoding(&self) -> (r: Encoding)
        ensures
            r == self.encoding_spec(),
    {
        match self {
            Compiled::Onig(onig) => onig.encoding_of(),
            Compiled::RegexUtf8(regex) => regex.encoding_of(),
        }
    }

    /// The compiled pattern.
    pub fn matcher(&self) -> (r: Matcher<'_>)
        ensures
            r.wf(),
            r.key() == key_of(self.kind_spec(), self.derived_spec()),
    {
        match self {
            Compiled::Onig(onig) => onig.matcher(),
            Compiled::RegexUtf8(regex) => regex.matcher(),
        }
    }

    /// The compiled pattern as plain data.
    pub open spec fn compiled_model(&self) -> Model {
        match self {
            Compiled::Onig(onig) => onig.onig_model(),
            Compiled::RegexUtf8(regex) => regex.utf8_model(),
        }
    }

    /// A `Regexp` with a copy of the compiled pattern.
    pub fn box_clone(&self) -> (r: Regexp)
        ensures
            r.model() == self.compiled_model(),
    {
        match self {
            Compiled::Onig(onig) => onig.box_clone(),
            Compiled::RegexUtf8(regex) => regex.box_clone(),
        }
    }

    /// The backend that holds the compiled pattern.
    pub fn into_backend(self) -> (r: Backend)
        ensures
            r.backend_model() == self.compiled_model(),
    {
        match self {
            Compiled::Onig(onig) => Backend::Onig(onig),
            Compiled::RegexUtf8(regex) => Backend::RegexUtf8(regex),
        }
    }
}

/// A pattern compiled by the engine that is chosen for it: the fast engine
/// where it accepts the pattern, else the general engine.
#[derive(Debug)]
pub struct Chosen {
    compiled: Compiled,
}

impl Chosen {
    /// The engine that compiled the pattern is the one chosen for it.
    #[verifier::type_invariant]
    spec fn inv(&self) -> bool {
        selected(self.compiled.literal_spec(), self.compiled.derived_spec()) == Ok::<
            EngineKind,
            (Kind, Seq<u8>),
        >(self.compiled.kind_spec())
    }

    /// The compiled pattern.
    pub closed spec fn compiled_spec(&self) -> Compiled {
        self.compiled
    }

    /// Compiles the pattern and options `derived` with the fast engine, or
    /// with the general engine where the fast engine rejects them. Where both
    /// reject them, the error is that of the general engine.
    pub fn new(literal: Config, derived: Config, encoding: Encoding) -> (r: Result<
        Chosen,
        Exception,
    >)
        ensures
            match r {
                Ok(chosen) => selected(literal@, derived@) == Ok::<EngineKind, (Kind, Seq<u8>)>(
                    chosen.compiled_spec().kind_spec(),
                ) && chosen.compiled_spec().literal_spec() == literal@
                    && chosen.compiled_spec().derived_spec() == derived@
                    && chosen.compiled_spec().encoding_spec() == encoding,
                Err(e) => selected(literal@, derived@) == Err::<EngineKind, (Kind, Seq<u8>)>(e@),
            },
    {
        match RegexUtf8::new(literal.dup(), derived.dup(), encoding) {
            Ok(regex) => Ok(Chosen { compiled: Compiled::RegexUtf8(regex) }),
            Err(_) => match Onig::new(literal, derived, encoding) {
                Ok(onig) => Ok(Chosen { compiled: Compiled::Onig(onig) }),
                Err(e) => Err(e),
            },
        }
    }

    /// The compiled pattern, which the engine chosen for it compiled.
    pub fn compiled(&self) -> (r: &Compiled)
        ensures
            *r == self.compiled_spec(),
            selected(r.literal_spec(), r.derived_spec()) == Ok::<EngineKind, (Kind, Seq<u8>)>(
                r.kind_spec(),
            ),
    {
        proof {
            use_type_invariant(self);
        }
        &self.compiled
    }

    /// The compiled pattern.
    pub fn into_compiled(self) -> (r: Compiled)
        ensures
            r == self.compiled_spec(),
            selected(r.literal_spec(), r.derived_spec()) == Ok::<EngineKind, (Kind, Seq<u8>)>(
                r.kind_spec(),
            ),
    {
        proof {
            use_type_invariant(&self);
        }
        self.compiled
    }
}

/// A compiled pattern that is borrowed from a cell, or owned.
pub enum Handle<'a> {
    /// The pattern that the cell holds.
    Kept(&'a Chosen),
    /// A pattern that was compiled just now and is not in the cell.
    Fresh(Chosen),
}

impl<'a> Handle<'a> {
    /// The compiled pattern.
    pub open spec fn chosen_spec(&self) -> Chosen {
        match self {
            Handle::Kept(chosen) => **chosen,
            Handle::Fresh(chosen) => *chosen,
        }
    }

    /// The compiled pattern.
    pub fn chosen(&self) -> (r: &Chosen)
        ensures
            *r == self.chosen_spec(),
    {
        match self {
            Handle::Kept(chosen) => chosen,
            Handle::Fresh(chosen) => chosen,
        }
    }
}

/// A pattern that is compiled when it is first used.
#[derive(Debug)]
pub struct Lazy {
    literal: Config,
    encoding: Encoding,
    regexp: OnceCell<Chosen>,
}

impl Clone for Lazy {
    /// A copy of the pattern that is not compiled yet.
    fn clone(&self) -> (r: Lazy)
        ensures
            r.lazy_model() == self.lazy_model(),
    {
        self.dup()
    }
}

impl Lazy {
    /// The pattern and options, which are compiled as they are.
    pub closed spec fn literal_spec(&self) -> (Seq<u8>, Options) {
        self.literal@
    }

    /// The encoding of the pattern.
    pub closed spec fn encoding_spec(&self) -> Encoding {
        self.encoding
    }

    /// The pattern as plain data.
    pub open spec fn lazy_model(&self) -> Model {
        Model {
            literal: self.literal_spec(),
            derived: self.literal_spec(),
            encoding: self.encoding_spec(),
            backing: Backing::Lazy,
        }
    }

    /// A pattern with the options `literal` that is not compiled yet and has
    /// no encoding.
    pub fn new(literal: Config) -> (r: Lazy)
        ensures
            r.literal_spec() == literal@,
            r.encoding_spec() == Encoding::Unset,
    {
        Lazy { literal, encoding: Encoding::Unset, regexp: OnceCell::new() }
    }

    /// The compiled pattern. The first call compiles the pattern and keeps
    /// the result for the calls that follow; a pattern that is rejected is
    /// compiled again by the next call.
    pub fn regexp(&self) -> (r: Result<Handle<'_>, Exception>)
        ensures
            match r {
                Ok(handle) => {
                    let compiled = handle.chosen_spec().compiled_spec();
                    &&& self.lazy_model().error() is None
                    &&& compiled.kind_spec() == self.lazy_model().kind()
                    &&& compiled.literal_spec() == self.literal_spec()
                    &&& compiled.derived_spec() == self.literal_spec()
                    &&& compiled.encoding_spec() == self.encoding_spec()
                },
                Err(e) => self.lazy_model().error() == Some(e@),
            },
    {
        if let Some(kept) = self.regexp.get() {
            // What the cell holds is taken only where it was compiled from
            // this pattern.
            let compiled = kept.compiled();
            if equal(compiled.literal_config().pattern(), self.literal.pattern())
                && compiled.literal_config().options() == self.literal.options()
                && equal(compiled.derived_config().pattern(), self.literal.pattern())
                && compiled.derived_config().options() == self.literal.options()
                && compiled.encoding() == self.encoding {
                return Ok(Handle::Kept(kept));
            }
        }
        match Chosen::new(self.literal.dup(), self.literal.dup(), self.encoding) {
            Ok(chosen) => match self.regexp.try_insert(chosen) {
                Ok(stored) => Ok(Handle::Kept(stored)),
                Err(kept) => Ok(Handle::Fresh(kept.1)),
            },
            Err(e) => Err(e),
        }
    }

    /// The pattern and options.
    pub fn literal(&self) -> (r: &Config)
        ensures
            r@ == self.literal_spec(),
    {
        &self.literal
    }

    /// The encoding of the pattern.
    pub fn encoding_of(&self) -> (r: Encoding)
        ensures
            r == self.encoding_spec(),
    {
        self.encoding
    }

    /// A copy of the pattern that is not compiled yet.
    pub fn dup(&self) -> (r: Lazy)
        ensures
            r.literal_spec() == self.literal_spec(),
            r.encoding_spec() == self.encoding_spec(),
    {
        Lazy { literal: self.literal.dup(), encoding: self.encoding, regexp: OnceCell::new() }
    }
}

impl RegexpType for Lazy {
    open spec fn model(&self) -> Model {
        self.lazy_model()
    }

    fn box_clone(&self) -> (r: Regexp) {
        Regexp::from(Backend::Lazy(self.dup()))
    }

    fn literal_config(&self) -> (r: &Config) {
        self.literal()
    }

    fn derived_config(&self) -> (r: &Config) {
        self.literal()
    }

    fn encoding(&self) -> (r: Encoding) {
        self.encoding_of()
    }

    fn inspect(&self) -> (r: Vec<u8>) {
        match self.regexp() {
            Ok(_) => inspect_config(self.literal(), self.encoding_of()),
            Err(_) => Vec::new(),
        }
    }

    fn string(&self) -> (r: &[u8]) {
        let pattern: &[u8] = self.literal().pattern();
        match self.regexp() {
            Ok(_) => pattern,
            Err(_) => vstd::slice::slice_subrange(pattern, 0, 0),
        }
    }

    fn captures(&self, haystack: &[u8]) -> (r: Result<Option<Vec<NilableString>>, Exception>) {
        match self.regexp() {
            Err(e) => Err(e),
            Ok(handle) => capture::captures(&handle.chosen().compiled().matcher(), haystack),
        }
    }

    fn capture_indexes_for_name(&self, name: &[u8]) -> (r: Result<Option<Vec<usize>>, Exception>) {
        match self.regexp() {
            Err(e) => Err(e),
            Ok(handle) => {
                let table = handle.chosen().compiled().matcher().name_table();
                Ok(names::capture_indexes_for_name(&table, name))
            },
        }
    }

    fn captures_len(&self, haystack: Option<&[u8]>) -> (r: Result<usize, Exception>) {
        match self.regexp() {
            Err(e) => Err(e),
            Ok(handle) => capture::captures_len(&handle.chosen().compiled().matcher(), haystack),
        }
    }

    fn capture0<'a>(&self, haystack: &'a [u8]) -> (r: Result<Option<&'a [u8]>, Exception>) {
        match self.regexp() {
            Err(e) => Err(e),
            Ok(handle) => capture::capture0(&handle.chosen().compiled().matcher(), haystack),
        }
    }

    fn case_match(&self, globals: &mut Globals, haystack: &[u8]) -> (r: Result<bool, Exception>) {
        match self.regexp() {
            Err(e) => Err(e),
            Ok(handle) => {
                let compiled = handle.chosen().compiled();
                let regexp = compiled.box_clone();
                match_found(match_at(&compiled.matcher(), regexp, globals, haystack, None))
            },
        }
    }

    fn is_match(&self, haystack: &[u8], pos: Option<Int>) -> (r: Result<bool, Exception>) {
        match self.regexp() {
            Err(e) => Err(e),
            Ok(handle) => position::is_match(
                &handle.chosen().compiled().matcher(),
                haystack,
                pos,
            ),
        }
    }

    fn match_(&self, globals: &mut Globals, haystack: &[u8], pos: Option<Int>) -> (r: Result<
        Option<MatchData>,
        Exception,
    >) {
        match self.regexp() {
            Err(e) => Err(e),
            Ok(handle) => {
                let compiled = handle.chosen().compiled();
                let regexp = compiled.box_clone();
                match_at(&compiled.matcher(), regexp, globals, haystack, pos)
            },
        }
    }

    fn match_operator(&self, globals: &mut Globals, haystack: &[u8]) -> (r: Result<
        Option<Int>,
        Exception,
    >) {
        match self.regexp() {
            Err(e) => Err(e),
            Ok(handle) => {
                let compiled = handle.chosen().compiled();
                let regexp = compiled.box_clone();
                match_position(match_at(&compiled.matcher(), regexp, globals, haystack, None))
            },
        }
    }

    fn named_captures(&self) -> (r: Result<Vec<(Vec<u8>, Vec<Int>)>, Exception>) {
        match self.regexp() {
            Err(e) => Err(e),
            Ok(handle) => {
                let table = handle.chosen().compiled().matcher().name_table();
                names::named_captures(&table)
            },
        }
    }

    fn named_captures_for_haystack(&self, haystack: &[u8]) -> (r: Result<
        Option<Vec<(Vec<u8>, NilableString)>>,
        Exception,
    >) {
        match self.regexp() {
            Err(e) => Err(e),
            Ok(handle) => {
                let matcher = handle.chosen().compiled().matcher();
                match capture::captures(&matcher, haystack) {
                    Err(e) => Err(e),
                    Ok(None) => Ok(None),
                    Ok(Some(captures)) => {
                        let table = matcher.name_table();
                        Ok(Some(names::named_captures_for(&table, &captures)))
                    },
                }
            },
        }
    }

    fn names(&self) -> (r: Vec<Vec<u8>>) {
        match self.regexp() {
            Err(_) => {
                let none: Vec<Vec<u8>> = Vec::new();
                none
            },
            Ok(handle) => {
                let table = handle.chosen().compiled().matcher().name_table();
                names::names(&table)
            },
        }
    }

    fn pos(&self, haystack: &[u8], at: usize) -> (r: Result<Option<(usize, usize)>, Exception>) {
        match self.regexp() {
            Err(e) => Err(e),
            Ok(handle) => capture::pos(&handle.chosen().compiled().matcher(), haystack, at),
        }
    }

    fn scan(&self, globals: &mut Globals, haystack: &Value, block: Option<&Block>) -> (r: Result<
        Scan,
        Exception,
    >) {
        match self.regexp() {
            Err(e) => Err(e),
            Ok(handle) => {
                let compiled = handle.chosen().compiled();
                let regexp = compiled.box_clone();
                scan::scan(&compiled.matcher(), &regexp, globals, haystack, block)
            },
        }
    }
}

} // verus!
