//! What a `Regexp` is, seen as plain data: the patterns and options it was
//! made from, its encoding, and the kind of backend that holds it.

use vstd::prelude::*;

use crate::exception::Kind;
use crate::matchdata::MatchModel;
use crate::regexp::backend::{compile_spec, key_of, names_model, EngineKind, Key};
use crate::regexp::backend::capture::{capture0_spec, captures_len_spec, captures_spec, pos_spec};
use crate::regexp::backend::names::{
    as_ints, group_index_message, indexes_fit, indexes_for_name_spec, named_captures_of,
    names_spec,
};
use crate::regexp::backend::position::is_match_spec;
use crate::regexp::enc::Encoding;
use crate::regexp::globals::GlobalsModel;
use crate::regexp::inspect::inspect_of;
use crate::regexp::matching::{case_match_spec, match_operator_spec, match_spec};
use crate::regexp::opts::Options;
use crate::regexp::scan::{scan_spec, ScanModel};
use crate::types::Int;
use crate::value::Value;

verus! {

/// The kinds of backend.
#[derive(Debug, Clone, Copy, PartialEq, Eq, Structural)]
pub enum Backing {
    /// A pattern compiled by the general engine.
    Onig,
    /// A pattern compiled by the fast engine.
    Utf8,
    /// A pattern that is compiled when it is first used.
    Lazy,
}

/// What a `Regexp` is, seen as plain data.
pub struct Model {
    /// The pattern and options as the caller gave them.
    pub literal: (Seq<u8>, Options),
    /// The pattern and options that are compiled.
    pub derived: (Seq<u8>, Options),
    /// The encoding of the pattern.
    pub encoding: Encoding,
    /// The kind of backend.
    pub backing: Backing,
}

/// The engine that compiles the pattern and options `derived`: the fast
/// engine where it accepts them, else the general engine; where neither does,
/// the error of the general engine.
pub open spec fn selected(literal: (Seq<u8>, Options), derived: (Seq<u8>, Options)) -> Result<
    EngineKind,
    (Kind, Seq<u8>),
> {
    if compile_spec(EngineKind::Utf8, literal, derived) is None {
        Ok(EngineKind::Utf8)
    } else {
        match compile_spec(EngineKind::Onig, literal, derived) {
            None => Ok(EngineKind::Onig),
            Some(e) => Err(e),
        }
    }
}

impl Model {
    /// The error that every use of the `Regexp` raises: none for a compiled
    /// pattern, and for one that is compiled on first use the error with
    /// which both engines reject it, if they do.
    pub open spec fn error(self) -> Option<(Kind, Seq<u8>)> {
        match self.backing {
            Backing::Lazy => match selected(self.literal, self.derived) {
                Err(e) => Some(e),
                Ok(_) => None,
            },
            _ => None,
        }
    }

    /// The engine that matches the pattern.
    pub open spec fn kind(self) -> EngineKind {
        match self.backing {
            Backing::Onig => EngineKind::Onig,
            Backing::Utf8 => EngineKind::Utf8,
            Backing::Lazy => match selected(self.literal, self.derived) {
                Ok(kind) => kind,
                Err(_) => EngineKind::Onig,
            },
        }
    }

    /// The `Regexp` once it is compiled: itself, but for a pattern that is
    /// compiled on first use, which is then held by the engine chosen for
    /// it.
    pub open spec fn settled(self) -> Model {
        Model {
            literal: self.literal,
            derived: self.derived,
            encoding: self.encoding,
            backing: match self.kind() {
                EngineKind::Onig => Backing::Onig,
                EngineKind::Utf8 => Backing::Utf8,
            },
        }
    }

    /// The engine, pattern and options by which the `Regexp` matches.
    pub open spec fn key(self) -> Key {
        key_of(self.kind(), self.derived)
    }
}

impl Model {
    /// What a capability gives: the error of the `Regexp` where it has one,
    /// else `value`.
    pub open spec fn guarded<T>(self, value: Result<T, (Kind, Seq<u8>)>) -> Result<
        T,
        (Kind, Seq<u8>),
    > {
        match self.error() {
            Some(e) => Err(e),
            None => value,
        }
    }

    /// What `inspect` gives: how the pattern is shown, or nothing for a
    /// pattern that cannot be compiled.
    pub open spec fn inspect(self) -> Seq<u8> {
        if self.error() is Some {
            Seq::<u8>::empty()
        } else {
            inspect_of(self.literal, self.encoding)
        }
    }

    /// What `string` gives: the pattern that is compiled, or nothing for a
    /// pattern that cannot be compiled.
    pub open spec fn string(self) -> Seq<u8> {
        if self.error() is Some {
            Seq::<u8>::empty()
        } else {
            self.derived.0
        }
    }

    /// What `captures` gives.
    pub open spec fn captures(self, haystack: Seq<u8>) -> Result<
        Option<Seq<Option<Seq<u8>>>>,
        (Kind, Seq<u8>),
    > {
        self.guarded(captures_spec(self.key(), haystack))
    }

    /// What `capture_indexes_for_name` gives.
    pub open spec fn capture_indexes_for_name(self, name: Seq<u8>) -> Result<
        Option<Seq<usize>>,
        (Kind, Seq<u8>),
    > {
        self.guarded(Ok(indexes_for_name_spec(names_model(self.key()), name)))
    }

    /// What `captures_len` gives.
    pub open spec fn captures_len(self, haystack: Option<Seq<u8>>) -> Result<
        usize,
        (Kind, Seq<u8>),
    > {
        self.guarded(captures_len_spec(self.key(), haystack))
    }

    /// What `capture0` gives.
    pub open spec fn capture0(self, haystack: Seq<u8>) -> Result<Option<Seq<u8>>, (Kind, Seq<u8>)> {
        self.guarded(capture0_spec(self.key(), haystack))
    }

    /// What `is_match` gives.
    pub open spec fn is_match(self, haystack: Seq<u8>, pos: Option<Int>) -> Result<
        bool,
        (Kind, Seq<u8>),
    > {
        self.guarded(is_match_spec(self.key(), haystack, pos))
    }

    /// What `pos` gives.
    pub open spec fn pos(self, haystack: Seq<u8>, at: usize) -> Result<
        Option<(usize, usize)>,
        (Kind, Seq<u8>),
    > {
        self.guarded(pos_spec(self.key(), haystack, at))
    }

    /// What `named_captures` gives: each group name with the numbers of the
    /// groups that bear it, in the engine's order.
    pub open spec fn named_captures(self) -> Result<Seq<(Seq<u8>, Seq<Int>)>, (Kind, Seq<u8>)> {
        self.guarded(
            if indexes_fit(names_model(self.key())) {
                Ok(as_ints(names_model(self.key())))
            } else {
                Err((Kind::Fatal, group_index_message()))
            },
        )
    }

    /// What `named_captures_for_haystack` gives: nothing where the pattern
    /// does not match, else each group name with the capture of the last
    /// group of that name that took part in the match.
    pub open spec fn named_captures_for_haystack(self, haystack: Seq<u8>) -> Result<
        Option<Seq<(Seq<u8>, Option<Seq<u8>>)>>,
        (Kind, Seq<u8>),
    > {
        self.guarded(
            match captures_spec(self.key(), haystack) {
                Err(e) => Err(e),
                Ok(None) => Ok(None),
                Ok(Some(captures)) => Ok(
                    Some(named_captures_of(names_model(self.key()), captures)),
                ),
            },
        )
    }

    /// What `names` gives: the group names, each once, ordered by the least
    /// number of the groups that bear it; nothing for a pattern that cannot
    /// be compiled.
    pub open spec fn names(self) -> Seq<Seq<u8>> {
        if self.error() is Some {
            Seq::empty()
        } else {
            names_spec(names_model(self.key()))
        }
    }

    /// The outcome of `match`: the globals after it, and the match.
    pub open spec fn match_(self, globals: GlobalsModel, haystack: Seq<u8>, pos: Option<Int>) -> (
        GlobalsModel,
        Result<Option<MatchModel>, (Kind, Seq<u8>)>,
    ) {
        match_spec(self, globals, haystack, pos)
    }

    /// The outcome of `=~`: the globals after it, and the byte offset at
    /// which the match begins.
    pub open spec fn match_operator(self, globals: GlobalsModel, haystack: Seq<u8>) -> (
        GlobalsModel,
        Result<Option<Int>, (Kind, Seq<u8>)>,
    ) {
        (
            match_spec(self, globals, haystack, None).0,
            match_operator_spec(match_spec(self, globals, haystack, None).1),
        )
    }

    /// The outcome of `===`: the globals after it, and whether the pattern
    /// matches.
    pub open spec fn case_match(self, globals: GlobalsModel, haystack: Seq<u8>) -> (
        GlobalsModel,
        Result<bool, (Kind, Seq<u8>)>,
    ) {
        (
            match_spec(self, globals, haystack, None).0,
            case_match_spec(match_spec(self, globals, haystack, None).1),
        )
    }

    /// The outcome of `scan`: the globals after it, and what it returns.
    pub open spec fn scan(self, globals: GlobalsModel, haystack: Value, block: bool) -> (
        GlobalsModel,
        Result<ScanModel, (Kind, Seq<u8>)>,
    ) {
        scan_spec(self, globals, haystack, block)
    }
}

} // verus!
