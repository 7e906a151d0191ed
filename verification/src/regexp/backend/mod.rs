//! The engines that match patterns, and what is common to them.
//!
//! An engine answers three questions about a compiled pattern: what a search
//! of a haystack finds, how many groups the pattern has, and which names its
//! groups bear. Everything else a `Regexp` does is worked out here from
//! those answers.

pub mod capture;
pub mod lazy;
pub mod names;
pub mod onig;
pub mod position;
pub mod regex_utf8;

use vstd::prelude::*;
use vstd::string::StringSliceAdditionalSpecFns;
use vstd::utf8::{decode_utf8, encode_utf8, valid_utf8};

use crate::bytes::copy;
use crate::exception::{Exception, Kind};
use crate::regexp::opts::Options;

verus! {

/// A string that may be `nil`.
pub type NilableString = Option<Vec<u8>>;

/// The two engines.
#[derive(Debug, Clone, Copy, PartialEq, Eq, Structural)]
pub enum EngineKind {
    /// Oniguruma with Ruby syntax, which accepts every pattern that Ruby
    /// does.
    Onig,
    /// The `regex` crate, which is faster and accepts fewer patterns.
    Utf8,
}

/// What decides how a compiled pattern matches: the engine, the pattern and
/// the options it was compiled with.
pub struct Key {
    pub kind: EngineKind,
    pub pattern: Seq<char>,
    pub options: Options,
}

/// What a search finds: an error where the engine gives up, `None` where
/// nothing matches, else the byte span of each group of the match, `None` for
/// a group that took no part in it. Group 0 is the whole match.
pub type Found = Result<Option<Seq<Option<(usize, usize)>>>, Seq<char>>;

/// The message with which the engine rejects the pattern, or `None` where it
/// compiles it.
pub open spec fn compile_error_model(key: Key) -> Option<Seq<char>> {
    match key.kind {
        EngineKind::Onig => onig::onig_compile_error(key.pattern, key.options.flags_spec()),
        EngineKind::Utf8 => regex_utf8::utf8_compile_error(
            key.pattern,
            key.options.ignore_case,
            key.options.multiline,
            key.options.extended,
        ),
    }
}

/// What the engine finds for the pattern in `haystack` from the byte offset
/// `from` on.
pub open spec fn search_model(key: Key, haystack: Seq<char>, from: usize) -> Found {
    match key.kind {
        EngineKind::Onig => onig::onig_search(
            key.pattern,
            key.options.flags_spec(),
            haystack,
            from,
        ),
        EngineKind::Utf8 => Ok(
            regex_utf8::utf8_search(
                key.pattern,
                key.options.ignore_case,
                key.options.multiline,
                key.options.extended,
                haystack,
                from,
            ),
        ),
    }
}

/// The number of capture groups of the pattern, the whole match not counted.
pub open spec fn groups_model(key: Key) -> usize {
    match key.kind {
        EngineKind::Onig => onig::onig_groups(key.pattern, key.options.flags_spec()),
        EngineKind::Utf8 => {
            let all = regex_utf8::utf8_groups(
                key.pattern,
                key.options.ignore_case,
                key.options.multiline,
                key.options.extended,
            );
            if all > 0 {
                (all - 1) as usize
            } else {
                0
            }
        },
    }
}

/// The name table of the general engine, with names as bytes and group
/// numbers as sizes.
pub open spec fn onig_table(entries: Seq<(Seq<char>, Seq<u32>)>) -> Seq<(Seq<u8>, Seq<usize>)> {
    entries.map_values(
        |entry: (Seq<char>, Seq<u32>)|
            (encode_utf8(entry.0), entry.1.map_values(|group: u32| group as usize)),
    )
}

/// The name table of the fast engine: for each group that bears a name, in
/// turn, the name and the number of the group.
pub open spec fn utf8_table(names: Seq<Option<Seq<char>>>) -> Seq<(Seq<u8>, Seq<usize>)>
    decreases names.len(),
{
    if names.len() == 0 {
        Seq::empty()
    } else {
        let before = utf8_table(names.drop_last());
        match names.last() {
            Some(name) => before.push((encode_utf8(name), seq![(names.len() - 1) as usize])),
            None => before,
        }
    }
}

/// Each group name of the pattern with the numbers of the groups that bear
/// it, in the engine's order.
pub open spec fn names_model(key: Key) -> Seq<(Seq<u8>, Seq<usize>)> {
    match key.kind {
        EngineKind::Onig => onig_table(onig::onig_names(key.pattern, key.options.flags_spec())),
        EngineKind::Utf8 => utf8_table(
            regex_utf8::utf8_names(
                key.pattern,
                key.options.ignore_case,
                key.options.multiline,
                key.options.extended,
            ),
        ),
    }
}

/// A name table with each name and each list of group numbers seen as a
/// sequence.
pub open spec fn table_view(table: Seq<(Vec<u8>, Vec<usize>)>) -> Seq<(Seq<u8>, Seq<usize>)> {
    table.map_values(|entry: (Vec<u8>, Vec<usize>)| (entry.0@, entry.1@))
}

/// The result of a search, with an exception seen by its class and message.
pub open spec fn found_view(
    result: Result<Option<Vec<Option<(usize, usize)>>>, Exception>,
) -> Result<Option<Seq<Option<(usize, usize)>>>, (Kind, Seq<u8>)> {
    match result {
        Ok(Some(slots)) => Ok(Some(slots@)),
        Ok(None) => Ok(None),
        Err(e) => Err(e@),
    }
}

/// The message of the error raised for a haystack that is not UTF-8.
pub open spec fn haystack_message(kind: EngineKind) -> Seq<u8> {
    match kind {
        EngineKind::Onig => "Oniguruma backend for Regexp only supports UTF-8 haystacks".spec_bytes(),
        EngineKind::Utf8 => "regex crate utf8 backend for Regexp only supports UTF-8 haystacks".spec_bytes(),
    }
}

/// The message of the error raised for a pattern that is not UTF-8.
pub open spec fn pattern_message(kind: EngineKind) -> Seq<u8> {
    match kind {
        EngineKind::Onig => "Oniguruma backend for Regexp only supports UTF-8 patterns".spec_bytes(),
        EngineKind::Utf8 => "regex crate utf8 backend for Regexp only supports UTF-8 patterns".spec_bytes(),
    }
}

/// What a search of the bytes `haystack` gives: an `ArgumentError` where they
/// are not UTF-8, a `RegexpError` with the engine's message where the engine
/// gives up, else what the engine finds.
pub open spec fn search_spec(key: Key, haystack: Seq<u8>, from: usize) -> Result<
    Option<Seq<Option<(usize, usize)>>>,
    (Kind, Seq<u8>),
> {
    if !valid_utf8(haystack) {
        Err((Kind::ArgumentError, haystack_message(key.kind)))
    } else {
        match search_model(key, decode_utf8(haystack), from) {
            Ok(found) => Ok(found),
            Err(message) => Err((Kind::RegexpError, encode_utf8(message))),
        }
    }
}

/// `core::str::from_utf8`: the bytes as a string slice where they are valid
/// UTF-8, which then has the same bytes; nothing where they are not.
#[verifier::external_body]
pub(crate) fn from_utf8(bytes: &[u8]) -> (r: Option<&str>)
    ensures
        match r {
            Some(s) => valid_utf8(bytes@) && s.spec_bytes() == bytes@,
            None => !valid_utf8(bytes@),
        },
{
    core::str::from_utf8(bytes).ok()
}

/// The text of valid UTF-8 bytes is the text of the string slice that has
/// those bytes.
pub proof fn lemma_text_of_bytes(s: &str, bytes: Seq<u8>)
    requires
        s.spec_bytes() == bytes,
    ensures
        s@ == decode_utf8(bytes),
{
    vstd::utf8::encode_utf8_decode_utf8(s@);
}

/// A compiled pattern of one of the two engines.
pub enum Matcher<'a> {
    /// A pattern compiled by the general engine.
    Onig(&'a ::onig::Regex),
    /// A pattern compiled by the fast engine.
    Utf8(&'a ::regex::Regex),
}

impl<'a> Matcher<'a> {
    /// The engine, and the pattern and options that the engine compiled.
    pub open spec fn key(self) -> Key {
        match self {
            Matcher::Onig(regex) => Key {
                kind: EngineKind::Onig,
                pattern: onig::onig_source(*regex).0,
                options: Options {
                    ignore_case: onig::onig_source(*regex).1 % 2 == 1,
                    extended: (onig::onig_source(*regex).1 / 2) % 2 == 1,
                    multiline: (onig::onig_source(*regex).1 / 4) % 2 == 1,
                    literal: false,
                },
            },
            Matcher::Utf8(regex) => Key {
                kind: EngineKind::Utf8,
                pattern: regex_utf8::utf8_source(*regex).0,
                options: Options {
                    ignore_case: regex_utf8::utf8_source(*regex).1,
                    multiline: regex_utf8::utf8_source(*regex).2,
                    extended: regex_utf8::utf8_source(*regex).3,
                    literal: false,
                },
            },
        }
    }

    /// Whether the option bits are among those that the general engine is
    /// given here.
    pub open spec fn wf(self) -> bool {
        match self {
            Matcher::Onig(regex) => onig::onig_source(*regex).1 < 8,
            Matcher::Utf8(_) => true,
        }
    }

    /// The engine of the pattern.
    pub fn kind(&self) -> (r: EngineKind)
        ensures
            r == self.key().kind,
    {
        match self {
            Matcher::Onig(_) => EngineKind::Onig,
            Matcher::Utf8(_) => EngineKind::Utf8,
        }
    }

    /// Searches `haystack` from the byte offset `from` on for the leftmost
    /// match, and gives the byte span of each group of it.
    pub fn search(&self, haystack: &[u8], from: usize) -> (r: Result<
        Option<Vec<Option<(usize, usize)>>>,
        Exception,
    >)
        requires
            self.wf(),
            from <= haystack@.len(),
        ensures
            found_view(r) == search_spec(self.key(), haystack@, from),
    {
        let text: &str = match from_utf8(haystack) {
            Some(text) => text,
            None => {
                return Err(haystack_error(self.kind()));
            },
        };
        proof {
            lemma_text_of_bytes(text, haystack@);
            lemma_flags_of_bits(self.key().options);
        }
        match self {
            Matcher::Onig(regex) => {
                match onig::search_with_param(regex, text, from) {
                    Ok(found) => Ok(found),
                    Err(message) => Err(
                        Exception::new(Kind::RegexpError, message.as_str()),
                    ),
                }
            },
            Matcher::Utf8(regex) => Ok(regex_utf8::captures_at(regex, text, from)),
        }
    }

    /// The number of capture groups of the pattern, the whole match not
    /// counted.
    pub fn groups(&self) -> (r: usize)
        requires
            self.wf(),
        ensures
            r == groups_model(self.key()),
    {
        proof {
            lemma_flags_of_bits(self.key().options);
        }
        match self {
            Matcher::Onig(regex) => {
                onig::captures_len(regex)
            },
            Matcher::Utf8(regex) => {
                let all: usize = regex_utf8::captures_len(regex);
                if all > 0 {
                    all - 1
                } else {
                    0
                }
            },
        }
    }

    /// Each group name of the pattern with the numbers of the groups that
    /// bear it, in the engine's order.
    pub fn name_table(&self) -> (r: Vec<(Vec<u8>, Vec<usize>)>)
        requires
            self.wf(),
        ensures
            table_view(r@) == names_model(self.key()),
    {
        proof {
            lemma_flags_of_bits(self.key().options);
        }
        match self {
            Matcher::Onig(regex) => {
                let entries = onig::foreach_name(regex);
                onig_name_table(&entries)
            },
            Matcher::Utf8(regex) => {
                let names = regex_utf8::capture_names(regex);
                utf8_name_table(&names)
            },
        }
    }
}

/// The option bits of options that were read off option bits are those bits.
pub proof fn lemma_flags_of_bits(options: Options)
    ensures
        options.flags_spec() < 8,
        options.flags_spec() % 2 == 1 <==> options.ignore_case,
        (options.flags_spec() / 2) % 2 == 1 <==> options.extended,
        (options.flags_spec() / 4) % 2 == 1 <==> options.multiline,
{
}

/// The error raised for a haystack that is not UTF-8.
pub fn haystack_error(kind: EngineKind) -> (r: Exception)
    ensures
        r@ == (Kind::ArgumentError, haystack_message(kind)),
{
    match kind {
        EngineKind::Onig => Exception::new(
            Kind::ArgumentError,
            "Oniguruma backend for Regexp only supports UTF-8 haystacks",
        ),
        EngineKind::Utf8 => Exception::new(
            Kind::ArgumentError,
            "regex crate utf8 backend for Regexp only supports UTF-8 haystacks",
        ),
    }
}

/// The error raised for a pattern that is not UTF-8.
pub fn pattern_error(kind: EngineKind) -> (r: Exception)
    ensures
        r@ == (Kind::ArgumentError, pattern_message(kind)),
{
    match kind {
        EngineKind::Onig => Exception::new(
            Kind::ArgumentError,
            "Oniguruma backend for Regexp only supports UTF-8 patterns",
        ),
        EngineKind::Utf8 => Exception::new(
            Kind::ArgumentError,
            "regex crate utf8 backend for Regexp only supports UTF-8 patterns",
        ),
    }
}

/// The name table of the general engine, with names as bytes and group
/// numbers as sizes.
fn onig_name_table(entries: &Vec<(String, Vec<u32>)>) -> (r: Vec<(Vec<u8>, Vec<usize>)>)
    ensures
        table_view(r@) == onig_table(onig::names_view(entries@)),
{
    let mut table: Vec<(Vec<u8>, Vec<usize>)> = Vec::new();
    let mut i: usize = 0;
    while i < entries.len()
        invariant
            i <= entries@.len(),
            table@.len() == i,
            forall|k: int|
                0 <= k < i ==> (#[trigger] table@[k]).0@ == encode_utf8(entries@[k].0@)
                    && table@[k].1@ == entries@[k].1@.map_values(|group: u32| group as usize),
        decreases entries@.len() - i,
    {
        let name: Vec<u8> = copy(entries[i].0.as_str().as_bytes());
        let numbers: &Vec<u32> = &entries[i].1;
        let mut groups: Vec<usize> = Vec::new();
        let mut j: usize = 0;
        while j < numbers.len()
            invariant
                j <= numbers@.len(),
                groups@.len() == j,
                forall|k: int| 0 <= k < j ==> groups@[k] == numbers@[k] as usize,
            decreases numbers@.len() - j,
        {
            groups.push(numbers[j] as usize);
            j += 1;
        }
        table.push((name, groups));
        i += 1;
    }
    table
}

/// The name table of the fast engine: for each group that bears a name, in
/// turn, the name and the number of the group.
fn utf8_name_table(names: &Vec<Option<String>>) -> (r: Vec<(Vec<u8>, Vec<usize>)>)
    ensures
        table_view(r@) == utf8_table(regex_utf8::group_names_view(names@)),
{
    let ghost all = regex_utf8::group_names_view(names@);
    let mut table: Vec<(Vec<u8>, Vec<usize>)> = Vec::new();
    let mut i: usize = 0;
    while i < names.len()
        invariant
            i <= names@.len(),
            all == regex_utf8::group_names_view(names@),
            table_view(table@) == utf8_table(all.take(i as int)),
        decreases names@.len() - i,
    {
        proof {
            assert(all.take(i + 1).drop_last() =~= all.take(i as int));
        }
        match &names[i] {
            Some(name) => {
                let mut groups: Vec<usize> = Vec::new();
                groups.push(i);
                let entry: Vec<u8> = copy(name.as_str().as_bytes());
                table.push((entry, groups));
            },
            None => {},
        }
        i += 1;
    }
    assert(all.take(names@.len() as int) =~= all);
    table
}

/// The engine, pattern and options by which a compiled pattern matches,
/// where `kind` compiled the pattern and options `derived`.
pub open spec fn key_of(kind: EngineKind, derived: (Seq<u8>, Options)) -> Key {
    Key {
        kind,
        pattern: decode_utf8(derived.0),
        options: Options {
            multiline: derived.1.multiline,
            ignore_case: derived.1.ignore_case,
            extended: derived.1.extended,
            literal: false,
        },
    }
}

/// The error with which `kind` rejects the pattern and options `derived`, or
/// `None` where it compiles them: an `ArgumentError` for a pattern that is
/// not UTF-8, else the engine's message as a `SyntaxError` where the pattern
/// was written as a literal and as a `RegexpError` where it was not.
pub open spec fn compile_spec(
    kind: EngineKind,
    literal: (Seq<u8>, Options),
    derived: (Seq<u8>, Options),
) -> Option<(Kind, Seq<u8>)> {
    if !valid_utf8(derived.0) {
        Some((Kind::ArgumentError, pattern_message(kind)))
    } else {
        match compile_error_model(key_of(kind, derived)) {
            Some(message) => Some(
                (
                    if literal.1.literal {
                        Kind::SyntaxError
                    } else {
                        Kind::RegexpError
                    },
                    encode_utf8(message),
                ),
            ),
            None => None,
        }
    }
}

/// The error raised for a pattern that an engine rejects with `message`.
pub fn rejected(literal: bool, message: &str) -> (r: Exception)
    ensures
        r@ == (
            if literal {
                Kind::SyntaxError
            } else {
                Kind::RegexpError
            },
            message.spec_bytes(),
        ),
{
    if literal {
        Exception::new(Kind::SyntaxError, message)
    } else {
        Exception::new(Kind::RegexpError, message)
    }
}

} // verus!
