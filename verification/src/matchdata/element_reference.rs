//! `MatchData#[]`.

use vstd::prelude::*;
use vstd::string::StringSliceAdditionalSpecFns;

use crate::array::args::{
    range_beg_len, range_check_spec, range_length_message, resolve_index, resolve_index_spec,
    RangeCheck,
};
use crate::bytes::{append, copy};
use crate::exception::{Exception, Kind};
use crate::matchdata::{MatchData, MatchModel};
use crate::regexp::{value_view, RegexpType};
use crate::regexp::backend::NilableString;
use crate::regexp::backend::capture::{dup, nilable_view, nilables_view};
use crate::regexp::backend::names::{last_capture, last_captured};
use crate::types::Int;
use crate::value::{no_implicit_conversion, no_implicit_conversion_error, Value};

verus! {

/// What the arguments of `[]` select in a match.
#[derive(Debug)]
pub enum Args {
    /// The group with a number, which counts from the end if negative.
    Index(Int),
    /// The last group with a name that took part in the match.
    Name(Vec<u8>),
    /// As many groups as the length says, from a start that counts from the
    /// end if negative.
    StartLen(Int, usize),
}

/// What the arguments of `[]` select, seen as plain data.
pub enum ArgsModel {
    /// The group with a number.
    Index(Int),
    /// The last group with a name that took part in the match.
    Name(Seq<u8>),
    /// As many groups as the length says, from a start.
    StartLen(Int, usize),
}

impl View for Args {
    type V = ArgsModel;

    open spec fn view(&self) -> ArgsModel {
        match self {
            Args::Index(index) => ArgsModel::Index(*index),
            Args::Name(name) => ArgsModel::Name(name@),
            Args::StartLen(start, len) => ArgsModel::StartLen(*start, *len),
        }
    }
}

/// What `[]` returns.
#[derive(Debug)]
pub enum Element {
    /// `nil`.
    Nil,
    /// The capture of one group.
    String(Vec<u8>),
    /// The captures of several groups, `nil` for a group that took no part
    /// in the match.
    Array(Vec<NilableString>),
}

/// What `[]` returns, seen as plain data.
pub enum ElementModel {
    /// `nil`.
    Nil,
    /// The capture of one group.
    String(Seq<u8>),
    /// The captures of several groups.
    Array(Seq<Option<Seq<u8>>>),
}

impl View for Element {
    type V = ElementModel;

    open spec fn view(&self) -> ElementModel {
        match self {
            Element::Nil => ElementModel::Nil,
            Element::String(bytes) => ElementModel::String(bytes@),
            Element::Array(captures) => ElementModel::Array(nilables_view(captures@)),
        }
    }
}

/// What `[]` returns, or an exception seen by its class and message.
pub open spec fn element_view(result: Result<Element, Exception>) -> Result<
    ElementModel,
    (Kind, Seq<u8>),
> {
    match result {
        Ok(element) => Ok(element@),
        Err(e) => Err(e@),
    }
}

/// What the arguments select, or nothing, or an exception seen by its class
/// and message.
pub open spec fn args_view(result: Result<Option<Args>, Exception>) -> Result<
    Option<ArgsModel>,
    (Kind, Seq<u8>),
> {
    match result {
        Ok(Some(args)) => Ok(Some(args@)),
        Ok(None) => Ok(None),
        Err(e) => Err(e@),
    }
}

/// A capture as what `[]` returns for it: the string, or `nil`.
pub open spec fn element_of(capture: Option<Seq<u8>>) -> ElementModel {
    match capture {
        Some(bytes) => ElementModel::String(bytes),
        None => ElementModel::Nil,
    }
}

/// What the arguments of `[]` select in a match of `len` groups, or nothing
/// where they select nothing.
///
/// With a length, both arguments are converted to integers, and a negative
/// length selects nothing. With one argument, an integer is the number of a
/// group, a string is the name of a group, and a range selects the groups
/// whose numbers lie in it. Every other value is a `TypeError`.
pub open spec fn resolve_spec(elem: Value, len: Option<Value>, groups: usize) -> Result<
    Option<ArgsModel>,
    (Kind, Seq<u8>),
> {
    match len {
        Some(len) => match elem.implicit_int_spec() {
            Err(e) => Err(e),
            Ok(start) => match len.implicit_int_spec() {
                Err(e) => Err(e),
                Ok(n) => if 0 <= n <= usize::MAX {
                    Ok(Some(ArgsModel::StartLen(start, n as usize)))
                } else {
                    Ok(None)
                },
            },
        },
        None => match elem.implicit_int_spec() {
            Ok(index) => Ok(Some(ArgsModel::Index(index))),
            Err(_) => match elem.implicit_bytes_spec() {
                Ok(name) => Ok(Some(ArgsModel::Name(name))),
                Err(_) => if groups > Int::MAX {
                    Err((Kind::Fatal, range_length_message()))
                } else {
                    match range_check_spec(elem, groups as Int, true) {
                        RangeCheck::Span { start, len: n } => Ok(
                            Some(ArgsModel::StartLen(start, n as usize)),
                        ),
                        RangeCheck::OutOfRange => Ok(None),
                        RangeCheck::TypeMismatch => Err(
                            (
                                Kind::TypeError,
                                no_implicit_conversion(elem.pretty_name_spec(), "Integer"@),
                            ),
                        ),
                    }
                },
            },
        },
    }
}

/// Resolves the arguments of `[]` against a match of `groups` groups.
pub fn resolve(elem: &Value, len: Option<&Value>, groups: usize) -> (r: Result<
    Option<Args>,
    Exception,
>)
    ensures
        args_view(r) == resolve_spec(*elem, value_view(len), groups),
{
    match len {
        Some(len) => {
            let start: Int = match elem.implicitly_convert_to_int() {
                Ok(start) => start,
                Err(e) => {
                    return Err(e);
                },
            };
            let n: Int = match len.implicitly_convert_to_int() {
                Ok(n) => n,
                Err(e) => {
                    return Err(e);
                },
            };
            match usize::try_from(n) {
                Ok(n) => Ok(Some(Args::StartLen(start, n))),
                Err(_) => Ok(None),
            }
        },
        None => {
            match elem.implicitly_convert_to_int() {
                Ok(index) => {
                    return Ok(Some(Args::Index(index)));
                },
                Err(_) => {},
            }
            match elem.implicitly_convert_to_string() {
                Ok(name) => {
                    return Ok(Some(Args::Name(copy(name))));
                },
                Err(_) => {},
            }
            let rangelen: Int = match Int::try_from(groups) {
                Ok(rangelen) => rangelen,
                Err(_) => {
                    return Err(Exception::new(Kind::Fatal, "Range length exceeds Integer max"));
                },
            };
            match range_beg_len(elem, rangelen, true) {
                RangeCheck::Span { start, len: n } => Ok(Some(Args::StartLen(start, n as usize))),
                RangeCheck::OutOfRange => Ok(None),
                RangeCheck::TypeMismatch => Err(
                    no_implicit_conversion_error(elem.pretty_name(), "Integer"),
                ),
            }
        },
    }
}

/// What `[]` returns for the number of a group: the capture of the group,
/// where a negative number counts from the end; `nil` for a number that is
/// that of no group.
pub open spec fn at_index(captures: Seq<Option<Seq<u8>>>, index: Int) -> ElementModel {
    match resolve_index_spec(index, captures.len() as usize) {
        Some(place) => element_of(captures[place as int]),
        None => ElementModel::Nil,
    }
}

/// What `[]` returns for a start and a length: the captures of at most `len`
/// groups from the group `start` on, where a negative start counts from the
/// end; `nil` for a negative start that reaches back before the first
/// group.
pub open spec fn at_start_len(captures: Seq<Option<Seq<u8>>>, start: Int, len: usize) -> ElementModel {
    if start < 0 && captures.len() + start < 0 {
        ElementModel::Nil
    } else {
        let from: int = if start < 0 {
            captures.len() + start
        } else {
            start as int
        };
        if from >= captures.len() {
            ElementModel::Array(Seq::empty())
        } else if from + len >= captures.len() {
            ElementModel::Array(captures.subrange(from, captures.len() as int))
        } else {
            ElementModel::Array(captures.subrange(from, from + len))
        }
    }
}

/// The message of the error raised for a name that no group bears.
pub open spec fn undefined_group_message(name: Seq<u8>) -> Seq<u8> {
    "undefined group name reference: \"".spec_bytes() + name + "\"".spec_bytes()
}

/// What `[]` returns for what the arguments select.
pub open spec fn select_spec(
    captures: Seq<Option<Seq<u8>>>,
    indexes: Option<Seq<usize>>,
    args: ArgsModel,
) -> Result<ElementModel, (Kind, Seq<u8>)> {
    match args {
        ArgsModel::Index(index) => Ok(at_index(captures, index)),
        ArgsModel::Name(name) => match indexes {
            Some(indexes) => Ok(element_of(last_capture(captures, indexes))),
            None => Err((Kind::IndexError, undefined_group_message(name))),
        },
        ArgsModel::StartLen(start, len) => Ok(at_start_len(captures, start, len)),
    }
}

/// What `[]` gives: `nil` where the pattern does not match the region, else
/// what the arguments select among the captures.
pub open spec fn element_reference_spec(data: MatchModel, elem: Value, len: Option<Value>) -> Result<
    ElementModel,
    (Kind, Seq<u8>),
> {
    match data.regexp.captures(data.matched()) {
        Err(e) => Err(e),
        Ok(None) => Ok(ElementModel::Nil),
        Ok(Some(captures)) => match resolve_spec(elem, len, captures.len() as usize) {
            Err(e) => Err(e),
            Ok(None) => Ok(ElementModel::Nil),
            Ok(Some(ArgsModel::Name(name))) => match data.regexp.capture_indexes_for_name(name) {
                Err(e) => Err(e),
                Ok(indexes) => select_spec(captures, indexes, ArgsModel::Name(name)),
            },
            Ok(Some(args)) => select_spec(captures, None, args),
        },
    }
}

/// The capture of one group as what `[]` returns for it.
fn element(capture: &NilableString) -> (r: Element)
    ensures
        r@ == element_of(nilable_view(*capture)),
{
    match capture {
        Some(bytes) => Element::String(copy(bytes.as_slice())),
        None => Element::Nil,
    }
}

/// The captures of at most `len` groups from the group `start` on.
fn slice(captures: &Vec<NilableString>, start: Int, len: usize) -> (r: Element)
    ensures
        r@ == at_start_len(nilables_view(captures@), start, len),
{
    let from: usize = if start < 0 {
        match resolve_index(start, captures.len()) {
            Some(from) => from,
            None => {
                return Element::Nil;
            },
        }
    } else {
        match usize::try_from(start) {
            Ok(from) => from,
            Err(_) => captures.len(),
        }
    };
    let mut out: Vec<NilableString> = Vec::new();
    if from >= captures.len() {
        assert(nilables_view(out@) =~= Seq::empty());
        return Element::Array(out);
    }
    let until: usize = if len >= captures.len() - from {
        captures.len()
    } else {
        from + len
    };
    let mut i: usize = from;
    while i < until
        invariant
            from <= i <= until <= captures@.len(),
            out@.len() == i - from,
            forall|k: int|
                0 <= k < out@.len() ==> nilable_view(#[trigger] out@[k]) == nilable_view(
                    captures@[from + k],
                ),
        decreases until - i,
    {
        out.push(dup(&captures[i]));
        i += 1;
    }
    assert(nilables_view(out@) =~= nilables_view(captures@).subrange(from as int, until as int));
    Element::Array(out)
}

/// The error raised for a name that no group bears.
pub fn undefined_group_error(name: &[u8]) -> (r: Exception)
    ensures
        r@ == (Kind::IndexError, undefined_group_message(name@)),
{
    let mut message: Vec<u8> = copy("undefined group name reference: \"".as_bytes());
    append(&mut message, name);
    append(&mut message, "\"".as_bytes());
    Exception::new_raw(Kind::IndexError, message)
}

/// `MatchData#[]`: the capture of a group by its number or its name, or the
/// captures of the groups from a start on or in a range.
///
/// The pattern is matched against the region again. A negative number
/// counts from the end. Of several groups with one name, the last that took
/// part in the match is taken. A name that no group bears is an
/// `IndexError`.
pub fn method(data: &MatchData, elem: &Value, len: Option<&Value>) -> (r: Result<
    Element,
    Exception,
>)
    ensures
        element_view(r) == element_reference_spec(data.model(), *elem, value_view(len)),
{
    let haystack: &[u8] = data.matched();
    let captures: Vec<NilableString> = match data.regexp().inner().captures(haystack) {
        Err(e) => {
            return Err(e);
        },
        Ok(None) => {
            return Ok(Element::Nil);
        },
        Ok(Some(captures)) => captures,
    };
    let args: Args = match resolve(elem, len, captures.len()) {
        Err(e) => {
            return Err(e);
        },
        Ok(None) => {
            return Ok(Element::Nil);
        },
        Ok(Some(args)) => args,
    };
    match args {
        Args::Index(index) => match resolve_index(index, captures.len()) {
            Some(place) => Ok(element(&captures[place])),
            None => Ok(Element::Nil),
        },
        Args::Name(name) => {
            match data.regexp().inner().capture_indexes_for_name(name.as_slice()) {
                Err(e) => Err(e),
                Ok(Some(indexes)) => match last_captured(&captures, &indexes) {
                    Some(bytes) => Ok(Element::String(copy(bytes))),
                    None => Ok(Element::Nil),
                },
                Ok(None) => Err(undefined_group_error(name.as_slice())),
            }
        },
        Args::StartLen(start, len) => Ok(slice(&captures, start, len)),
    }
}

} // verus!
