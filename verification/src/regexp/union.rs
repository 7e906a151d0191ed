//! The pattern of `Regexp.union`: the patterns of its arguments with `|`
//! between them.

use vstd::prelude::*;
use vstd::string::StringSliceAdditionalSpecFns;
use vstd::utf8::valid_utf8;

use crate::bytes::copy;
use crate::exception::{Exception, Kind};
use crate::regexp::{
    new_spec, no_string_among_message, no_string_message, syntax, union_utf8_message,
};
use crate::regexp::backend::from_utf8;
use crate::regexp::backend::names::strings_view;
use crate::regexp::enc::Encoding;
use crate::regexp::model::Model;
use crate::regexp::opts::{parse_pattern_spec, Options};
use crate::value::{Inner, Value};

verus! {

/// The byte strings with the separator between them.
pub open spec fn joined(separator: Seq<u8>, elements: Seq<Seq<u8>>) -> Seq<u8>
    decreases elements.len(),
{
    if elements.len() == 0 {
        Seq::<u8>::empty()
    } else if elements.len() == 1 {
        elements[0]
    } else {
        joined(separator, elements.drop_last()) + separator + elements.last()
    }
}

/// `bstr::join`: the elements in turn with the separator between them.
#[verifier::external_body]
pub(crate) fn join(separator: &[u8], elements: &Vec<Vec<u8>>) -> (r: Vec<u8>)
    ensures
        r@ == joined(separator@, strings_view(elements@)),
{
    bstr::join(separator, elements)
}

/// The pattern that one argument of `union` stands for: the compiled
/// pattern of a `Regexp`, and for a string the pattern that matches the
/// string itself.
///
/// For the only argument, or an element of it, a value that is no string or
/// not UTF-8 is a `TypeError`. For one of several arguments, a value that is
/// no string is a `TypeError` and a string that is not UTF-8 is an
/// `ArgumentError`.
pub open spec fn union_part_spec(value: Value, single: bool) -> Result<Seq<u8>, (Kind, Seq<u8>)> {
    match value.inner_spec() {
        Inner::Regexp(source) => Ok(source.derived@.0),
        _ => match value.coerced_bytes_spec() {
            Some(bytes) => if valid_utf8(bytes) {
                Ok(syntax::escape_spec(bytes))
            } else if single {
                Err((Kind::TypeError, no_string_message()))
            } else {
                Err((Kind::ArgumentError, union_utf8_message()))
            },
            None => if single {
                Err((Kind::TypeError, no_string_message()))
            } else {
                Err((Kind::TypeError, no_string_among_message()))
            },
        },
    }
}

/// The patterns that the values stand for, or the error of the first value
/// that stands for none.
pub open spec fn union_parts_spec(values: Seq<Value>, single: bool) -> Result<
    Seq<Seq<u8>>,
    (Kind, Seq<u8>),
>
    decreases values.len(),
{
    if values.len() == 0 {
        Ok(Seq::empty())
    } else {
        match union_parts_spec(values.drop_last(), single) {
            Err(e) => Err(e),
            Ok(parts) => match union_part_spec(values.last(), single) {
                Err(e) => Err(e),
                Ok(part) => Ok(parts.push(part)),
            },
        }
    }
}

/// The pattern that `union` compiles: one that never matches for no
/// argument, else the patterns of the arguments, or of the elements of the
/// only argument where it is an array, with `|` between them.
pub open spec fn union_source_spec(patterns: Seq<Value>) -> Result<Seq<u8>, (Kind, Seq<u8>)> {
    if patterns.len() == 0 {
        Ok("(?!)".spec_bytes())
    } else if patterns.len() == 1 {
        match patterns[0].inner_spec() {
            Inner::Array(elements) => match union_parts_spec(elements@, true) {
                Err(e) => Err(e),
                Ok(parts) => Ok(joined(seq![124u8], parts)),
            },
            _ => union_part_spec(patterns[0], true),
        }
    } else {
        match union_parts_spec(patterns, false) {
            Err(e) => Err(e),
            Ok(parts) => Ok(joined(seq![124u8], parts)),
        }
    }
}

/// What `union` gives: the `Regexp` of the pattern that it compiles, with
/// no options and no encoding.
pub open spec fn union_spec(patterns: Seq<Value>) -> Result<Model, (Kind, Seq<u8>)> {
    match union_source_spec(patterns) {
        Err(e) => Err(e),
        Ok(pattern) => new_spec(
            (pattern, Options::default_spec()),
            parse_pattern_spec(pattern, Options::default_spec()),
            Encoding::Unset,
        ),
    }
}

/// The pattern that one argument of `union` stands for.
pub fn union_part(value: &Value, single: bool) -> (r: Result<Vec<u8>, Exception>)
    ensures
        match r {
            Ok(part) => union_part_spec(*value, single) == Ok::<Seq<u8>, (Kind, Seq<u8>)>(part@),
            Err(e) => union_part_spec(*value, single) == Err::<Seq<u8>, (Kind, Seq<u8>)>(e@),
        },
{
    match value.inner() {
        Inner::Regexp(source) => Ok(copy(source.derived.pattern())),
        _ => match value.coerce_to_bytes() {
            Some(bytes) => {
                if from_utf8(bytes).is_some() {
                    Ok(syntax::escape(bytes))
                } else if single {
                    Err(Exception::new(Kind::TypeError, "No implicit conversion into String"))
                } else {
                    Err(
                        Exception::new(
                            Kind::ArgumentError,
                            "Self::union only supports UTF-8 patterns",
                        ),
                    )
                }
            },
            None => {
                if single {
                    Err(Exception::new(Kind::TypeError, "No implicit conversion into String"))
                } else {
                    Err(Exception::new(Kind::TypeError, "no implicit conversion into String"))
                }
            },
        },
    }
}

/// The patterns that the values stand for.
pub fn union_parts(values: &[Value], single: bool) -> (r: Result<Vec<Vec<u8>>, Exception>)
    ensures
        match r {
            Ok(parts) => union_parts_spec(values@, single) == Ok::<
                Seq<Seq<u8>>,
                (Kind, Seq<u8>),
            >(strings_view(parts@)),
            Err(e) => union_parts_spec(values@, single) == Err::<Seq<Seq<u8>>, (Kind, Seq<u8>)>(
                e@,
            ),
        },
{
    let mut parts: Vec<Vec<u8>> = Vec::new();
    let mut i: usize = 0;
    assert(strings_view(parts@) =~= Seq::empty());
    while i < values.len()
        invariant
            i <= values@.len(),
            union_parts_spec(values@.take(i as int), single) == Ok::<
                Seq<Seq<u8>>,
                (Kind, Seq<u8>),
            >(strings_view(parts@)),
        decreases values@.len() - i,
    {
        proof {
            assert(values@.take(i + 1).drop_last() =~= values@.take(i as int));
        }
        let ghost before = strings_view(parts@);
        match union_part(&values[i], single) {
            Ok(part) => {
                parts.push(part);
                assert(strings_view(parts@) =~= before.push(part@));
            },
            Err(e) => {
                proof {
                    lemma_union_parts_error(values@, i as int + 1, single);
                }
                return Err(e);
            },
        }
        i += 1;
    }
    assert(values@.take(values@.len() as int) =~= values@);
    Ok(parts)
}

/// An error among the first `n` values is the error of all the values.
pub proof fn lemma_union_parts_error(values: Seq<Value>, n: int, single: bool)
    requires
        0 <= n <= values.len(),
        union_parts_spec(values.take(n), single) is Err,
    ensures
        union_parts_spec(values, single) == union_parts_spec(values.take(n), single),
    decreases values.len() - n,
{
    if n == values.len() {
        assert(values.take(n) =~= values);
    } else {
        assert(values.take(n + 1).drop_last() =~= values.take(n));
        lemma_union_parts_error(values, n + 1, single);
    }
}

} // verus!
