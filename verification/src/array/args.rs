//! Resolution of the arguments of `[]` and `[]=` against a sequence of a
//! given length.
//!
//! `[]` takes an index, a start and a length, or a range; `[]=` takes the same
//! and the value to store. A negative index counts from the end. Arguments
//! that are no integers are converted with `to_int`.

use vstd::prelude::*;
use vstd::string::StringSliceAdditionalSpecFns;

use crate::bytes::{append, decimal, format_int, format_usize};
use crate::exception::{Exception, Kind};
use crate::types::Int;
use crate::value::{no_implicit_conversion, no_implicit_conversion_error, outcome, Inner, Value};

verus! {

/// What the arguments of `[]` select.
#[derive(Debug, Clone, Copy, PartialEq, Eq, Structural)]
pub enum ElementReference {
    /// Nothing: the result is `nil`.
    Empty,
    /// The element at an index, which counts from the end if negative.
    Index(Int),
    /// As many elements as the length says, from a start that counts from the
    /// end if negative.
    StartLen(Int, usize),
}

/// What a range selects in a sequence.
#[derive(Debug, Clone, Copy, PartialEq, Eq, Structural)]
pub enum RangeCheck {
    /// The elements from `start`, `len` of them.
    Span { start: Int, len: Int },
    /// The range begins before the sequence, or after its end.
    OutOfRange,
    /// The value is no range between two integers.
    TypeMismatch,
}

/// The start and length that the range from `begin` to `end` selects in a
/// sequence of `len` elements, or `None` if it begins outside the sequence.
///
/// A negative bound counts from the end. With `trunc` the selection ends where
/// the sequence ends, and a range that begins after the end selects nothing.
pub open spec fn range_span(begin: int, end: int, exclusive: bool, len: int, trunc: bool) -> Option<
    (int, int),
> {
    let beg = if begin < 0 {
        begin + len
    } else {
        begin
    };
    if beg < 0 || (trunc && beg > len) {
        None
    } else {
        let cut = if trunc && end > len {
            len
        } else {
            end
        };
        let wrapped = if cut < 0 {
            cut + len
        } else {
            cut
        };
        let last = if !exclusive && (!trunc || wrapped < len) {
            wrapped + 1
        } else {
            wrapped
        };
        Some(
            (
                beg,
                if last - beg < 0 {
                    0
                } else {
                    last - beg
                },
            ),
        )
    }
}

/// The bounds of `value` if it is a range between two integers.
pub open spec fn range_bounds(value: Value) -> Option<(Int, Int, bool)> {
    match value.inner_spec() {
        Inner::Range { begin, end, exclusive } => match (begin.int_spec(), end.int_spec()) {
            (Some(b), Some(e)) => Some((b, e, exclusive)),
            _ => None,
        },
        _ => None,
    }
}

/// What `value` selects as a range in a sequence of `len` elements.
pub open spec fn range_check_spec(value: Value, len: Int, trunc: bool) -> RangeCheck {
    match range_bounds(value) {
        None => RangeCheck::TypeMismatch,
        Some((b, e, exclusive)) => match range_span(b as int, e as int, exclusive, len as int, trunc) {
            None => RangeCheck::OutOfRange,
            Some((start, n)) => if n <= Int::MAX {
                RangeCheck::Span { start: start as Int, len: n as Int }
            } else {
                RangeCheck::Span { start: start as Int, len: Int::MAX }
            },
        },
    }
}

/// The bounds of `value` if it is a range between two integers.
pub fn range_of(value: &Value) -> (r: Option<(Int, Int, bool)>)
    ensures
        r == range_bounds(*value),
{
    match value.inner() {
        Inner::Range { begin, end, exclusive } => match (begin.try_into_int(), end.try_into_int()) {
            (Some(b), Some(e)) => Some((b, e, *exclusive)),
            _ => None,
        },
        _ => None,
    }
}

/// What `value` selects as a range in a sequence of `len` elements: the start
/// and the number of elements, where a negative bound counts from the end.
///
/// With `trunc` the selection ends where the sequence ends, and a range that
/// begins after the end is out of range. A length that is more than `Int`
/// holds is given as `Int::MAX`.
pub fn range_beg_len(value: &Value, len: Int, trunc: bool) -> (r: RangeCheck)
    requires
        0 <= len,
    ensures
        r == range_check_spec(*value, len, trunc),
        r matches RangeCheck::Span { start, len: n } ==> 0 <= start && 0 <= n,
        trunc ==> (r matches RangeCheck::Span { start, len: n } ==> start + n <= len),
{
    match range_of(value) {
        None => RangeCheck::TypeMismatch,
        Some((b, e, exclusive)) => {
            let len_wide: i128 = len as i128;
            let beg: i128 = if b < 0 {
                b as i128 + len_wide
            } else {
                b as i128
            };
            if beg < 0 || (trunc && beg > len_wide) {
                RangeCheck::OutOfRange
            } else {
                let cut: i128 = if trunc && e as i128 > len_wide {
                    len_wide
                } else {
                    e as i128
                };
                let wrapped: i128 = if cut < 0 {
                    cut + len_wide
                } else {
                    cut
                };
                let last: i128 = if !exclusive && (!trunc || wrapped < len_wide) {
                    wrapped + 1
                } else {
                    wrapped
                };
                let n: i128 = if last - beg < 0 {
                    0
                } else {
                    last - beg
                };
                let start: Int = beg as Int;
                if n <= Int::MAX as i128 {
                    RangeCheck::Span { start, len: n as Int }
                } else {
                    RangeCheck::Span { start, len: Int::MAX }
                }
            }
        },
    }
}

/// The place in a sequence of `len` elements that `index` addresses: `index`
/// itself if it is not negative, `len + index` if it is, and nothing where
/// that lies outside the sequence.
pub open spec fn resolve_index_spec(index: Int, len: usize) -> Option<usize> {
    if 0 <= index < len {
        Some(index as usize)
    } else if index < 0 && 0 <= len + index {
        Some((len + index) as usize)
    } else {
        None
    }
}

/// The place in a sequence of `len` elements that `index` addresses, where a
/// negative index counts from the end.
pub fn resolve_index(index: Int, len: usize) -> (r: Option<usize>)
    ensures
        r == resolve_index_spec(index, len),
{
    if index >= 0 {
        if (index as u64) < len as u64 {
            Some(index as usize)
        } else {
            None
        }
    } else {
        let back: u64 = if index == Int::MIN {
            9223372036854775808u64
        } else {
            (-index) as u64
        };
        if back <= len as u64 {
            Some((len as u64 - back) as usize)
        } else {
            None
        }
    }
}

/// The message of the error raised where a sequence's length is more than the
/// interpreter's integers hold.
pub open spec fn range_length_message() -> Seq<u8> {
    "Range length exceeds Integer max".spec_bytes()
}

/// What `[]` selects, see [`element_reference`].
pub open spec fn element_reference_spec(elem: Value, len: Option<Value>, ary_len: usize) -> Result<
    ElementReference,
    (Kind, Seq<u8>),
> {
    match len {
        Some(len) => match elem.coerced_int_spec() {
            None => Err(
                (Kind::TypeError, no_implicit_conversion(elem.pretty_name_spec(), "Integer"@)),
            ),
            Some(start) => match len.coerced_int_spec() {
                None => Err(
                    (Kind::TypeError, no_implicit_conversion(len.pretty_name_spec(), "Integer"@)),
                ),
                Some(n) => if 0 <= n <= usize::MAX {
                    Ok(ElementReference::StartLen(start, n as usize))
                } else {
                    Ok(ElementReference::Empty)
                },
            },
        },
        None => match elem.coerced_int_spec() {
            Some(index) => Ok(ElementReference::Index(index)),
            None => if ary_len > Int::MAX {
                Err((Kind::Fatal, range_length_message()))
            } else {
                match range_check_spec(elem, ary_len as Int, true) {
                    RangeCheck::Span { start, len: n } => Ok(
                        ElementReference::StartLen(start, n as usize),
                    ),
                    RangeCheck::OutOfRange => Ok(ElementReference::Empty),
                    RangeCheck::TypeMismatch => Err(
                        (
                            Kind::TypeError,
                            no_implicit_conversion(elem.pretty_name_spec(), "Integer"@),
                        ),
                    ),
                }
            },
        },
    }
}

/// Resolves the arguments of `[]` against a sequence of `ary_len` elements.
///
/// With a length, both arguments are converted to integers; a negative length
/// selects nothing. With one argument, an integer is an index and a range
/// selects what lies inside the sequence; any other value is a `TypeError`.
/// What a range selects begins and ends inside the sequence.
pub fn element_reference(elem: &Value, len: Option<&Value>, ary_len: usize) -> (r: Result<
    ElementReference,
    Exception,
>)
    ensures
        outcome(r) == element_reference_spec(
            *elem,
            match len {
                Some(len) => Some(*len),
                None => None,
            },
            ary_len,
        ),
        len is None ==> (r matches Ok(ElementReference::StartLen(start, n)) ==> 0 <= start
            && start + n <= ary_len),
{
    match len {
        Some(len) => {
            let start: Int = match elem.coerce_to_int() {
                Some(start) => start,
                None => {
                    return Err(no_implicit_conversion_error(elem.pretty_name(), "Integer"));
                },
            };
            let n: Int = match len.coerce_to_int() {
                Some(n) => n,
                None => {
                    return Err(no_implicit_conversion_error(len.pretty_name(), "Integer"));
                },
            };
            match usize::try_from(n) {
                Ok(n) => Ok(ElementReference::StartLen(start, n)),
                Err(_) => Ok(ElementReference::Empty),
            }
        },
        None => {
            match elem.coerce_to_int() {
                Some(index) => Ok(ElementReference::Index(index)),
                None => {
                    let rangelen: Int = match Int::try_from(ary_len) {
                        Ok(rangelen) => rangelen,
                        Err(_) => {
                            return Err(
                                Exception::new(Kind::Fatal, "Range length exceeds Integer max"),
                            );
                        },
                    };
                    match range_beg_len(elem, rangelen, true) {
                        RangeCheck::Span { start, len: n } => Ok(
                            ElementReference::StartLen(start, n as usize),
                        ),
                        RangeCheck::OutOfRange => Ok(ElementReference::Empty),
                        RangeCheck::TypeMismatch => Err(
                            no_implicit_conversion_error(elem.pretty_name(), "Integer"),
                        ),
                    }
                },
            }
        },
    }
}

/// The message of the error raised for a negative index that reaches back
/// before the first element of a sequence of `len` elements.
pub open spec fn index_too_small(index: int, len: int) -> Seq<u8> {
    "index ".spec_bytes() + decimal(index) + " too small for array; minimum: -".spec_bytes()
        + decimal(len)
}

/// The message of the error raised for a negative length.
pub open spec fn negative_length(len: int) -> Seq<u8> {
    "negative length (".spec_bytes() + decimal(len) + ")".spec_bytes()
}

/// The message of the error raised for a range that ends before a sequence
/// begins.
pub open spec fn range_out_of_range(begin: int, end: int) -> Seq<u8> {
    decimal(begin) + "..".spec_bytes() + decimal(end) + " out of range".spec_bytes()
}

/// The message of the error raised where an index is more than a `usize`
/// holds.
pub open spec fn index_width_message() -> Seq<u8> {
    "Positive Int must be usize".spec_bytes()
}

/// The place that `index` addresses for a write to a sequence of `len`
/// elements, see [`resolve_write_index`].
pub open spec fn resolve_write_index_spec(index: Int, len: usize) -> Result<
    usize,
    (Kind, Seq<u8>),
> {
    if 0 <= index {
        if index <= usize::MAX {
            Ok(index as usize)
        } else {
            Err((Kind::Fatal, index_width_message()))
        }
    } else if 0 <= len + index {
        Ok((len + index) as usize)
    } else {
        Err((Kind::IndexError, index_too_small(index as int, len as int)))
    }
}

/// The error raised for a negative index that reaches back before the first
/// element of a sequence of `len` elements.
pub fn index_too_small_error(index: Int, len: usize) -> (r: Exception)
    ensures
        r@ == (Kind::IndexError, index_too_small(index as int, len as int)),
{
    let mut message: Vec<u8> = Vec::new();
    append(&mut message, "index ".as_bytes());
    let digits = format_int(index);
    append(&mut message, digits.as_slice());
    append(&mut message, " too small for array; minimum: -".as_bytes());
    let digits = format_usize(len);
    append(&mut message, digits.as_slice());
    Exception::new_raw(Kind::IndexError, message)
}

/// The place that `index` addresses for a write to a sequence of `len`
/// elements.
///
/// An index that is not negative addresses itself, also past the end. A
/// negative index counts from the end; one that reaches back before the first
/// element is an `IndexError`.
pub fn resolve_write_index(index: Int, len: usize) -> (r: Result<usize, Exception>)
    ensures
        outcome(r) == resolve_write_index_spec(index, len),
{
    if index >= 0 {
        match usize::try_from(index) {
            Ok(index) => Ok(index),
            Err(_) => Err(Exception::new(Kind::Fatal, "Positive Int must be usize")),
        }
    } else {
        match resolve_index(index, len) {
            Some(place) => Ok(place),
            None => Err(index_too_small_error(index, len)),
        }
    }
}

/// What `[]=` addresses and stores, see [`element_assignment`].
pub open spec fn element_assignment_spec(
    first: Value,
    second: Value,
    third: Option<Value>,
    len: usize,
) -> Result<(usize, Option<usize>, Value), (Kind, Seq<u8>)> {
    match third {
        Some(elem) => match first.coerced_int_spec() {
            None => Err(
                (Kind::TypeError, no_implicit_conversion(first.pretty_name_spec(), "Integer"@)),
            ),
            Some(start) => match resolve_write_index_spec(start, len) {
                Err(e) => Err(e),
                Ok(start) => match second.coerced_int_spec() {
                    None => Err(
                        (
                            Kind::TypeError,
                            no_implicit_conversion(second.pretty_name_spec(), "Integer"@),
                        ),
                    ),
                    Some(n) => if n < 0 {
                        Err((Kind::IndexError, negative_length(n as int)))
                    } else if n <= usize::MAX {
                        Ok((start, Some(n as usize), elem))
                    } else {
                        Err((Kind::Fatal, index_width_message()))
                    },
                },
            },
        },
        None => match first.coerced_int_spec() {
            Some(index) => match resolve_write_index_spec(index, len) {
                Err(e) => Err(e),
                Ok(index) => Ok((index, None, second)),
            },
            None => if len > Int::MAX {
                Err((Kind::Fatal, range_length_message()))
            } else {
                match range_check_spec(first, len as Int, false) {
                    RangeCheck::Span { start, len: n } => if n <= usize::MAX {
                        Ok(
                            (
                                if start <= usize::MAX {
                                    start as usize
                                } else {
                                    0
                                },
                                Some(n as usize),
                                second,
                            ),
                        )
                    } else {
                        Err(
                            (
                                Kind::TypeError,
                                no_implicit_conversion(first.pretty_name_spec(), "Integer"@),
                            ),
                        )
                    },
                    RangeCheck::OutOfRange => {
                        let bounds = range_bounds(first).unwrap();
                        if bounds.1 < 0 {
                            Err(
                                (
                                    Kind::RangeError,
                                    range_out_of_range(bounds.0 as int, bounds.1 as int),
                                ),
                            )
                        } else {
                            Err(
                                (
                                    Kind::IndexError,
                                    index_too_small(bounds.0 as int, len as int),
                                ),
                            )
                        }
                    },
                    RangeCheck::TypeMismatch => Err(
                        (
                            Kind::TypeError,
                            no_implicit_conversion(first.pretty_name_spec(), "Integer"@),
                        ),
                    ),
                }
            },
        },
    }
}

/// The error raised for a negative length.
pub fn negative_length_error(len: Int) -> (r: Exception)
    ensures
        r@ == (Kind::IndexError, negative_length(len as int)),
{
    let mut message: Vec<u8> = Vec::new();
    append(&mut message, "negative length (".as_bytes());
    let digits = format_int(len);
    append(&mut message, digits.as_slice());
    append(&mut message, ")".as_bytes());
    Exception::new_raw(Kind::IndexError, message)
}

/// The error raised for a range that ends before a sequence begins.
pub fn range_out_of_range_error(begin: Int, end: Int) -> (r: Exception)
    ensures
        r@ == (Kind::RangeError, range_out_of_range(begin as int, end as int)),
{
    let mut message: Vec<u8> = format_int(begin);
    append(&mut message, "..".as_bytes());
    let digits = format_int(end);
    append(&mut message, digits.as_slice());
    append(&mut message, " out of range".as_bytes());
    Exception::new_raw(Kind::RangeError, message)
}

/// Resolves the arguments of `[]=` against a sequence of `len` elements: the
/// place to write to, how many elements to replace if a length or a range was
/// given, and the value to store.
///
/// With three arguments the first two are a start and a length, and the third
/// is stored. With two, the first is an index or a range, and the second is
/// stored. A negative start counts from the end, and is an `IndexError` where
/// it reaches back before the first element; so is a negative length. A range
/// that begins before the first element is an `IndexError`, or a `RangeError`
/// if it also ends before it. A first argument that is neither an integer nor
/// a range of integers is a `TypeError`.
pub fn element_assignment(first: &Value, second: Value, third: Option<Value>, len: usize) -> (r:
    Result<(usize, Option<usize>, Value), Exception>)
    ensures
        outcome(r) == element_assignment_spec(*first, second, third, len),
{
    match third {
        Some(elem) => {
            let start: Int = match first.coerce_to_int() {
                Some(start) => start,
                None => {
                    return Err(no_implicit_conversion_error(first.pretty_name(), "Integer"));
                },
            };
            let start: usize = match resolve_write_index(start, len) {
                Ok(start) => start,
                Err(e) => {
                    return Err(e);
                },
            };
            let n: Int = match second.coerce_to_int() {
                Some(n) => n,
                None => {
                    return Err(no_implicit_conversion_error(second.pretty_name(), "Integer"));
                },
            };
            if n < 0 {
                Err(negative_length_error(n))
            } else {
                match usize::try_from(n) {
                    Ok(n) => Ok((start, Some(n), elem)),
                    Err(_) => Err(Exception::new(Kind::Fatal, "Positive Int must be usize")),
                }
            }
        },
        None => {
            match first.coerce_to_int() {
                Some(index) => match resolve_write_index(index, len) {
                    Ok(index) => Ok((index, None, second)),
                    Err(e) => Err(e),
                },
                None => {
                    let rangelen: Int = match Int::try_from(len) {
                        Ok(rangelen) => rangelen,
                        Err(_) => {
                            return Err(
                                Exception::new(Kind::Fatal, "Range length exceeds Integer max"),
                            );
                        },
                    };
                    match range_beg_len(first, rangelen, false) {
                        RangeCheck::Span { start, len: n } => {
                            match usize::try_from(n) {
                                Ok(n) => {
                                    let start: usize = match usize::try_from(start) {
                                        Ok(start) => start,
                                        Err(_) => 0,
                                    };
                                    Ok((start, Some(n), second))
                                },
                                Err(_) => Err(
                                    no_implicit_conversion_error(first.pretty_name(), "Integer"),
                                ),
                            }
                        },
                        RangeCheck::OutOfRange => {
                            match range_of(first) {
                                Some((b, e, _)) => {
                                    if e < 0 {
                                        Err(range_out_of_range_error(b, e))
                                    } else {
                                        Err(index_too_small_error(b, len))
                                    }
                                },
                                None => Err(
                                    no_implicit_conversion_error(first.pretty_name(), "Integer"),
                                ),
                            }
                        },
                        RangeCheck::TypeMismatch => Err(
                            no_implicit_conversion_error(first.pretty_name(), "Integer"),
                        ),
                    }
                },
            }
        },
    }
}

/// An index from 0 up to the length addresses its own place, and `[]` takes
/// an integer for such an index as it is. A negative index that reaches
/// back no further than the first element addresses the same place as the
/// index that is greater by the length. One that reaches back further
/// addresses nothing for a read, and is an `IndexError` for a write.
pub proof fn lemma_index_resolution(elem: Value, index: Int, len: usize)
    requires
        elem.int_spec() == Some(index),
    ensures
        element_reference_spec(elem, None, len) == Ok::<ElementReference, (Kind, Seq<u8>)>(
            ElementReference::Index(index),
        ),
        0 <= index < len ==> resolve_index_spec(index, len) == Some(index as usize),
        0 < -index <= len ==> resolve_index_spec(index, len) == Some((len + index) as usize),
        0 < -index <= len && len + index <= Int::MAX ==> resolve_index_spec(index, len)
            == resolve_index_spec((len + index) as Int, len),
        -index > len ==> resolve_index_spec(index, len) is None,
        -index > len ==> resolve_write_index_spec(index, len) == Err::<usize, (Kind, Seq<u8>)>(
            (Kind::IndexError, index_too_small(index as int, len as int)),
        ),
{
}

/// The number of elements from `begin` to `end`, the end left out or not.
pub open spec fn range_size(begin: int, end: int, exclusive: bool) -> int {
    if exclusive {
        end - begin
    } else {
        end - begin + 1
    }
}

/// A range that begins inside a sequence, or at its end, and does not end
/// before it begins, selects from its beginning on as many elements as lie
/// between its bounds, but no more than the sequence holds from there on.
pub proof fn lemma_range_resolution(elem: Value, begin: Int, end: Int, exclusive: bool, len: usize)
    requires
        range_bounds(elem) == Some((begin, end, exclusive)),
        0 <= begin <= len <= Int::MAX,
        0 <= end,
        0 <= range_size(begin as int, end as int, exclusive),
    ensures
        range_span(begin as int, end as int, exclusive, len as int, true) == Some(
            (
                begin as int,
                if range_size(begin as int, end as int, exclusive) <= len - begin {
                    range_size(begin as int, end as int, exclusive)
                } else {
                    len - begin
                },
            ),
        ),
        element_reference_spec(elem, None, len) == Ok::<ElementReference, (Kind, Seq<u8>)>(
            ElementReference::StartLen(
                begin,
                (if range_size(begin as int, end as int, exclusive) <= len - begin {
                    range_size(begin as int, end as int, exclusive)
                } else {
                    len - begin
                }) as usize,
            ),
        ),
{
}

} // verus!
