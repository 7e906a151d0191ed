use artichoke_backend::array::args::{
    element_assignment, element_reference, range_beg_len, resolve_index, resolve_write_index,
    ElementReference, RangeCheck,
};
use artichoke_backend::exception::Kind;
use artichoke_backend::value::{Inner, Object, Value};

fn fixnum(i: i64) -> Value {
    Value::from_int(i)
}

fn range(begin: i64, end: i64, exclusive: bool) -> Value {
    Value::range(fixnum(begin), fixnum(end), exclusive)
}

fn to_int_object(i: i64) -> Value {
    Value::new(Inner::Object(Object {
        class_name: "Idx".to_owned(),
        to_int: Some(Box::new(fixnum(i))),
        to_str: None,
        to_s: Vec::new(),
        inspect: Vec::new(),
    }))
}

#[test]
fn index_is_taken_as_it_is() {
    assert_eq!(element_reference(&fixnum(0), None, 3).unwrap(), ElementReference::Index(0));
    assert_eq!(element_reference(&fixnum(2), None, 3).unwrap(), ElementReference::Index(2));
    assert_eq!(element_reference(&fixnum(-1), None, 3).unwrap(), ElementReference::Index(-1));
    assert_eq!(element_reference(&fixnum(99), None, 3).unwrap(), ElementReference::Index(99));
    assert_eq!(
        element_reference(&to_int_object(4), None, 3).unwrap(),
        ElementReference::Index(4)
    );
}

#[test]
fn negative_index_wraps_around() {
    assert_eq!(resolve_index(0, 3), Some(0));
    assert_eq!(resolve_index(2, 3), Some(2));
    assert_eq!(resolve_index(3, 3), None);
    assert_eq!(resolve_index(-1, 3), Some(2));
    assert_eq!(resolve_index(-3, 3), Some(0));
    assert_eq!(resolve_index(-4, 3), None);
    assert_eq!(resolve_index(i64::MIN, 3), None);
    assert_eq!(resolve_index(0, 0), None);
    assert_eq!(resolve_index(-1, 0), None);
    for i in 1..=3i64 {
        assert_eq!(resolve_index(-i, 3), resolve_index(3 - i, 3));
    }
}

#[test]
fn start_and_length() {
    assert_eq!(
        element_reference(&fixnum(1), Some(&fixnum(2)), 5).unwrap(),
        ElementReference::StartLen(1, 2)
    );
    assert_eq!(
        element_reference(&fixnum(-2), Some(&fixnum(0)), 5).unwrap(),
        ElementReference::StartLen(-2, 0)
    );
    assert_eq!(
        element_reference(&fixnum(1), Some(&fixnum(-1)), 5).unwrap(),
        ElementReference::Empty
    );
    assert_eq!(
        element_reference(&to_int_object(1), Some(&to_int_object(3)), 5).unwrap(),
        ElementReference::StartLen(1, 3)
    );
}

#[test]
fn start_and_length_type_errors() {
    let err = element_reference(&Value::from_str("a"), Some(&fixnum(1)), 5).unwrap_err();
    assert_eq!(err.kind(), Kind::TypeError);
    assert_eq!(err.message(), &b"no implicit conversion of String into Integer"[..]);
    let err = element_reference(&fixnum(1), Some(&Value::nil()), 5).unwrap_err();
    assert_eq!(err.kind(), Kind::TypeError);
    assert_eq!(err.message(), &b"no implicit conversion of nil into Integer"[..]);
}

#[test]
fn ranges_inside_the_sequence() {
    assert_eq!(
        element_reference(&range(1, 3, false), None, 5).unwrap(),
        ElementReference::StartLen(1, 3)
    );
    assert_eq!(
        element_reference(&range(1, 3, true), None, 5).unwrap(),
        ElementReference::StartLen(1, 2)
    );
    assert_eq!(
        element_reference(&range(0, 4, false), None, 5).unwrap(),
        ElementReference::StartLen(0, 5)
    );
    assert_eq!(
        element_reference(&range(5, 7, false), None, 5).unwrap(),
        ElementReference::StartLen(5, 0)
    );
    assert_eq!(
        element_reference(&range(2, 2, true), None, 5).unwrap(),
        ElementReference::StartLen(2, 0)
    );
}

#[test]
fn ranges_are_clamped_to_the_sequence() {
    assert_eq!(
        element_reference(&range(1, 100, false), None, 5).unwrap(),
        ElementReference::StartLen(1, 4)
    );
    assert_eq!(
        element_reference(&range(1, 100, true), None, 5).unwrap(),
        ElementReference::StartLen(1, 4)
    );
    assert_eq!(
        element_reference(&range(0, 5, false), None, 5).unwrap(),
        ElementReference::StartLen(0, 5)
    );
    assert_eq!(
        element_reference(&range(0, i64::MAX, false), None, 5).unwrap(),
        ElementReference::StartLen(0, 5)
    );
}

#[test]
fn ranges_with_negative_bounds() {
    assert_eq!(
        element_reference(&range(-2, -1, false), None, 5).unwrap(),
        ElementReference::StartLen(3, 2)
    );
    assert_eq!(
        element_reference(&range(1, -1, false), None, 5).unwrap(),
        ElementReference::StartLen(1, 4)
    );
    assert_eq!(
        element_reference(&range(1, -1, true), None, 5).unwrap(),
        ElementReference::StartLen(1, 3)
    );
    assert_eq!(
        element_reference(&range(3, 1, false), None, 5).unwrap(),
        ElementReference::StartLen(3, 0)
    );
}

#[test]
fn ranges_outside_the_sequence_select_nothing() {
    assert_eq!(
        element_reference(&range(-6, 2, false), None, 5).unwrap(),
        ElementReference::Empty
    );
    assert_eq!(
        element_reference(&range(6, 7, false), None, 5).unwrap(),
        ElementReference::Empty
    );
}

#[test]
fn neither_integer_nor_range_is_a_type_error() {
    let err = element_reference(&Value::from_str("a"), None, 5).unwrap_err();
    assert_eq!(err.kind(), Kind::TypeError);
    assert_eq!(err.message(), &b"no implicit conversion of String into Integer"[..]);
    let err = element_reference(&Value::nil(), None, 5).unwrap_err();
    assert_eq!(err.message(), &b"no implicit conversion of nil into Integer"[..]);
    let odd = Value::range(Value::from_str("a"), Value::from_str("b"), false);
    let err = element_reference(&odd, None, 5).unwrap_err();
    assert_eq!(err.message(), &b"no implicit conversion of Range into Integer"[..]);
}

#[test]
fn range_primitive_without_truncation() {
    assert_eq!(
        range_beg_len(&range(1, 100, false), 5, false),
        RangeCheck::Span { start: 1, len: 100 }
    );
    assert_eq!(
        range_beg_len(&range(7, 9, true), 5, false),
        RangeCheck::Span { start: 7, len: 2 }
    );
    assert_eq!(range_beg_len(&range(-6, 2, false), 5, false), RangeCheck::OutOfRange);
    assert_eq!(range_beg_len(&fixnum(1), 5, false), RangeCheck::TypeMismatch);
    assert_eq!(
        range_beg_len(&range(0, i64::MAX, false), 5, false),
        RangeCheck::Span { start: 0, len: i64::MAX }
    );
    assert_eq!(
        range_beg_len(&range(-5, -1, false), 5, true),
        RangeCheck::Span { start: 0, len: 5 }
    );
}

#[test]
fn write_index_resolution() {
    assert_eq!(resolve_write_index(0, 3).unwrap(), 0);
    assert_eq!(resolve_write_index(10, 3).unwrap(), 10);
    assert_eq!(resolve_write_index(-1, 3).unwrap(), 2);
    assert_eq!(resolve_write_index(-3, 3).unwrap(), 0);
    let err = resolve_write_index(-4, 3).unwrap_err();
    assert_eq!(err.kind(), Kind::IndexError);
    assert_eq!(err.message(), &b"index -4 too small for array; minimum: -3"[..]);
    let err = resolve_write_index(-1, 0).unwrap_err();
    assert_eq!(err.message(), &b"index -1 too small for array; minimum: -0"[..]);
}

#[test]
fn assignment_with_index() {
    let (index, len, value) = element_assignment(&fixnum(1), fixnum(42), None, 3).unwrap();
    assert_eq!((index, len), (1, None));
    assert_eq!(value.try_into_int(), Some(42));
    let (index, len, _) = element_assignment(&fixnum(-1), fixnum(42), None, 3).unwrap();
    assert_eq!((index, len), (2, None));
    let (index, len, _) = element_assignment(&fixnum(7), fixnum(42), None, 3).unwrap();
    assert_eq!((index, len), (7, None));
    let (index, len, _) = element_assignment(&to_int_object(-3), fixnum(42), None, 3).unwrap();
    assert_eq!((index, len), (0, None));
    let err = element_assignment(&fixnum(-5), fixnum(42), None, 3).unwrap_err();
    assert_eq!(err.kind(), Kind::IndexError);
    assert_eq!(err.message(), &b"index -5 too small for array; minimum: -3"[..]);
}

#[test]
fn assignment_with_start_and_length() {
    let (start, len, value) = element_assignment(&fixnum(1), fixnum(2), Some(fixnum(9)), 5).unwrap();
    assert_eq!((start, len), (1, Some(2)));
    assert_eq!(value.try_into_int(), Some(9));
    let (start, len, _) = element_assignment(&fixnum(-2), fixnum(0), Some(fixnum(9)), 5).unwrap();
    assert_eq!((start, len), (3, Some(0)));

    let err = element_assignment(&fixnum(1), fixnum(-2), Some(fixnum(9)), 5).unwrap_err();
    assert_eq!(err.kind(), Kind::IndexError);
    assert_eq!(err.message(), &b"negative length (-2)"[..]);

    let err = element_assignment(&fixnum(-6), fixnum(1), Some(fixnum(9)), 5).unwrap_err();
    assert_eq!(err.kind(), Kind::IndexError);
    assert_eq!(err.message(), &b"index -6 too small for array; minimum: -5"[..]);

    let err = element_assignment(&Value::nil(), fixnum(1), Some(fixnum(9)), 5).unwrap_err();
    assert_eq!(err.kind(), Kind::TypeError);
    assert_eq!(err.message(), &b"no implicit conversion of nil into Integer"[..]);

    let err = element_assignment(&fixnum(1), Value::from_str("x"), Some(fixnum(9)), 5).unwrap_err();
    assert_eq!(err.kind(), Kind::TypeError);
    assert_eq!(err.message(), &b"no implicit conversion of String into Integer"[..]);
}

#[test]
fn assignment_with_range() {
    let (start, len, value) = element_assignment(&range(1, 3, false), fixnum(9), None, 5).unwrap();
    assert_eq!((start, len), (1, Some(3)));
    assert_eq!(value.try_into_int(), Some(9));
    let (start, len, _) = element_assignment(&range(1, 10, true), fixnum(9), None, 5).unwrap();
    assert_eq!((start, len), (1, Some(9)));
    let (start, len, _) = element_assignment(&range(-2, -1, false), fixnum(9), None, 5).unwrap();
    assert_eq!((start, len), (3, Some(2)));
    let (start, len, _) = element_assignment(&range(7, 8, false), fixnum(9), None, 5).unwrap();
    assert_eq!((start, len), (7, Some(2)));
}

#[test]
fn assignment_with_range_out_of_range() {
    let err = element_assignment(&range(-6, 2, false), fixnum(9), None, 5).unwrap_err();
    assert_eq!(err.kind(), Kind::IndexError);
    assert_eq!(err.message(), &b"index -6 too small for array; minimum: -5"[..]);
    let err = element_assignment(&range(-7, -6, false), fixnum(9), None, 5).unwrap_err();
    assert_eq!(err.kind(), Kind::RangeError);
    assert_eq!(err.message(), &b"-7..-6 out of range"[..]);
}

#[test]
fn assignment_with_other_values_is_a_type_error() {
    let err = element_assignment(&Value::from_str("a"), fixnum(9), None, 5).unwrap_err();
    assert_eq!(err.kind(), Kind::TypeError);
    assert_eq!(err.message(), &b"no implicit conversion of String into Integer"[..]);
}
