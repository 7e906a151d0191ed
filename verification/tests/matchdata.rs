use artichoke_backend::exception::Kind;
use artichoke_backend::matchdata::element_reference::{self, Element};
use artichoke_backend::matchdata::{length, pre_match, string, to_a, MatchData};
use artichoke_backend::regexp::{Globals, Regexp};
use artichoke_backend::value::{Inner, Value};

fn ruby(pattern: &str) -> Regexp {
    Regexp::initialize(&Value::from_str(pattern), None, None).unwrap().regexp
}

fn matched(pattern: &str, haystack: &str) -> MatchData {
    let mut globals = Globals::new();
    ruby(pattern).match_(&mut globals, &Value::from_str(haystack), None).unwrap().unwrap()
}

fn some(s: &str) -> Option<Vec<u8>> {
    Some(s.as_bytes().to_vec())
}

fn string_of(element: Element) -> Vec<u8> {
    match element {
        Element::String(s) => s,
        other => panic!("expected a string, got {:?}", other),
    }
}

fn array_of(element: Element) -> Vec<Option<Vec<u8>>> {
    match element {
        Element::Array(a) => a,
        other => panic!("expected an array, got {:?}", other),
    }
}

fn fixnum(i: i64) -> Value {
    Value::from_int(i)
}

#[test]
fn to_a_length_string_pre_match() {
    let data = matched(r"(\d+)-(\d+)", "on 12-34!");
    assert_eq!(to_a::method(&data).unwrap(), vec![some("12-34"), some("12"), some("34")]);
    assert_eq!(to_a::method(&data).unwrap(), to_a::method(&data).unwrap());
    assert_eq!(length::method(&data).unwrap(), 3);
    assert_eq!(string::method(&data), b"on 12-34!");
    assert_eq!(pre_match::method(&data), b"on ");
}

#[test]
fn to_a_with_a_group_that_took_no_part() {
    let data = matched(r"(a)|(b)", "b");
    assert_eq!(to_a::method(&data).unwrap(), vec![some("b"), None, some("b")]);
    assert_eq!(length::method(&data).unwrap(), 3);
}

#[test]
fn to_a_of_a_region_that_does_not_match_is_fatal() {
    let data = MatchData::new(b"abc".to_vec(), ruby(r"\d"), 0, 3);
    let err = to_a::method(&data).unwrap_err();
    assert_eq!(err.kind(), Kind::Fatal);
    assert_eq!(err.message(), &b"MatchData region does not match its Regexp"[..]);
    assert_eq!(length::method(&data).unwrap(), 0);
    assert!(matches!(element_reference::method(&data, &fixnum(0), None).unwrap(), Element::Nil));
}

#[test]
fn element_by_index() {
    let data = matched(r"(\d+)-(\d+)", "12-34");
    assert_eq!(string_of(element_reference::method(&data, &fixnum(0), None).unwrap()), b"12-34");
    assert_eq!(string_of(element_reference::method(&data, &fixnum(1), None).unwrap()), b"12");
    assert_eq!(string_of(element_reference::method(&data, &fixnum(2), None).unwrap()), b"34");
    assert_eq!(string_of(element_reference::method(&data, &fixnum(-1), None).unwrap()), b"34");
    assert_eq!(string_of(element_reference::method(&data, &fixnum(-3), None).unwrap()), b"12-34");
    assert!(matches!(element_reference::method(&data, &fixnum(5), None).unwrap(), Element::Nil));
    assert!(matches!(element_reference::method(&data, &fixnum(3), None).unwrap(), Element::Nil));
    assert!(matches!(element_reference::method(&data, &fixnum(-4), None).unwrap(), Element::Nil));
}

#[test]
fn element_of_group_that_took_no_part_is_nil() {
    let data = matched(r"(a)|(b)", "b");
    assert!(matches!(element_reference::method(&data, &fixnum(1), None).unwrap(), Element::Nil));
    assert_eq!(string_of(element_reference::method(&data, &fixnum(2), None).unwrap()), b"b");
}

#[test]
fn element_by_name() {
    let data = matched(r"(?<year>\d{4})-(?<day>\d{2})", "2020-15");
    let year = element_reference::method(&data, &Value::from_str("year"), None).unwrap();
    assert_eq!(string_of(year), b"2020");
    let day = element_reference::method(&data, &Value::from_str("day"), None).unwrap();
    assert_eq!(string_of(day), b"15");
    let err = element_reference::method(&data, &Value::from_str("missing"), None).unwrap_err();
    assert_eq!(err.kind(), Kind::IndexError);
    assert_eq!(err.message(), &b"undefined group name reference: \"missing\""[..]);
}

#[test]
fn element_by_name_takes_the_last_group_that_matched() {
    let data = matched(r"(?<x>a)(?<x>b)?", "ac");
    let x = element_reference::method(&data, &Value::from_str("x"), None).unwrap();
    assert_eq!(string_of(x), b"a");
    let data = matched(r"(?<x>a)(?<x>b)?", "abc");
    let x = element_reference::method(&data, &Value::from_str("x"), None).unwrap();
    assert_eq!(string_of(x), b"b");
}

#[test]
fn region_is_matched_without_what_lies_around_it() {
    let data = matched(r"a(?=c)", "ac");
    assert_eq!(data.matched(), b"a");
    assert!(matches!(element_reference::method(&data, &fixnum(0), None).unwrap(), Element::Nil));
    assert_eq!(to_a::method(&data).unwrap_err().kind(), Kind::Fatal);
}

#[test]
fn element_by_start_and_length() {
    let data = matched(r"(a)(b)(c)", "abc");
    let got = element_reference::method(&data, &fixnum(1), Some(&fixnum(2))).unwrap();
    assert_eq!(array_of(got), vec![some("a"), some("b")]);
    let got = element_reference::method(&data, &fixnum(2), Some(&fixnum(10))).unwrap();
    assert_eq!(array_of(got), vec![some("b"), some("c")]);
    let got = element_reference::method(&data, &fixnum(-2), Some(&fixnum(1))).unwrap();
    assert_eq!(array_of(got), vec![some("b")]);
    let got = element_reference::method(&data, &fixnum(4), Some(&fixnum(1))).unwrap();
    assert!(array_of(got).is_empty());
    let got = element_reference::method(&data, &fixnum(9), Some(&fixnum(1))).unwrap();
    assert!(array_of(got).is_empty());
    let got = element_reference::method(&data, &fixnum(0), Some(&fixnum(0))).unwrap();
    assert!(array_of(got).is_empty());
    assert!(matches!(
        element_reference::method(&data, &fixnum(-5), Some(&fixnum(1))).unwrap(),
        Element::Nil
    ));
    assert!(matches!(
        element_reference::method(&data, &fixnum(1), Some(&fixnum(-1))).unwrap(),
        Element::Nil
    ));
    let err = element_reference::method(&data, &Value::from_str("a"), Some(&fixnum(1))).unwrap_err();
    assert_eq!(err.kind(), Kind::TypeError);
    assert_eq!(err.message(), &b"no implicit conversion of String into Integer"[..]);
}

#[test]
fn element_by_range() {
    let data = matched(r"(a)(b)(c)", "abc");
    let range = Value::range(fixnum(1), fixnum(2), false);
    let got = element_reference::method(&data, &range, None).unwrap();
    assert_eq!(array_of(got), vec![some("a"), some("b")]);
    let range = Value::range(fixnum(0), fixnum(-1), false);
    let got = element_reference::method(&data, &range, None).unwrap();
    assert_eq!(array_of(got), vec![some("abc"), some("a"), some("b"), some("c")]);
    let range = Value::range(fixnum(1), fixnum(3), true);
    let got = element_reference::method(&data, &range, None).unwrap();
    assert_eq!(array_of(got), vec![some("a"), some("b")]);
    let range = Value::range(fixnum(2), fixnum(100), false);
    let got = element_reference::method(&data, &range, None).unwrap();
    assert_eq!(array_of(got), vec![some("b"), some("c")]);
    let range = Value::range(fixnum(-9), fixnum(1), false);
    assert!(matches!(element_reference::method(&data, &range, None).unwrap(), Element::Nil));
    let range = Value::range(fixnum(5), fixnum(6), false);
    assert!(matches!(element_reference::method(&data, &range, None).unwrap(), Element::Nil));
}

#[test]
fn element_by_other_values_is_a_type_error() {
    let data = matched(r"(a)", "a");
    let err = element_reference::method(&data, &Value::nil(), None).unwrap_err();
    assert_eq!(err.kind(), Kind::TypeError);
    assert_eq!(err.message(), &b"no implicit conversion of nil into Integer"[..]);
    let err =
        element_reference::method(&data, &Value::new(Inner::Symbol(b"a".to_vec())), None)
            .unwrap_err();
    assert_eq!(err.message(), &b"no implicit conversion of Symbol into Integer"[..]);
}
