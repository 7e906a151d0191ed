use artichoke_backend::exception::Kind;
use artichoke_backend::regexp::backend::capture::extract;
use artichoke_backend::regexp::backend::names::{
    self, capture_indexes_for_name, last_captured, least_group, named_captures,
    named_captures_for,
};
use artichoke_backend::regexp::backend::position::{char_count, char_offset, start_offset};
use artichoke_backend::regexp::enc::Encoding;
use artichoke_backend::regexp::matching::{conclude, match_found, match_position};
use artichoke_backend::regexp::opts::Options;
use artichoke_backend::regexp::scan::{advance, width_at, Advance};
use artichoke_backend::regexp::{Config, Globals, Regexp};

fn some(s: &str) -> Option<Vec<u8>> {
    Some(s.as_bytes().to_vec())
}

fn compile(pattern: &str) -> Regexp {
    let config = Config::new(pattern.as_bytes().to_vec(), Options::default());
    Regexp::new(config.dup(), config, Encoding::Unset).unwrap()
}

#[test]
fn extract_takes_the_bytes_of_each_span() {
    let slots = vec![Some((1, 4)), None, Some((4, 4)), Some((0, 5))];
    assert_eq!(
        extract(b"hello", &slots).unwrap(),
        vec![some("ell"), None, some(""), some("hello")]
    );
    assert_eq!(extract(b"hello", &vec![]).unwrap(), Vec::<Option<Vec<u8>>>::new());
}

#[test]
fn extract_refuses_spans_outside_the_haystack() {
    let err = extract(b"hello", &vec![Some((1, 6))]).unwrap_err();
    assert_eq!(err.kind(), Kind::Fatal);
    assert_eq!(err.message(), &b"Capture lies outside of the haystack"[..]);
    let err = extract(b"hello", &vec![Some((0, 1)), Some((3, 2))]).unwrap_err();
    assert_eq!(err.kind(), Kind::Fatal);
}

#[test]
fn conclude_publishes_a_match() {
    let mut globals = Globals::new();
    let found = Some(vec![Some((1, 3)), None, Some((2, 3))]);
    let data = conclude(compile("x"), &mut globals, b"..abcd", 2, found).unwrap().unwrap();
    assert_eq!((data.region().start, data.region().end), (3, 5));
    assert_eq!(data.haystack(), b"..abcd");
    assert_eq!(globals.last_matched_string(), Some(&b"bc"[..]));
    assert_eq!(globals.nth_match_group(1), None);
    assert_eq!(globals.nth_match_group(2), Some(&b"c"[..]));
    assert_eq!(globals.string_left_of_match(), Some(&b"..a"[..]));
    assert_eq!(globals.string_right_of_match(), Some(&b"d"[..]));
    assert_eq!(globals.active_regexp_globals(), 3);
    assert_eq!(globals.last_match().unwrap().matched(), b"bc");
}

#[test]
fn conclude_without_a_match_or_with_bad_spans() {
    let mut globals = Globals::new();
    assert!(conclude(compile("x"), &mut globals, b"abc", 0, Some(vec![Some((0, 1))]))
        .unwrap()
        .is_some());
    assert!(conclude(compile("x"), &mut globals, b"abc", 1, None).unwrap().is_none());
    assert!(globals.last_match().is_none());
    assert_eq!(globals.string_left_of_match(), None);

    let err = conclude(compile("x"), &mut globals, b"abc", 2, Some(vec![Some((0, 2))]))
        .unwrap_err();
    assert_eq!(err.kind(), Kind::Fatal);

    let whole = conclude(compile("x"), &mut globals, b"abc", 1, Some(vec![None]))
        .unwrap()
        .unwrap();
    assert_eq!((whole.region().start, whole.region().end), (0, 3));
    assert_eq!(globals.last_matched_string(), None);
    let whole = conclude(compile("x"), &mut globals, b"abc", 1, Some(vec![])).unwrap().unwrap();
    assert_eq!((whole.region().start, whole.region().end), (0, 3));
    assert_eq!(globals.active_regexp_globals(), 0);
}

#[test]
fn match_results() {
    let mut globals = Globals::new();
    let found = conclude(compile("x"), &mut globals, b"abc", 1, Some(vec![Some((1, 2))]));
    assert_eq!(match_position(found).unwrap(), Some(2));
    let found = conclude(compile("x"), &mut globals, b"abc", 1, Some(vec![Some((1, 2))]));
    assert!(match_found(found).unwrap());
    let none = conclude(compile("x"), &mut globals, b"abc", 1, None);
    assert_eq!(match_position(none).unwrap(), None);
    let none = conclude(compile("x"), &mut globals, b"abc", 1, None);
    assert!(!match_found(none).unwrap());
    let bad = conclude(compile("x"), &mut globals, b"abc", 1, Some(vec![Some((1, 9))]));
    assert_eq!(match_position(bad).unwrap_err().kind(), Kind::Fatal);
}

#[test]
fn advance_of_a_scan() {
    let hay = "aé".as_bytes();
    assert_eq!(advance(hay, 0, None, None).unwrap(), Advance::Stop);
    assert_eq!(advance(hay, 0, None, Some(&vec![Some((0, 1))])).unwrap(), Advance::Take(1));
    assert_eq!(advance(hay, 0, None, Some(&vec![Some((0, 0))])).unwrap(), Advance::Take(0));
    assert_eq!(advance(hay, 0, Some(0), Some(&vec![Some((0, 0))])).unwrap(), Advance::Skip(1));
    assert_eq!(advance(hay, 1, Some(1), Some(&vec![Some((1, 1))])).unwrap(), Advance::Skip(3));
    assert_eq!(advance(hay, 1, Some(1), Some(&vec![Some((3, 3))])).unwrap(), Advance::Take(3));
    assert_eq!(advance(hay, 3, Some(3), Some(&vec![Some((3, 3))])).unwrap(), Advance::Skip(4));
    assert_eq!(advance(hay, 1, Some(1), Some(&vec![Some((1, 3)), None])).unwrap(), Advance::Take(3));
}

#[test]
fn advance_refuses_matches_behind_or_outside() {
    let hay = b"abc";
    for slots in [
        vec![Some((0, 1))],
        vec![Some((2, 1))],
        vec![Some((1, 4))],
        vec![None, Some((1, 2))],
        vec![],
    ] {
        let err = advance(hay, 1, None, Some(&slots)).unwrap_err();
        assert_eq!(err.kind(), Kind::Fatal);
        assert_eq!(err.message(), &b"Capture lies outside of the haystack"[..]);
    }
}

#[test]
fn widths_of_characters() {
    let hay = "a¢€😀".as_bytes();
    assert_eq!(width_at(hay, 0), 1);
    assert_eq!(width_at(hay, 1), 2);
    assert_eq!(width_at(hay, 3), 3);
    assert_eq!(width_at(hay, 6), 4);
    assert_eq!(width_at(hay, 2), 1);
    assert_eq!(width_at(hay, 10), 1);
    assert_eq!(width_at(hay, 99), 1);
}

#[test]
fn characters_and_offsets() {
    let hay = "a¢€😀z".as_bytes();
    assert_eq!(char_count(hay), 5);
    assert_eq!(char_count(b""), 0);
    assert_eq!(char_offset(hay, 0), 0);
    assert_eq!(char_offset(hay, 1), 1);
    assert_eq!(char_offset(hay, 2), 3);
    assert_eq!(char_offset(hay, 3), 6);
    assert_eq!(char_offset(hay, 4), 10);
    assert_eq!(char_offset(hay, 5), 11);
    assert_eq!(char_offset(hay, 50), 11);
    assert_eq!(start_offset(hay, None).unwrap(), Some(0));
    assert_eq!(start_offset(hay, Some(3)).unwrap(), Some(6));
    assert_eq!(start_offset(hay, Some(-1)).unwrap(), Some(10));
    assert_eq!(start_offset(hay, Some(-5)).unwrap(), Some(0));
    assert_eq!(start_offset(hay, Some(-6)).unwrap(), None);
    assert_eq!(start_offset(hay, Some(i64::MIN)).unwrap(), None);
    assert_eq!(start_offset(hay, Some(i64::MAX)).unwrap(), Some(11));
}

fn table() -> Vec<(Vec<u8>, Vec<usize>)> {
    vec![
        (b"late".to_vec(), vec![5, 3]),
        (b"early".to_vec(), vec![1, 4]),
        (b"none".to_vec(), vec![]),
        (b"mid".to_vec(), vec![2]),
        (b"early".to_vec(), vec![6]),
    ]
}

#[test]
fn names_are_ordered_by_their_least_group() {
    assert_eq!(
        names::names(&table()),
        vec![b"early".to_vec(), b"mid".to_vec(), b"late".to_vec(), b"none".to_vec()]
    );
    assert!(names::names(&vec![]).is_empty());
    assert_eq!(least_group(&vec![5, 3, 9]), 3);
    assert_eq!(least_group(&vec![]), usize::MAX);
    assert!(names::contains(&vec![b"a".to_vec()], b"a"));
    assert!(!names::contains(&vec![b"a".to_vec()], b"b"));
}

#[test]
fn indexes_of_a_name() {
    assert_eq!(capture_indexes_for_name(&table(), b"early"), Some(vec![1, 4]));
    assert_eq!(capture_indexes_for_name(&table(), b"none"), Some(vec![]));
    assert_eq!(capture_indexes_for_name(&table(), b"other"), None);
}

#[test]
fn named_captures_as_integers() {
    assert_eq!(
        named_captures(&table()).unwrap(),
        vec![
            (b"late".to_vec(), vec![5, 3]),
            (b"early".to_vec(), vec![1, 4]),
            (b"none".to_vec(), vec![]),
            (b"mid".to_vec(), vec![2]),
            (b"early".to_vec(), vec![6]),
        ]
    );
    let huge = vec![(b"x".to_vec(), vec![1, usize::MAX])];
    let err = named_captures(&huge).unwrap_err();
    assert_eq!(err.kind(), Kind::Fatal);
    assert_eq!(
        err.message(),
        &b"Regexp#named_captures group index does not fit in Integer max"[..]
    );
}

#[test]
fn last_capture_of_a_name() {
    let captures = vec![some("whole"), some("a"), None, some("c"), None];
    assert_eq!(last_captured(&captures, &vec![1, 3]), Some(&b"c"[..]));
    assert_eq!(last_captured(&captures, &vec![3, 1]), Some(&b"a"[..]));
    assert_eq!(last_captured(&captures, &vec![1, 2]), Some(&b"a"[..]));
    assert_eq!(last_captured(&captures, &vec![2, 4, 9]), None);
    assert_eq!(last_captured(&captures, &vec![]), None);
    assert_eq!(
        named_captures_for(&table(), &captures),
        vec![
            (b"late".to_vec(), some("c")),
            (b"early".to_vec(), some("a")),
            (b"none".to_vec(), None),
            (b"mid".to_vec(), None),
            (b"early".to_vec(), None),
        ]
    );
}
