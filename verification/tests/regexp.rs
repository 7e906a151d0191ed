use artichoke_backend::exception::Kind;
use artichoke_backend::matchdata::MatchData;
use artichoke_backend::regexp::backend::onig::Onig;
use artichoke_backend::regexp::backend::regex_utf8::RegexUtf8;
use artichoke_backend::regexp::enc::{self, Encoding};
use artichoke_backend::regexp::opts::{self, Options};
use artichoke_backend::regexp::scan::{Scan, Scanned};
use artichoke_backend::regexp::syntax;
use artichoke_backend::regexp::{
    nth_match_group, Backend, Config, Globals, Regexp, RegexpType, EXTENDED, FIXEDENCODING,
    IGNORECASE, LAST_MATCH, LITERAL, MULTILINE, NOENCODING,
};
use artichoke_backend::value::{Block, Inner, Source, Value};

fn config(pattern: &str) -> Config {
    Config::new(pattern.as_bytes().to_vec(), Options::default())
}

fn compile(pattern: &str) -> Regexp {
    Regexp::new(config(pattern), config(pattern), Encoding::Unset).unwrap()
}

fn ruby(pattern: &str) -> Regexp {
    Regexp::initialize(&Value::from_str(pattern), None, None).unwrap().regexp
}

fn some(s: &str) -> Option<Vec<u8>> {
    Some(s.as_bytes().to_vec())
}

fn is_onig(regexp: &Regexp) -> bool {
    matches!(regexp.inner(), Backend::Onig(_))
}

fn is_utf8(regexp: &Regexp) -> bool {
    matches!(regexp.inner(), Backend::RegexUtf8(_))
}

#[test]
fn literal_config_round_trips() {
    let literal = Config::new(b"a(b)c".to_vec(), Options { ignore_case: true, ..Options::default() });
    let derived = Config::new(b"(?i-mx:a(b)c)".to_vec(), Options { ignore_case: true, ..Options::default() });
    let regexp = Regexp::new(literal.dup(), derived.dup(), Encoding::Fixed).unwrap();
    assert_eq!(regexp.inner().literal_config(), &literal);
    assert_eq!(regexp.inner().derived_config(), &derived);
    assert_eq!(regexp.inner().encoding(), Encoding::Fixed);
    assert_eq!(regexp.source(), b"a(b)c");
    assert_eq!(regexp.string(), b"(?i-mx:a(b)c)");
}

#[test]
fn fast_engine_is_preferred() {
    let regexp = compile(r"(\d+)-(\d+)");
    assert!(is_utf8(&regexp));
}

#[test]
fn fast_engine_takes_patterns_in_an_option_group() {
    assert!(is_utf8(&ruby("abc")));
    assert!(is_utf8(&ruby(r"(\d+)-(\d+)")));
    let made = Regexp::initialize(
        &Value::from_str("a . c"),
        Some(&Value::from_int(IGNORECASE | EXTENDED | MULTILINE)),
        None,
    )
    .unwrap();
    assert_eq!(made.regexp.string(), b"(?mix:a . c)");
    assert!(is_utf8(&made.regexp));
    assert!(made.regexp.is_match(&Value::from_str("xA-Cx"), None).unwrap());
    assert!(!made.regexp.is_match(&Value::from_str("a - c"), None).unwrap());
}

#[test]
fn general_engine_is_the_fallback() {
    let regexp = compile(r"(a)(?=b)");
    assert!(is_onig(&regexp));
    let captures = regexp.inner().captures(b"xab").unwrap().unwrap();
    assert_eq!(captures, vec![some("a"), some("a")]);
    let fast = compile(r"(a)b");
    assert!(is_utf8(&fast));
    let captures = fast.inner().captures(b"xab").unwrap().unwrap();
    assert_eq!(captures, vec![some("ab"), some("a")]);
    assert_eq!(regexp.inner().captures(b"xa").unwrap(), None);
    assert_eq!(fast.inner().captures(b"xa").unwrap(), None);
}

#[test]
fn pattern_that_both_engines_reject() {
    let err = Regexp::new(config("(unclosed"), config("(unclosed"), Encoding::Unset).unwrap_err();
    assert_eq!(err.kind(), Kind::RegexpError);
    assert_eq!(err.message(), &b"end pattern with unmatched parenthesis"[..]);

    let literal = Config::new(b"(unclosed".to_vec(), Options { literal: true, ..Options::default() });
    let err = Regexp::new(literal.dup(), literal, Encoding::Unset).unwrap_err();
    assert_eq!(err.kind(), Kind::SyntaxError);
    assert_eq!(err.message(), &b"end pattern with unmatched parenthesis"[..]);
}

#[test]
fn pattern_that_is_not_utf8() {
    let bad = Config::new(b"\xff".to_vec(), Options::default());
    let err = Regexp::new(bad.dup(), bad.dup(), Encoding::Unset).unwrap_err();
    assert_eq!(err.kind(), Kind::ArgumentError);
    assert_eq!(
        err.message(),
        &b"Oniguruma backend for Regexp only supports UTF-8 patterns"[..]
    );
    let err = Onig::new(bad.dup(), bad.dup(), Encoding::Unset).unwrap_err();
    assert_eq!(err.kind(), Kind::ArgumentError);
    let err = RegexUtf8::new(bad.dup(), bad, Encoding::Unset).unwrap_err();
    assert_eq!(err.kind(), Kind::ArgumentError);
    assert_eq!(
        err.message(),
        &b"regex crate utf8 backend for Regexp only supports UTF-8 patterns"[..]
    );
}

#[test]
fn both_engines_directly() {
    let onig = Onig::new(config(r"(\w)(\d)?"), config(r"(\w)(\d)?"), Encoding::Unset).unwrap();
    let utf8 = RegexUtf8::new(config(r"(\w)(\d)?"), config(r"(\w)(\d)?"), Encoding::Unset).unwrap();
    assert_eq!(onig.captures(b" a").unwrap().unwrap(), vec![some("a"), some("a"), None]);
    assert_eq!(utf8.captures(b" a").unwrap().unwrap(), vec![some("a"), some("a"), None]);
    assert_eq!(onig.captures_len(None).unwrap(), 2);
    assert_eq!(utf8.captures_len(None).unwrap(), 2);
    assert_eq!(onig.captures_len(Some(b"a1")).unwrap(), 3);
    assert_eq!(utf8.captures_len(Some(b"a1")).unwrap(), 3);
    assert_eq!(onig.captures_len(Some(b"  ")).unwrap(), 0);
    assert_eq!(utf8.captures_len(Some(b"  ")).unwrap(), 0);
    assert_eq!(onig.capture0(b"..b2").unwrap(), Some(&b"b2"[..]));
    assert_eq!(utf8.capture0(b"..b2").unwrap(), Some(&b"b2"[..]));
    assert_eq!(onig.capture0(b"..").unwrap(), None);
    assert_eq!(onig.pos(b"..b2", 0).unwrap(), Some((2, 4)));
    assert_eq!(utf8.pos(b"..b2", 2).unwrap(), Some((3, 4)));
    assert_eq!(utf8.pos(b"..b", 2).unwrap(), None);
    assert_eq!(utf8.pos(b"..b2", 9).unwrap(), None);
    assert_eq!(onig.string(), br"(\w)(\d)?");
    assert_eq!(onig.box_clone().source(), br"(\w)(\d)?");
}

#[test]
fn haystack_that_is_not_utf8() {
    let regexp = compile("a");
    let err = regexp.inner().captures(b"\xff").unwrap_err();
    assert_eq!(err.kind(), Kind::ArgumentError);
    assert_eq!(
        err.message(),
        &b"regex crate utf8 backend for Regexp only supports UTF-8 haystacks"[..]
    );
    let regexp = compile("a(?=b)");
    let err = regexp.inner().is_match(b"\xff", None).unwrap_err();
    assert_eq!(
        err.message(),
        &b"Oniguruma backend for Regexp only supports UTF-8 haystacks"[..]
    );
    let mut globals = Globals::new();
    assert!(regexp.inner().match_(&mut globals, b"\xff", None).is_err());
    assert!(regexp.inner().scan(&mut globals, &Value::from_bytes(b"\xff"), None).is_err());
}

#[test]
fn captures_are_the_same_for_every_call() {
    let regexp = ruby(r"(\d+)-(\d+)");
    let first = regexp.inner().captures(b"12-34").unwrap();
    let second = regexp.inner().captures(b"12-34").unwrap();
    assert_eq!(first, second);
    assert_eq!(first, Some(vec![some("12-34"), some("12"), some("34")]));
}

#[test]
fn match_publishes_globals() {
    let regexp = ruby(r"(\d+)-(\d+)");
    let mut globals = Globals::new();
    let data = regexp.match_(&mut globals, &Value::from_str("12-34"), None).unwrap().unwrap();
    assert_eq!(
        artichoke_backend::matchdata::to_a::method(&data).unwrap(),
        vec![some("12-34"), some("12"), some("34")]
    );
    assert_eq!(globals.nth_match_group(1), Some(&b"12"[..]));
    assert_eq!(globals.nth_match_group(2), Some(&b"34"[..]));
    assert_eq!(globals.nth_match_group(3), None);
    assert_eq!(globals.nth_match_group(0), None);
    assert_eq!(globals.string_left_of_match(), Some(&b""[..]));
    assert_eq!(globals.string_right_of_match(), Some(&b""[..]));
    assert_eq!(globals.last_matched_string(), Some(&b"12-34"[..]));
    assert_eq!(globals.active_regexp_globals(), 3);
    let last = globals.last_match().unwrap();
    assert_eq!(last.haystack(), b"12-34");
    assert_eq!((last.region().start, last.region().end), (0, 5));
}

#[test]
fn globals_by_name() {
    let regexp = ruby(r"(b)(x)?(c)");
    let mut globals = Globals::new();
    assert_eq!(
        globals.named(0),
        vec![(b"$&".to_vec(), None), (b"$`".to_vec(), None), (b"$'".to_vec(), None)]
    );
    assert!(regexp.match_(&mut globals, &Value::from_str("abcd"), None).unwrap().is_some());
    assert_eq!(
        globals.named(0),
        vec![
            (b"$&".to_vec(), some("bc")),
            (b"$`".to_vec(), some("a")),
            (b"$'".to_vec(), some("d")),
            (b"$1".to_vec(), some("b")),
            (b"$2".to_vec(), None),
            (b"$3".to_vec(), some("c")),
            (b"$4".to_vec(), None),
        ]
    );
    let stale = globals.active_regexp_globals();
    assert!(ruby("z").match_(&mut globals, &Value::from_str("abcd"), None).unwrap().is_none());
    assert_eq!(
        globals.named(stale),
        vec![
            (b"$&".to_vec(), None),
            (b"$`".to_vec(), None),
            (b"$'".to_vec(), None),
            (b"$1".to_vec(), None),
            (b"$2".to_vec(), None),
            (b"$3".to_vec(), None),
            (b"$4".to_vec(), None),
        ]
    );
    assert_eq!(globals.named(0).len(), 3);
}

#[test]
fn match_with_text_around() {
    let regexp = ruby(r"b(c)?");
    let mut globals = Globals::new();
    let data = regexp.match_(&mut globals, &Value::from_str("aabdd"), None).unwrap().unwrap();
    assert_eq!((data.region().start, data.region().end), (2, 3));
    assert_eq!(data.matched(), b"b");
    assert_eq!(globals.string_left_of_match(), Some(&b"aa"[..]));
    assert_eq!(globals.string_right_of_match(), Some(&b"dd"[..]));
    assert_eq!(globals.last_matched_string(), Some(&b"b"[..]));
    assert_eq!(globals.nth_match_group(1), None);
    assert_eq!(globals.active_regexp_globals(), 2);
}

#[test]
fn failed_match_clears_globals() {
    let regexp = ruby(r"(\d+)");
    let mut globals = Globals::new();
    assert!(regexp.match_(&mut globals, &Value::from_str("a1"), None).unwrap().is_some());
    assert!(globals.last_match().is_some());
    let none = regexp.match_(&mut globals, &Value::from_str("abc"), None).unwrap();
    assert!(none.is_none());
    assert!(globals.last_match().is_none());
    assert_eq!(globals.string_left_of_match(), None);
    assert_eq!(globals.string_right_of_match(), None);
    assert_eq!(globals.nth_match_group(1), None);
    assert_eq!(globals.active_regexp_globals(), 0);
    assert_eq!(globals.last_matched_string(), None);
}

#[test]
fn match_from_a_position() {
    let regexp = ruby(r"b");
    let mut globals = Globals::new();
    let data = regexp
        .match_(&mut globals, &Value::from_str("abcabc"), Some(&Value::from_int(2)))
        .unwrap()
        .unwrap();
    assert_eq!((data.region().start, data.region().end), (4, 5));
    assert_eq!(globals.string_left_of_match(), Some(&b"abca"[..]));
    assert_eq!(globals.string_right_of_match(), Some(&b"c"[..]));

    let data = regexp
        .match_(&mut globals, &Value::from_str("abcabc"), Some(&Value::from_int(-5)))
        .unwrap()
        .unwrap();
    assert_eq!((data.region().start, data.region().end), (1, 2));

    let none = regexp
        .match_(&mut globals, &Value::from_str("abcabc"), Some(&Value::from_int(-7)))
        .unwrap();
    assert!(none.is_none());
    assert!(globals.last_match().is_none());

    let none = regexp
        .match_(&mut globals, &Value::from_str("abcabc"), Some(&Value::from_int(5)))
        .unwrap();
    assert!(none.is_none());
    let none = regexp
        .match_(&mut globals, &Value::from_str("abcabc"), Some(&Value::from_int(50)))
        .unwrap();
    assert!(none.is_none());
}

#[test]
fn position_counts_characters() {
    let regexp = ruby(r".");
    let mut globals = Globals::new();
    let haystack = Value::from_str("héllo");
    let data = regexp.match_(&mut globals, &haystack, Some(&Value::from_int(2))).unwrap().unwrap();
    assert_eq!((data.region().start, data.region().end), (3, 4));
    assert_eq!(data.matched(), b"l");
    let data = regexp.match_(&mut globals, &haystack, Some(&Value::from_int(1))).unwrap().unwrap();
    assert_eq!(data.matched(), "é".as_bytes());
    let data = regexp.match_(&mut globals, &haystack, Some(&Value::from_int(-4))).unwrap().unwrap();
    assert_eq!(data.matched(), "é".as_bytes());
}

#[test]
fn match_of_nil_and_of_other_values() {
    let regexp = ruby(r"a");
    let mut globals = Globals::new();
    assert!(regexp.match_(&mut globals, &Value::from_str("a"), None).unwrap().is_some());
    assert!(regexp.match_(&mut globals, &Value::nil(), None).unwrap().is_none());
    assert!(globals.last_match().is_none());
    assert_eq!(globals.last_matched_string(), Some(&b"a"[..]));

    let err = regexp.match_(&mut globals, &Value::from_int(1), None).unwrap_err();
    assert_eq!(err.kind(), Kind::TypeError);
    assert_eq!(err.message(), &b"no implicit conversion of Fixnum into String"[..]);
    let err = regexp
        .match_(&mut globals, &Value::from_str("a"), Some(&Value::from_str("x")))
        .unwrap_err();
    assert_eq!(err.kind(), Kind::TypeError);
    assert_eq!(err.message(), &b"no implicit conversion of String into Integer"[..]);
}

#[test]
fn is_match_publishes_nothing() {
    let regexp = ruby(r"b+");
    assert!(regexp.is_match(&Value::from_str("abbc"), None).unwrap());
    assert!(!regexp.is_match(&Value::from_str("ac"), None).unwrap());
    assert!(!regexp.is_match(&Value::nil(), None).unwrap());
    assert!(regexp.is_match(&Value::from_str("abbc"), Some(&Value::from_int(2))).unwrap());
    assert!(!regexp.is_match(&Value::from_str("abbc"), Some(&Value::from_int(3))).unwrap());
    assert!(regexp.is_match(&Value::from_str("abbc"), Some(&Value::from_int(-2))).unwrap());
    assert!(!regexp.is_match(&Value::from_str("abbc"), Some(&Value::from_int(-9))).unwrap());
    let err = regexp.is_match(&Value::from_int(3), None).unwrap_err();
    assert_eq!(err.message(), &b"no implicit conversion of Fixnum into String"[..]);
    let err = regexp.is_match(&Value::from_str("a"), Some(&Value::nil())).unwrap_err();
    assert_eq!(err.message(), &b"no implicit conversion of nil into Integer"[..]);
}

#[test]
fn match_operator_gives_the_offset() {
    let regexp = ruby(r"c(d)");
    let mut globals = Globals::new();
    assert_eq!(regexp.match_operator(&mut globals, &Value::from_str("abcd")).unwrap(), Some(2));
    assert_eq!(globals.nth_match_group(1), Some(&b"d"[..]));
    assert_eq!(globals.string_left_of_match(), Some(&b"ab"[..]));
    assert_eq!(regexp.match_operator(&mut globals, &Value::from_str("abc")).unwrap(), None);
    assert!(globals.last_match().is_none());
    assert_eq!(regexp.match_operator(&mut globals, &Value::nil()).unwrap(), None);
    let err = regexp.match_operator(&mut globals, &Value::from_int(1)).unwrap_err();
    assert_eq!(err.kind(), Kind::TypeError);
}

#[test]
fn case_compare_publishes_the_match() {
    let regexp = ruby(r"c(d)");
    let mut globals = Globals::new();
    assert!(regexp.case_compare(&mut globals, &Value::from_str("abcd")).unwrap());
    let last = globals.last_match().unwrap();
    assert_eq!((last.region().start, last.region().end), (2, 4));
    assert_eq!(globals.nth_match_group(1), Some(&b"d"[..]));
    assert!(!regexp.case_compare(&mut globals, &Value::from_str("ab")).unwrap());
    assert!(globals.last_match().is_none());
    assert!(regexp.case_compare(&mut globals, &Value::from_str("cd")).unwrap());
    assert!(!regexp.case_compare(&mut globals, &Value::from_int(1)).unwrap());
    assert!(globals.last_match().is_none());
    assert_eq!(globals.nth_match_group(1), Some(&b"d"[..]));
}

#[test]
fn scan_without_groups() {
    let regexp = ruby(r"\d");
    let mut globals = Globals::new();
    let scan = regexp.inner().scan(&mut globals, &Value::from_str("a1b2"), None).unwrap();
    match scan {
        Scan::Collected(values) => {
            assert_eq!(values.len(), 2);
            assert!(matches!(&values[0], Scanned::Match(m) if m == b"1"));
            assert!(matches!(&values[1], Scanned::Match(m) if m == b"2"));
        }
        Scan::Yield(_) => panic!("no block was given"),
    }
    let last = globals.last_match().unwrap();
    assert_eq!((last.region().start, last.region().end), (3, 4));
    assert_eq!(globals.last_matched_string(), Some(&b"2"[..]));
    assert_eq!(globals.string_left_of_match(), Some(&b"a1b"[..]));
    assert_eq!(globals.nth_match_group(1), None);
}

#[test]
fn scan_with_a_block() {
    let regexp = ruby(r"\d");
    let mut globals = Globals::new();
    let block = Block::new(Value::from_int(1)).unwrap();
    let scan = regexp.inner().scan(&mut globals, &Value::from_str("a1b2"), Some(&block)).unwrap();
    let steps = match scan {
        Scan::Yield(steps) => steps,
        Scan::Collected(_) => panic!("a block was given"),
    };
    assert_eq!(steps.len(), 2);
    assert!(globals.last_match().is_none());
    let mut seen = Vec::new();
    for step in &steps {
        globals.publish(&step.matched, &step.captures);
        let bound = globals.last_match().unwrap();
        assert_eq!(bound.region().end - bound.region().start, 1);
        seen.push(bound.matched().to_vec());
        assert!(matches!(&step.value, Scanned::Match(m) if m == bound.matched()));
        // a match inside the block
        let inner = ruby("zz");
        assert!(inner.match_(&mut globals, &Value::from_str("q"), None).unwrap().is_none());
        assert!(globals.last_match().is_none());
        globals.restore_last_match(&step.matched);
        assert_eq!(globals.last_match().unwrap().matched(), step.matched.matched());
    }
    assert_eq!(seen, vec![b"1".to_vec(), b"2".to_vec()]);
}

#[test]
fn scan_with_groups() {
    let regexp = ruby(r"(\w)(\d)?");
    let mut globals = Globals::new();
    let scan = regexp.inner().scan(&mut globals, &Value::from_str("a1 b"), None).unwrap();
    match scan {
        Scan::Collected(values) => {
            assert_eq!(values.len(), 2);
            assert!(matches!(&values[0], Scanned::Groups(g) if g == &vec![some("a"), some("1")]));
            assert!(matches!(&values[1], Scanned::Groups(g) if g == &vec![some("b"), None]));
        }
        Scan::Yield(_) => panic!("no block was given"),
    }
    assert_eq!(globals.nth_match_group(1), Some(&b"b"[..]));
    assert_eq!(globals.nth_match_group(2), None);
    assert_eq!(globals.last_matched_string(), Some(&b"b"[..]));
}

#[test]
fn scan_without_a_match() {
    let regexp = ruby(r"\d");
    let mut globals = Globals::new();
    assert!(regexp.match_(&mut globals, &Value::from_str("1"), None).unwrap().is_some());
    let scan = regexp.inner().scan(&mut globals, &Value::from_str("abc"), None).unwrap();
    assert!(matches!(scan, Scan::Collected(values) if values.is_empty()));
    assert!(globals.last_match().is_none());
    let block = Block::new(Value::from_int(1)).unwrap();
    let scan = regexp.inner().scan(&mut globals, &Value::from_str("abc"), Some(&block)).unwrap();
    assert!(matches!(scan, Scan::Yield(steps) if steps.is_empty()));
}

#[test]
fn scan_passes_over_empty_matches() {
    let regexp = ruby(r"x*");
    let mut globals = Globals::new();
    let scan = regexp.inner().scan(&mut globals, &Value::from_str("axxé"), None).unwrap();
    let values = match scan {
        Scan::Collected(values) => values,
        Scan::Yield(_) => panic!("no block was given"),
    };
    let matched: Vec<Vec<u8>> = values
        .iter()
        .map(|value| match value {
            Scanned::Match(m) => m.clone(),
            Scanned::Groups(_) => panic!("the pattern has no groups"),
        })
        .collect();
    assert_eq!(matched, vec![b"".to_vec(), b"xx".to_vec(), b"".to_vec()]);
    let last = globals.last_match().unwrap();
    assert_eq!((last.region().start, last.region().end), (5, 5));
}

#[test]
fn scan_with_the_general_engine() {
    let regexp = ruby(r"\d(?=b)|x*");
    assert!(is_onig(&regexp));
    let mut globals = Globals::new();
    let scan = regexp.inner().scan(&mut globals, &Value::from_str("1bxx"), None).unwrap();
    let values = match scan {
        Scan::Collected(values) => values,
        Scan::Yield(_) => panic!("no block was given"),
    };
    let matched: Vec<Vec<u8>> = values
        .iter()
        .map(|value| match value {
            Scanned::Match(m) => m.clone(),
            Scanned::Groups(_) => panic!("the pattern has no groups"),
        })
        .collect();
    assert_eq!(matched, vec![b"1".to_vec(), b"xx".to_vec()]);
}

#[test]
fn scan_of_a_value_that_is_no_string() {
    let regexp = ruby(r"\d");
    let mut globals = Globals::new();
    let err = regexp.inner().scan(&mut globals, &Value::from_int(1), None).unwrap_err();
    assert_eq!(err.kind(), Kind::ArgumentError);
    assert_eq!(err.message(), &b"Regexp scan expected String haystack"[..]);
}

#[test]
fn union_of_nothing_never_matches() {
    let regexp = Regexp::union(&[]).unwrap();
    assert_eq!(regexp.source(), b"(?!)");
    assert!(is_onig(&regexp));
    assert!(!regexp.is_match(&Value::from_str(""), None).unwrap());
    assert!(!regexp.is_match(&Value::from_str("anything (?!)"), None).unwrap());
    let mut globals = Globals::new();
    assert!(regexp.match_(&mut globals, &Value::from_str("abc"), None).unwrap().is_none());
}

fn regexp_value(pattern: &str) -> Value {
    Value::new(Inner::Regexp(Source {
        literal: config(pattern),
        derived: config(pattern),
        encoding: Encoding::Unset,
    }))
}

#[test]
fn union_of_strings_and_regexps() {
    let regexp =
        Regexp::union(&[Value::from_str("a.b"), regexp_value(r"\d+"), Value::from_str("c")])
            .unwrap();
    assert_eq!(regexp.source(), br"a\.b|\d+|c");
    assert_eq!(regexp.string(), br"(?-mix:a\.b|\d+|c)");
    assert!(regexp.is_match(&Value::from_str("a.b"), None).unwrap());
    assert!(!regexp.is_match(&Value::from_str("axb"), None).unwrap());
    assert!(regexp.is_match(&Value::from_str("42"), None).unwrap());

    let regexp = Regexp::union(&[Value::from_str("a|b")]).unwrap();
    assert_eq!(regexp.source(), br"a\|b");
    let regexp = Regexp::union(&[regexp_value("x+")]).unwrap();
    assert_eq!(regexp.source(), b"x+");

    let array = Value::from_values(vec![Value::from_str("a+"), regexp_value("b+")]);
    let regexp = Regexp::union(&[array]).unwrap();
    assert_eq!(regexp.source(), br"a\+|b+");
    let regexp = Regexp::union(&[Value::from_values(vec![])]).unwrap();
    assert_eq!(regexp.source(), b"");
}

#[test]
fn union_errors() {
    let err = Regexp::union(&[Value::from_int(1)]).unwrap_err();
    assert_eq!(err.kind(), Kind::TypeError);
    assert_eq!(err.message(), &b"No implicit conversion into String"[..]);
    let err = Regexp::union(&[Value::from_values(vec![Value::nil()])]).unwrap_err();
    assert_eq!(err.message(), &b"No implicit conversion into String"[..]);
    let err = Regexp::union(&[Value::from_str("a"), Value::from_int(1)]).unwrap_err();
    assert_eq!(err.kind(), Kind::TypeError);
    assert_eq!(err.message(), &b"no implicit conversion into String"[..]);
    let err = Regexp::union(&[Value::from_str("a"), Value::from_bytes(b"\xff")]).unwrap_err();
    assert_eq!(err.kind(), Kind::ArgumentError);
    assert_eq!(err.message(), &b"Self::union only supports UTF-8 patterns"[..]);
    let err = Regexp::union(&[Value::from_bytes(b"\xff")]).unwrap_err();
    assert_eq!(err.kind(), Kind::TypeError);
}

#[test]
fn escape_patterns() {
    assert_eq!(Regexp::escape(&Value::from_str("a.b*c")).unwrap(), br"a\.b\*c");
    assert_eq!(
        Regexp::escape(&Value::from_str("[]{}()|-*.\\?+^$# \n\t\r\x0b\x0c")).unwrap(),
        br"\[\]\{\}\(\)\|\-\*\.\\\?\+\^\$\#\ \n\t\r\v\f"
    );
    assert_eq!(Regexp::escape(&Value::from_str("héllo/")).unwrap(), "héllo/".as_bytes());
    assert_eq!(syntax::escape(b""), b"");
    let err = Regexp::escape(&Value::from_int(1)).unwrap_err();
    assert_eq!(err.kind(), Kind::TypeError);
    assert_eq!(err.message(), &b"No implicit conversion into String"[..]);
    let err = Regexp::escape(&Value::from_bytes(b"\xff")).unwrap_err();
    assert_eq!(err.kind(), Kind::ArgumentError);
    assert_eq!(err.message(), &b"Self::escape only supports UTF-8 patterns"[..]);
}

#[test]
fn initialize_with_options() {
    let made = Regexp::initialize(
        &Value::from_str("abc"),
        Some(&Value::from_int(IGNORECASE | MULTILINE)),
        None,
    )
    .unwrap();
    assert!(made.warnings.is_empty());
    let regexp = made.regexp;
    assert_eq!(regexp.source(), b"abc");
    assert_eq!(regexp.string(), b"(?mi-x:abc)");
    assert_eq!(regexp.inspect(), b"/abc/mi");
    assert_eq!(regexp.options(), 5);
    assert!(regexp.is_casefold());
    assert!(!regexp.is_fixed_encoding());
    assert!(regexp.is_match(&Value::from_str("xABCx"), None).unwrap());

    let made =
        Regexp::initialize(&Value::from_str("a b"), Some(&Value::from_str("x")), None).unwrap();
    assert_eq!(made.regexp.options(), EXTENDED);
    assert_eq!(made.regexp.string(), b"(?x-mi:a b)");
    assert!(made.regexp.is_match(&Value::from_str("ab"), None).unwrap());

    let made =
        Regexp::initialize(&Value::from_str("a"), Some(&Value::from_bool(true)), None).unwrap();
    assert!(made.regexp.is_casefold());
    let made = Regexp::initialize(&Value::from_str("a"), Some(&Value::nil()), None).unwrap();
    assert!(!made.regexp.is_casefold());
    assert_eq!(made.regexp.options(), 0);
}

#[test]
fn initialize_with_encoding() {
    let made = Regexp::initialize(
        &Value::from_str("a"),
        Some(&Value::from_int(IGNORECASE)),
        Some(&Value::from_str("n")),
    )
    .unwrap();
    assert!(made.warnings.is_empty());
    assert_eq!(made.regexp.options(), IGNORECASE | NOENCODING);
    assert_eq!(made.regexp.inspect(), b"/a/in");
    assert!(!made.regexp.is_fixed_encoding());

    let made = Regexp::initialize(
        &Value::from_str("a"),
        Some(&Value::from_int(FIXEDENCODING)),
        None,
    )
    .unwrap();
    assert!(made.regexp.is_fixed_encoding());
    assert_eq!(made.regexp.options(), FIXEDENCODING);

    let made = Regexp::initialize(&Value::from_str("a"), None, Some(&Value::from_str("q")))
        .unwrap();
    assert_eq!(made.warnings, vec![b"encoding option is ignored -- q".to_vec()]);
    assert_eq!(made.regexp.options(), 0);
}

#[test]
fn initialize_from_a_regexp() {
    let source = Value::new(Inner::Regexp(Source {
        literal: Config::new(b"a+".to_vec(), Options { ignore_case: true, ..Options::default() }),
        derived: config("(?i-mx:a+)"),
        encoding: Encoding::Unset,
    }));
    let made = Regexp::initialize(&source, None, None).unwrap();
    assert!(made.warnings.is_empty());
    assert_eq!(made.regexp.source(), b"a+");
    assert!(made.regexp.is_casefold());
    let made = Regexp::initialize(&source, Some(&Value::from_int(MULTILINE)), None).unwrap();
    assert_eq!(
        made.warnings,
        vec![b"flags ignored when initializing from Regexp".to_vec()]
    );
    assert_eq!(made.regexp.options(), IGNORECASE);
}

#[test]
fn initialize_errors() {
    let err = Regexp::initialize(&Value::from_int(1), None, None).unwrap_err();
    assert_eq!(err.kind(), Kind::TypeError);
    assert_eq!(err.message(), &b"no implicit conversion of Fixnum into String"[..]);
    let err = Regexp::initialize(&Value::from_str("(a"), None, None).unwrap_err();
    assert_eq!(err.kind(), Kind::RegexpError);
    let err =
        Regexp::initialize(&Value::from_str("(a"), Some(&Value::from_int(LITERAL)), None)
            .unwrap_err();
    assert_eq!(err.kind(), Kind::SyntaxError);
}

#[test]
fn parse_options() {
    let all = opts::parse(&Value::from_int(IGNORECASE | EXTENDED | MULTILINE | LITERAL));
    assert_eq!(
        all,
        Options { ignore_case: true, extended: true, multiline: true, literal: true }
    );
    assert_eq!(opts::parse(&Value::from_int(0)), Options::default());
    assert_eq!(opts::parse(&Value::from_int(2)).flags(), 2);
    assert_eq!(opts::parse(&Value::from_bool(false)), Options::default());
    assert_eq!(
        opts::parse(&Value::from_str("mo")),
        Options { multiline: true, ..Options::default() }
    );
    assert_eq!(
        opts::parse(&Value::from_values(vec![])),
        Options { ignore_case: true, ..Options::default() }
    );
    assert_eq!(all.modifier_string(), b"mix");
    assert_eq!(all.inline_string(), b"mix");
    assert_eq!(Options::default().inline_string(), b"-mix");
    assert_eq!(Options::default().modifier_string(), b"");
    assert_eq!(opts::parse(&Value::from_str("x")).inline_string(), b"x-mi");
    assert_eq!(all.flags(), 7);
}

#[test]
fn parse_encodings() {
    assert_eq!(enc::parse(&Value::from_int(FIXEDENCODING)), Ok(Encoding::Fixed));
    assert_eq!(enc::parse(&Value::from_int(NOENCODING | 7)), Ok(Encoding::NoEncoding));
    assert_eq!(enc::parse(&Value::from_int(5)), Ok(Encoding::Unset));
    assert_eq!(enc::parse(&Value::from_int(64)), Err(enc::Error::InvalidEncoding));
    assert_eq!(enc::parse(&Value::from_int(48)), Err(enc::Error::InvalidEncoding));
    assert_eq!(enc::parse(&Value::from_str("u")), Ok(Encoding::Fixed));
    assert_eq!(enc::parse(&Value::from_str("mixs")), Ok(Encoding::Fixed));
    assert_eq!(enc::parse(&Value::from_str("n")), Ok(Encoding::NoEncoding));
    assert_eq!(enc::parse(&Value::from_str("mixo")), Ok(Encoding::Unset));
    assert_eq!(enc::parse(&Value::from_str("un")), Err(enc::Error::InvalidEncoding));
    assert_eq!(enc::parse(&Value::from_str("ue")), Err(enc::Error::InvalidEncoding));
    assert_eq!(enc::parse(&Value::from_str("q")), Err(enc::Error::InvalidEncoding));
    assert_eq!(enc::parse(&Value::nil()), Ok(Encoding::Unset));
    assert_eq!(Encoding::Fixed.flags(), 16);
    assert_eq!(Encoding::NoEncoding.flags(), 32);
    assert_eq!(Encoding::Unset.flags(), 0);
    assert_eq!(Encoding::NoEncoding.string(), "n");
    assert_eq!(Encoding::Fixed.string(), "");
    assert!(Encoding::NoEncoding.same(Encoding::Unset));
    assert!(!Encoding::Fixed.same(Encoding::Unset));
    assert_eq!(Encoding::default(), Encoding::Unset);
}

#[test]
fn parse_patterns() {
    let none = Options::default();
    let (pattern, options) = opts::parse_pattern(b"abc", none);
    assert_eq!(pattern, b"(?-mix:abc)");
    assert_eq!(options, none);
    let (pattern, options) = opts::parse_pattern(b"", none);
    assert_eq!(pattern, b"(?-mix:)");
    assert_eq!(options, none);
    let (pattern, options) = opts::parse_pattern(b"(?i:abc)", none);
    assert_eq!(pattern, b"(?i:abc)");
    assert_eq!(options, Options { ignore_case: true, ..none });
    let all = Options { ignore_case: true, extended: true, multiline: true, literal: false };
    let (pattern, options) = opts::parse_pattern(b"(?m-ix:a(b)c)", all);
    assert_eq!(pattern, b"(?m-ix:a(b)c)");
    assert_eq!(options, Options { multiline: true, ..none });
    let (pattern, options) = opts::parse_pattern(b"(?i:a)(b)", none);
    assert_eq!(pattern, b"(?-mix:(?i:a)(b))");
    assert_eq!(options, none);
    let (pattern, _) = opts::parse_pattern(b"(?<n>a)", none);
    assert_eq!(pattern, b"(?-mix:(?<n>a))");
    let (pattern, _) = opts::parse_pattern(b"(?i", none);
    assert_eq!(pattern, b"(?-mix:(?i)");
    let (pattern, _) = opts::parse_pattern(b"(?i:a", none);
    assert_eq!(pattern, b"(?-mix:(?i:a)");
    let (pattern, _) = opts::parse_pattern(b"(a)", all);
    assert_eq!(pattern, b"(?mix:(a))");
}

#[test]
fn inspect_escapes_slashes() {
    let regexp = ruby("a/b");
    assert_eq!(regexp.inspect(), br"/a\/b/");
    assert_eq!(regexp.source(), b"a/b");
}

#[test]
fn names_of_groups() {
    let regexp = ruby(r"(?<year>\d{4})-(?<day>\d{2})");
    assert_eq!(regexp.names(), vec![b"year".to_vec(), b"day".to_vec()]);
    assert_eq!(
        regexp.named_captures().unwrap(),
        vec![(b"year".to_vec(), vec![1]), (b"day".to_vec(), vec![2])]
    );
    assert_eq!(
        regexp.inner().capture_indexes_for_name(b"day").unwrap(),
        Some(vec![2])
    );
    assert_eq!(regexp.inner().capture_indexes_for_name(b"month").unwrap(), None);
    assert_eq!(
        regexp.inner().named_captures_for_haystack(b"in 2020-15").unwrap(),
        Some(vec![(b"year".to_vec(), some("2020")), (b"day".to_vec(), some("15"))])
    );
    assert_eq!(regexp.inner().named_captures_for_haystack(b"none").unwrap(), None);
    assert!(ruby("abc").names().is_empty());
}

#[test]
fn names_of_groups_that_share_a_name() {
    let regexp = ruby(r"(?<x>a)|(?<x>b)(?=c)");
    assert!(is_onig(&regexp));
    assert_eq!(regexp.names(), vec![b"x".to_vec()]);
    assert_eq!(regexp.named_captures().unwrap(), vec![(b"x".to_vec(), vec![1, 2])]);
    assert_eq!(
        regexp.inner().named_captures_for_haystack(b"bc").unwrap(),
        Some(vec![(b"x".to_vec(), some("b"))])
    );
    assert_eq!(
        regexp.inner().named_captures_for_haystack(b"a").unwrap(),
        Some(vec![(b"x".to_vec(), some("a"))])
    );
}

#[test]
fn lazy_regexp_compiles_on_first_use() {
    let regexp = Regexp::lazy(br"(\d+)-(\d+)");
    assert!(matches!(regexp.inner(), Backend::Lazy(_)));
    assert_eq!(regexp.source(), br"(\d+)-(\d+)");
    assert_eq!(regexp.string(), br"(\d+)-(\d+)");
    assert_eq!(regexp.inspect(), br"/(\d+)-(\d+)/");
    assert_eq!(regexp.options(), 0);
    assert_eq!(
        regexp.inner().captures(b"12-34").unwrap(),
        Some(vec![some("12-34"), some("12"), some("34")])
    );
    assert_eq!(
        regexp.inner().captures(b"5-6").unwrap(),
        Some(vec![some("5-6"), some("5"), some("6")])
    );
    let mut globals = Globals::new();
    let data = regexp.match_(&mut globals, &Value::from_str("x 1-2"), None).unwrap().unwrap();
    assert_eq!(data.matched(), b"1-2");
    assert!(is_utf8(data.regexp()));
    let copy = regexp.box_clone();
    assert!(copy.is_match(&Value::from_str("1-2"), None).unwrap());
}

#[test]
fn lazy_regexp_reports_its_error_on_every_use() {
    let regexp = Regexp::lazy(b"(a");
    let err = regexp.inner().captures(b"a").unwrap_err();
    assert_eq!(err.kind(), Kind::RegexpError);
    let again = regexp.inner().captures(b"a").unwrap_err();
    assert_eq!(again, err);
    assert!(regexp.is_match(&Value::from_str("a"), None).is_err());
    assert_eq!(regexp.inspect(), b"");
    assert_eq!(regexp.string(), b"");
    assert!(regexp.names().is_empty());
    assert_eq!(regexp.source(), b"(a");
    let mut globals = Globals::new();
    assert!(regexp.match_(&mut globals, &Value::from_str("a"), None).is_err());
}

#[test]
fn equality_and_hash() {
    let regexp = ruby("a+");
    let same = Value::new(Inner::Regexp(Source {
        literal: config("a+"),
        derived: config("(?-mix:a+)"),
        encoding: Encoding::NoEncoding,
    }));
    assert!(regexp.eql(&same));
    let fixed = Value::new(Inner::Regexp(Source {
        literal: config("a+"),
        derived: config("(?-mix:a+)"),
        encoding: Encoding::Fixed,
    }));
    assert!(!regexp.eql(&fixed));
    assert!(!regexp.eql(&regexp_value("a+")));
    assert!(!regexp.eql(&Value::from_str("a+")));
    assert_eq!(regexp.hash(), ruby("a+").hash());
    assert_eq!(regexp.hash(), regexp.box_clone().hash());
    assert_ne!(regexp.hash(), ruby("b+").hash());
}

#[test]
fn regexps_compare_by_compiled_pattern_and_encoding() {
    let regexp = ruby("a+");
    assert!(regexp == regexp.clone());
    assert!(regexp == ruby("a+"));
    assert!(regexp != ruby("b+"));
    assert!(regexp != compile("a+"));
    let fixed =
        Regexp::new(config("a+"), config("(?-mix:a+)"), Encoding::Fixed).unwrap();
    assert!(regexp != fixed);
    let none =
        Regexp::new(config("zzz"), config("(?-mix:a+)"), Encoding::NoEncoding).unwrap();
    assert!(regexp == none);
    let lazy = Regexp::lazy(b"(?-mix:a+)");
    assert!(regexp == lazy);
    let data = MatchData::new(b"aa".to_vec(), regexp, 0, 2);
    let copy = data.clone();
    assert_eq!(copy.matched(), b"aa");
    assert!(copy.regexp() == data.regexp());
}

#[test]
fn names_of_globals() {
    assert_eq!(nth_match_group(1), b"$1");
    assert_eq!(nth_match_group(20), b"$20");
    assert_eq!(nth_match_group(21), b"$21");
    assert_eq!(nth_match_group(1234567), b"$1234567");
    assert_eq!(LAST_MATCH, "$~");
}

#[test]
fn match_data_is_built_from_parts() {
    let data = MatchData::new(b"hello".to_vec(), compile("l+"), 2, 4);
    assert_eq!(data.haystack(), b"hello");
    assert_eq!(data.matched(), b"ll");
    assert_eq!(data.regexp().source(), b"l+");
    let copy = data.dup();
    assert_eq!((copy.region().start, copy.region().end), (2, 4));
}
