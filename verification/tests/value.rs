use artichoke_backend::exception::Kind;
use artichoke_backend::types::{ruby_from_mrb_value, Ruby};
use artichoke_backend::value::{
    funcall_args, funcall_result, Block, Inner, Object, Value, MRB_FUNCALL_ARGC_MAX,
};

fn object(class_name: &str, to_int: Option<Value>, to_str: Option<Value>) -> Value {
    Value::new(Inner::Object(Object {
        class_name: class_name.to_owned(),
        to_int: to_int.map(Box::new),
        to_str: to_str.map(Box::new),
        to_s: b"#<Object>".to_vec(),
        inspect: b"#<Object inspected>".to_vec(),
    }))
}

#[test]
fn to_s_true() {
    let value = Value::from_bool(true);
    let string = value.to_s();
    assert_eq!(string, b"true");
}

#[test]
fn debug_true() {
    let value = Value::from_bool(true);
    let debug = value.to_s_debug();
    assert_eq!(debug, "Boolean<true>");
}

#[test]
fn inspect_true() {
    let value = Value::from_bool(true);
    let debug = value.inspect();
    assert_eq!(debug, b"true");
}

#[test]
fn to_s_false() {
    let value = Value::from_bool(false);
    let string = value.to_s();
    assert_eq!(string, b"false");
}

#[test]
fn debug_false() {
    let value = Value::from_bool(false);
    let debug = value.to_s_debug();
    assert_eq!(debug, "Boolean<false>");
}

#[test]
fn inspect_false() {
    let value = Value::from_bool(false);
    let debug = value.inspect();
    assert_eq!(debug, b"false");
}

#[test]
fn to_s_nil() {
    let value = Value::nil();
    let string = value.to_s();
    assert_eq!(string, b"");
}

#[test]
fn debug_nil() {
    let value = Value::nil();
    let debug = value.to_s_debug();
    assert_eq!(debug, "NilClass<nil>");
}

#[test]
fn inspect_nil() {
    let value = Value::nil();
    let debug = value.inspect();
    assert_eq!(debug, b"nil");
}

#[test]
fn to_s_fixnum() {
    let value: Value = Value::from_int(255);
    let string = value.to_s();
    assert_eq!(string, b"255");
}

#[test]
fn debug_fixnum() {
    let value: Value = Value::from_int(255);
    let debug = value.to_s_debug();
    assert_eq!(debug, "Fixnum<255>");
}

#[test]
fn inspect_fixnum() {
    let value: Value = Value::from_int(255);
    let debug = value.inspect();
    assert_eq!(debug, b"255");
}

#[test]
fn to_s_string() {
    let value = Value::from_str("interstate");
    let string = value.to_s();
    assert_eq!(string, b"interstate");
}

#[test]
fn debug_string() {
    let value = Value::from_str("interstate");
    let debug = value.to_s_debug();
    assert_eq!(debug, r#"String<"interstate">"#);
}

#[test]
fn inspect_string() {
    let value = Value::from_str("interstate");
    let debug = value.inspect();
    assert_eq!(debug, br#""interstate""#);
}

#[test]
fn to_s_empty_string() {
    let value = Value::from_str("");
    let string = value.to_s();
    assert_eq!(string, b"");
}

#[test]
fn debug_empty_string() {
    let value = Value::from_str("");
    let debug = value.to_s_debug();
    assert_eq!(debug, r#"String<"">"#);
}

#[test]
fn inspect_empty_string() {
    let value = Value::from_str("");
    let debug = value.inspect();
    assert_eq!(debug, br#""""#);
}

#[test]
fn nil_type() {
    let value = Value::nil();
    assert_eq!(ruby_from_mrb_value(value.inner()), Ruby::Nil);
}

#[test]
fn bool_type() {
    let value = Value::from_bool(false);
    assert_eq!(ruby_from_mrb_value(value.inner()), Ruby::Bool);
    let value = Value::from_bool(true);
    assert_eq!(ruby_from_mrb_value(value.inner()), Ruby::Bool);
}

#[test]
fn fixnum_type() {
    let value = Value::from_int(17);
    assert_eq!(ruby_from_mrb_value(value.inner()), Ruby::Fixnum);
}

#[test]
fn string_type() {
    let literal = "dinner plate";
    let value = Value::from_str(literal);
    assert_eq!(ruby_from_mrb_value(value.inner()), Ruby::String);
}

#[test]
fn other_types_and_class_names() {
    assert_eq!(Value::from_values(vec![]).ruby_type(), Ruby::Array);
    let range = Value::range(Value::from_int(1), Value::from_int(2), false);
    assert_eq!(range.ruby_type(), Ruby::Range);
    assert_eq!(Value::new(Inner::Symbol(b"sym".to_vec())).ruby_type(), Ruby::Symbol);
    assert_eq!(object("Foo", None, None).ruby_type(), Ruby::Object);
    assert!(Value::new(Inner::Unreachable).is_unreachable());
    assert!(!Value::nil().is_unreachable());
    assert_eq!(Ruby::Data.class_name(), "Rust-backed Ruby instance");
    assert_eq!(Ruby::SingletonClass.class_name(), "Singleton (anonymous) class");
    assert_eq!(Ruby::Unreachable.class_name(), "internal and unreachable");
    assert_eq!(Ruby::CPointer.class_name(), "C Pointer");
    assert_eq!(Ruby::InlineStruct.class_name(), "Inline Struct");
}

#[test]
fn pretty_names() {
    assert_eq!(Value::from_bool(true).pretty_name(), "true");
    assert_eq!(Value::from_bool(false).pretty_name(), "false");
    assert_eq!(Value::nil().pretty_name(), "nil");
    assert_eq!(Value::from_int(1).pretty_name(), "Fixnum");
    assert_eq!(Value::from_str("s").pretty_name(), "String");
    assert_eq!(object("Foo", None, None).pretty_name(), "Foo");
    assert_eq!(Value::from_values(vec![]).pretty_name(), "Array");
}

#[test]
fn inspect_escapes_special_bytes() {
    let value = Value::from_bytes(b"a\"b\\c\nd\te\r\x1b\x07\x08\x0b\x0c");
    assert_eq!(value.inspect(), br#""a\"b\\c\nd\te\r\e\a\b\v\f""#);
    assert_eq!(value.to_s(), b"a\"b\\c\nd\te\r\x1b\x07\x08\x0b\x0c");
}

#[test]
fn inspect_negative_and_extreme_integers() {
    assert_eq!(Value::from_int(-42).inspect(), b"-42");
    assert_eq!(Value::from_int(0).inspect(), b"0");
    assert_eq!(Value::from_int(i64::MAX).inspect(), b"9223372036854775807");
    assert_eq!(Value::from_int(i64::MIN).inspect(), b"-9223372036854775808");
    assert_eq!(Value::from_int(10).to_s(), b"10");
}

#[test]
fn inspect_array_range_symbol_object() {
    let array = Value::from_values(vec![
        Value::from_int(1),
        Value::from_str("two"),
        Value::nil(),
        Value::from_values(vec![Value::from_bool(true)]),
    ]);
    assert_eq!(array.inspect(), br#"[1, "two", nil, [true]]"#);
    assert_eq!(array.to_s(), br#"[1, "two", nil, [true]]"#);
    assert_eq!(Value::from_values(vec![]).inspect(), b"[]");
    let range = Value::range(Value::from_int(1), Value::from_int(5), false);
    assert_eq!(range.inspect(), b"1..5");
    let range = Value::range(Value::from_str("a"), Value::from_str("c"), true);
    assert_eq!(range.inspect(), br#""a"..."c""#);
    assert_eq!(range.to_s(), b"a...c");
    assert_eq!(Value::new(Inner::Symbol(b"sym".to_vec())).inspect(), b":sym");
    assert_eq!(Value::new(Inner::Symbol(b"sym".to_vec())).to_s(), b"sym");
    assert_eq!(object("Foo", None, None).inspect(), b"#<Object inspected>");
    assert_eq!(object("Foo", None, None).to_s(), b"#<Object>");
    assert_eq!(Value::new(Inner::Unreachable).inspect(), b"");
}

#[test]
fn debug_of_bytes_that_are_not_utf8_keeps_class_name() {
    let value = Value::from_bytes(b"\xff");
    let debug = value.to_s_debug();
    assert!(debug.starts_with("String<"));
    assert!(debug.ends_with('>'));
}

#[test]
fn implicit_conversion_to_int() {
    assert_eq!(Value::from_int(7).implicitly_convert_to_int().unwrap(), 7);
    let wrapped = object("Wrapper", Some(Value::from_int(9)), None);
    assert_eq!(wrapped.implicitly_convert_to_int().unwrap(), 9);
    assert_eq!(wrapped.coerce_to_int(), Some(9));

    let err = Value::from_str("7").implicitly_convert_to_int().unwrap_err();
    assert_eq!(err.kind(), Kind::TypeError);
    assert_eq!(err.name(), "TypeError");
    assert_eq!(err.message(), &b"no implicit conversion of String into Integer"[..]);

    let err = Value::nil().implicitly_convert_to_int().unwrap_err();
    assert_eq!(err.message(), &b"no implicit conversion of nil into Integer"[..]);

    let bad = object("Bad", Some(Value::from_str("nope")), None);
    let err = bad.implicitly_convert_to_int().unwrap_err();
    assert_eq!(err.kind(), Kind::TypeError);
    assert_eq!(
        err.message(),
        &b"can't convert Bad to Integer (Bad#to_int gives String)"[..]
    );
    assert_eq!(bad.coerce_to_int(), None);
}

#[test]
fn implicit_conversion_to_string() {
    assert_eq!(Value::from_str("abc").implicitly_convert_to_string().unwrap(), b"abc");
    let wrapped = object("Wrapper", None, Some(Value::from_str("xyz")));
    assert_eq!(wrapped.implicitly_convert_to_string().unwrap(), b"xyz");
    assert_eq!(wrapped.coerce_to_bytes(), Some(&b"xyz"[..]));

    let err = Value::from_int(1).implicitly_convert_to_string().unwrap_err();
    assert_eq!(err.kind(), Kind::TypeError);
    assert_eq!(err.message(), &b"no implicit conversion of Fixnum into String"[..]);

    let bad = object("Bad", None, Some(Value::from_int(3)));
    let err = bad.implicitly_convert_to_string().unwrap_err();
    assert_eq!(
        err.message(),
        &b"can't convert Bad to String (Bad#to_str gives Fixnum)"[..]
    );
}

#[test]
fn nilable_strings() {
    assert_eq!(Value::nil().coerce_to_nilable_bytes(), Some(None));
    assert_eq!(Value::from_str("a").coerce_to_nilable_bytes(), Some(Some(&b"a"[..])));
    assert_eq!(Value::from_int(1).coerce_to_nilable_bytes(), None);
    let to_nil = object("N", None, Some(Value::nil()));
    assert_eq!(to_nil.coerce_to_nilable_bytes(), Some(None));
}

#[test]
fn block_is_none_for_nil() {
    assert!(Block::new(Value::nil()).is_none());
    assert!(Block::new(Value::from_int(1)).is_some());
}

#[test]
fn exception_names() {
    assert_eq!(Kind::Fatal.name(), "fatal");
    assert_eq!(Kind::IndexError.name(), "IndexError");
    assert_eq!(Kind::ArgumentError.name(), "ArgumentError");
    assert_eq!(Kind::RangeError.name(), "RangeError");
    assert_eq!(Kind::RegexpError.name(), "RegexpError");
    assert_eq!(Kind::SyntaxError.name(), "SyntaxError");
    assert_eq!(Kind::FrozenError.name(), "FrozenError");
    assert_eq!(Kind::TypeError.name(), "TypeError");
}

#[test]
fn calls_pass_a_bounded_number_of_arguments() {
    assert!(funcall_args(0).is_ok());
    assert!(funcall_args(MRB_FUNCALL_ARGC_MAX).is_ok());
    let err = funcall_args(MRB_FUNCALL_ARGC_MAX + 1).unwrap_err();
    assert_eq!(err.kind(), Kind::Fatal);
    assert_eq!(err.message(), &b"Too many args for funcall. Gave 17, but max is 16"[..]);
}

#[test]
fn unreachable_results_are_fatal() {
    assert_eq!(funcall_result(Value::from_int(3)).unwrap().try_into_int(), Some(3));
    let err = funcall_result(Value::new(Inner::Unreachable)).unwrap_err();
    assert_eq!(err.kind(), Kind::Fatal);
    assert_eq!(err.message(), &b"Unreachable Ruby value"[..]);
}
