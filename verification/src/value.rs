//! Values of the interpreter, held as the plain data that this crate reads
//! from them.
//!
//! A value is immutable. What an object answers to the implicit conversions
//! `to_int` and `to_str`, and to `to_s` and `inspect`, is recorded in the value
//! when it is built, so that no call into the interpreter is needed later.

use vstd::prelude::*;
use vstd::string::StringSliceAdditionalSpecFns;
use vstd::utf8::encode_utf8;

use crate::bytes::{append, copy, decimal, format_int};
use crate::exception::{raises, Exception, Kind};
use crate::regexp::Config;
use crate::regexp::enc::Encoding;
use crate::regexp::inspect::{inspect_config, inspect_of};
use crate::types::{ruby_from_mrb_value, ruby_of, Int, Ruby};

verus! {

/// The most arguments that a method call can pass.
pub const MRB_FUNCALL_ARGC_MAX: usize = 16;

/// An instance of a class defined in Ruby.
#[derive(Debug)]
pub struct Object {
    /// The name of the object's class.
    pub class_name: String,
    /// What `to_int` returns, if the object responds to it.
    pub to_int: Option<Box<Value>>,
    /// What `to_str` returns, if the object responds to it.
    pub to_str: Option<Box<Value>>,
    /// What `to_s` returns.
    pub to_s: Vec<u8>,
    /// What `inspect` returns.
    pub inspect: Vec<u8>,
}

/// What a `Regexp` object holds: the pattern as it was written, the pattern
/// that was compiled, and the encoding.
#[derive(Debug, Clone)]
pub struct Source {
    /// The pattern and options as the caller gave them.
    pub literal: Config,
    /// The pattern and options that were compiled.
    pub derived: Config,
    /// The encoding of the pattern.
    pub encoding: Encoding,
}

/// What a value holds.
#[derive(Debug)]
pub enum Inner {
    /// `nil`.
    Nil,
    /// `true` or `false`.
    Bool(bool),
    /// An integer.
    Fixnum(Int),
    /// A string, as bytes.
    String(Vec<u8>),
    /// A symbol, by its name.
    Symbol(Vec<u8>),
    /// An array.
    Array(Vec<Value>),
    /// A range between two values, which leaves out its end if `exclusive`.
    Range { begin: Box<Value>, end: Box<Value>, exclusive: bool },
    /// A `Regexp`.
    Regexp(Source),
    /// An instance of a class defined in Ruby.
    Object(Object),
    /// A value internal to the interpreter.
    Unreachable,
}

/// A value of the interpreter.
#[derive(Debug)]
pub struct Value {
    /// What the value holds.
    pub value: Inner,
}

/// A block given to a method, which the caller runs.
#[derive(Debug)]
pub struct Block {
    value: Value,
}

/// A result in which an exception is seen by its class and message.
pub open spec fn outcome<T>(result: Result<T, Exception>) -> Result<T, (Kind, Seq<u8>)> {
    match result {
        Ok(v) => Ok(v),
        Err(e) => Err(e@),
    }
}

/// The message of the error raised for a value that cannot be converted to
/// `target` implicitly.
pub open spec fn no_implicit_conversion(name: Seq<char>, target: Seq<char>) -> Seq<u8> {
    "no implicit conversion of ".spec_bytes() + encode_utf8(name) + " into ".spec_bytes()
        + encode_utf8(target)
}

/// The message of the error raised for an object whose conversion method
/// `method` returns a value of the wrong class `gives`.
pub open spec fn cannot_convert(
    name: Seq<char>,
    target: Seq<char>,
    method: Seq<char>,
    gives: Seq<char>,
) -> Seq<u8> {
    "can't convert ".spec_bytes() + encode_utf8(name) + " to ".spec_bytes() + encode_utf8(target)
        + " (".spec_bytes() + encode_utf8(name) + "#".spec_bytes() + encode_utf8(method)
        + " gives ".spec_bytes() + encode_utf8(gives) + ")".spec_bytes()
}

/// How one byte of a string is written by `inspect`.
pub open spec fn escape_byte(b: u8) -> Seq<u8> {
    if b == 34 {
        seq![92u8, 34u8]
    } else if b == 92 {
        seq![92u8, 92u8]
    } else if b == 10 {
        seq![92u8, 110u8]
    } else if b == 13 {
        seq![92u8, 114u8]
    } else if b == 9 {
        seq![92u8, 116u8]
    } else if b == 12 {
        seq![92u8, 102u8]
    } else if b == 11 {
        seq![92u8, 118u8]
    } else if b == 8 {
        seq![92u8, 98u8]
    } else if b == 7 {
        seq![92u8, 97u8]
    } else if b == 27 {
        seq![92u8, 101u8]
    } else {
        seq![b]
    }
}

/// The bytes of a string with each byte written as `inspect` writes it.
pub open spec fn escaped(s: Seq<u8>) -> Seq<u8>
    decreases s.len(),
{
    if s.len() == 0 {
        Seq::<u8>::empty()
    } else {
        escaped(s.drop_last()) + escape_byte(s.last())
    }
}

/// What `inspect` returns for a string: the escaped bytes in double quotes.
pub open spec fn quoted(s: Seq<u8>) -> Seq<u8> {
    seq![34u8] + escaped(s) + seq![34u8]
}

/// Appends to `dst` the three parts of a message.
fn message_parts(dst: &mut Vec<u8>, a: &str, b: &str, c: &str)
    ensures
        final(dst)@ == old(dst)@ + a.spec_bytes() + b.spec_bytes() + c.spec_bytes(),
{
    append(dst, a.as_bytes());
    append(dst, b.as_bytes());
    append(dst, c.as_bytes());
}

/// The error raised for a value named `name` that cannot be converted to
/// `target` implicitly.
pub fn no_implicit_conversion_error(name: &str, target: &str) -> (r: Exception)
    ensures
        r@ == (Kind::TypeError, no_implicit_conversion(name@, target@)),
{
    let mut message: Vec<u8> = Vec::new();
    message_parts(&mut message, "no implicit conversion of ", name, " into ");
    append(&mut message, target.as_bytes());
    Exception::new_raw(Kind::TypeError, message)
}

/// The error raised for an object named `name` whose conversion method returns
/// a value named `gives`, which is not of class `target`.
pub fn cannot_convert_error(name: &str, target: &str, method: &str, gives: &str) -> (r: Exception)
    ensures
        r@ == (Kind::TypeError, cannot_convert(name@, target@, method@, gives@)),
{
    let mut message: Vec<u8> = Vec::new();
    message_parts(&mut message, "can't convert ", name, " to ");
    message_parts(&mut message, target, " (", name);
    message_parts(&mut message, "#", method, " gives ");
    message_parts(&mut message, gives, ")", "");
    proof {
        reveal_strlit("");
        assert(encode_utf8(Seq::<char>::empty()) =~= Seq::<u8>::empty()) by {
            reveal_with_fuel(encode_utf8, 1);
        }
    }
    Exception::new_raw(Kind::TypeError, message)
}

impl Value {
    /// What the value holds.
    pub open spec fn inner_spec(&self) -> Inner {
        self.value
    }

    /// A value that holds `value`.
    pub fn new(value: Inner) -> (r: Value)
        ensures
            r.inner_spec() == value,
    {
        Value { value }
    }

    /// The value `nil`.
    pub fn nil() -> (r: Value)
        ensures
            r.inner_spec() == Inner::Nil,
    {
        Value { value: Inner::Nil }
    }

    /// The value of a boolean.
    pub fn from_bool(b: bool) -> (r: Value)
        ensures
            r.inner_spec() == Inner::Bool(b),
    {
        Value { value: Inner::Bool(b) }
    }

    /// The value of an integer.
    pub fn from_int(i: Int) -> (r: Value)
        ensures
            r.inner_spec() == Inner::Fixnum(i),
    {
        Value { value: Inner::Fixnum(i) }
    }

    /// The value of a string with the given bytes.
    pub fn from_bytes(bytes: &[u8]) -> (r: Value)
        ensures
            r.inner_spec() matches Inner::String(s) && s@ == bytes@,
    {
        Value { value: Inner::String(copy(bytes)) }
    }

    /// The value of a string.
    pub fn from_str(s: &str) -> (r: Value)
        ensures
            r.inner_spec() matches Inner::String(b) && b@ == s.spec_bytes(),
    {
        Value { value: Inner::String(copy(s.as_bytes())) }
    }

    /// The value of an array with the given elements.
    pub fn from_values(elements: Vec<Value>) -> (r: Value)
        ensures
            r.inner_spec() == Inner::Array(elements),
    {
        Value { value: Inner::Array(elements) }
    }

    /// The value of the range from `begin` to `end`, which leaves out `end` if
    /// `exclusive`.
    pub fn range(begin: Value, end: Value, exclusive: bool) -> (r: Value)
        ensures
            r.inner_spec() == (Inner::Range {
                begin: Box::new(begin),
                end: Box::new(end),
                exclusive,
            }),
    {
        Value { value: Inner::Range { begin: Box::new(begin), end: Box::new(end), exclusive } }
    }

    /// What the value holds.
    pub fn inner(&self) -> (r: &Inner)
        ensures
            *r == self.inner_spec(),
    {
        &self.value
    }

    /// The kind of the value.
    pub open spec fn ruby_type_spec(&self) -> Ruby {
        ruby_of(self.inner_spec())
    }

    /// The kind of the value.
    pub fn ruby_type(&self) -> (r: Ruby)
        ensures
            r == self.ruby_type_spec(),
    {
        ruby_from_mrb_value(&self.value)
    }

    /// The name by which error messages call the value: `true`, `false` and
    /// `nil` for themselves, the class name for an object, and the name of the
    /// kind for everything else.
    pub open spec fn pretty_name_spec(&self) -> Seq<char> {
        match self.inner_spec() {
            Inner::Bool(true) => "true"@,
            Inner::Bool(false) => "false"@,
            Inner::Nil => "nil"@,
            Inner::Object(object) => object.class_name@,
            Inner::Regexp(_) => "Regexp"@,
            _ => self.ruby_type_spec().class_name_spec(),
        }
    }

    /// The name by which error messages call the value.
    pub fn pretty_name(&self) -> (r: &str)
        ensures
            r@ == self.pretty_name_spec(),
    {
        match &self.value {
            Inner::Bool(true) => "true",
            Inner::Bool(false) => "false",
            Inner::Nil => "nil",
            Inner::Object(object) => object.class_name.as_str(),
            Inner::Regexp(_) => "Regexp",
            _ => self.ruby_type().class_name(),
        }
    }

    /// Whether the value is internal to the interpreter and must not be used.
    pub fn is_unreachable(&self) -> (r: bool)
        ensures
            r == (self.ruby_type_spec() == Ruby::Unreachable),
    {
        self.ruby_type() == Ruby::Unreachable
    }

    /// Whether the value is `nil`.
    pub fn is_nil(&self) -> (r: bool)
        ensures
            r == (self.inner_spec() is Nil),
    {
        match &self.value {
            Inner::Nil => true,
            _ => false,
        }
    }

    /// The integer that the value is, if it is one.
    pub open spec fn int_spec(&self) -> Option<Int> {
        match self.inner_spec() {
            Inner::Fixnum(i) => Some(i),
            _ => None,
        }
    }

    /// The integer that the value is, if it is one.
    pub fn try_into_int(&self) -> (r: Option<Int>)
        ensures
            r == self.int_spec(),
    {
        match &self.value {
            Inner::Fixnum(i) => Some(*i),
            _ => None,
        }
    }

    /// What `to_int` returns, if the value is an object that responds to it.
    pub open spec fn to_int_spec(&self) -> Option<Value> {
        match self.inner_spec() {
            Inner::Object(object) => match object.to_int {
                Some(answer) => Some(*answer),
                None => None,
            },
            _ => None,
        }
    }

    /// What `to_int` returns, if the value is an object that responds to it.
    pub fn to_int(&self) -> (r: Option<&Value>)
        ensures
            match r {
                Some(answer) => self.to_int_spec() == Some(*answer),
                None => self.to_int_spec() is None,
            },
    {
        match &self.value {
            Inner::Object(object) => match &object.to_int {
                Some(answer) => Some(&**answer),
                None => None,
            },
            _ => None,
        }
    }

    /// The integer for which the value stands: itself if it is an integer,
    /// else what `to_int` returns if that is an integer.
    pub open spec fn coerced_int_spec(&self) -> Option<Int> {
        match self.int_spec() {
            Some(i) => Some(i),
            None => match self.to_int_spec() {
                Some(answer) => answer.int_spec(),
                None => None,
            },
        }
    }

    /// The integer for which the value stands: itself if it is an integer,
    /// else what `to_int` returns if that is an integer.
    pub fn coerce_to_int(&self) -> (r: Option<Int>)
        ensures
            r == self.coerced_int_spec(),
    {
        match self.try_into_int() {
            Some(i) => Some(i),
            None => match self.to_int() {
                Some(answer) => answer.try_into_int(),
                None => None,
            },
        }
    }

    /// The result of converting the value to an integer: the integer itself,
    /// else what `to_int` returns; an error if the value does not respond to
    /// `to_int`, and another if `to_int` returns no integer.
    pub open spec fn implicit_int_spec(&self) -> Result<Int, (Kind, Seq<u8>)> {
        match self.int_spec() {
            Some(i) => Ok(i),
            None => match self.to_int_spec() {
                Some(answer) => match answer.int_spec() {
                    Some(i) => Ok(i),
                    None => Err(
                        (
                            Kind::TypeError,
                            cannot_convert(
                                self.pretty_name_spec(),
                                "Integer"@,
                                "to_int"@,
                                answer.pretty_name_spec(),
                            ),
                        ),
                    ),
                },
                None => Err(
                    (
                        Kind::TypeError,
                        no_implicit_conversion(self.pretty_name_spec(), "Integer"@),
                    ),
                ),
            },
        }
    }

    /// Converts the value to an integer as Ruby does implicitly.
    pub fn implicitly_convert_to_int(&self) -> (r: Result<Int, Exception>)
        ensures
            outcome(r) == self.implicit_int_spec(),
    {
        match self.try_into_int() {
            Some(i) => Ok(i),
            None => {
                let pretty_name = self.pretty_name();
                match self.to_int() {
                    Some(answer) => match answer.try_into_int() {
                        Some(i) => Ok(i),
                        None => Err(
                            cannot_convert_error(
                                pretty_name,
                                "Integer",
                                "to_int",
                                answer.pretty_name(),
                            ),
                        ),
                    },
                    None => Err(no_implicit_conversion_error(pretty_name, "Integer")),
                }
            },
        }
    }

    /// The bytes of the value, if it is a string.
    pub open spec fn bytes_spec(&self) -> Option<Seq<u8>> {
        match self.inner_spec() {
            Inner::String(s) => Some(s@),
            _ => None,
        }
    }

    /// The bytes of the value, if it is a string.
    pub fn try_into_bytes(&self) -> (r: Option<&[u8]>)
        ensures
            match r {
                Some(s) => self.bytes_spec() == Some(s@),
                None => self.bytes_spec() is None,
            },
    {
        match &self.value {
            Inner::String(s) => Some(s.as_slice()),
            _ => None,
        }
    }

    /// What `to_str` returns, if the value is an object that responds to it.
    pub open spec fn to_str_spec(&self) -> Option<Value> {
        match self.inner_spec() {
            Inner::Object(object) => match object.to_str {
                Some(answer) => Some(*answer),
                None => None,
            },
            _ => None,
        }
    }

    /// What `to_str` returns, if the value is an object that responds to it.
    pub fn to_str(&self) -> (r: Option<&Value>)
        ensures
            match r {
                Some(answer) => self.to_str_spec() == Some(*answer),
                None => self.to_str_spec() is None,
            },
    {
        match &self.value {
            Inner::Object(object) => match &object.to_str {
                Some(answer) => Some(&**answer),
                None => None,
            },
            _ => None,
        }
    }

    /// The bytes for which the value stands: its own if it is a string, else
    /// those of what `to_str` returns if that is a string.
    pub open spec fn coerced_bytes_spec(&self) -> Option<Seq<u8>> {
        match self.bytes_spec() {
            Some(s) => Some(s),
            None => match self.to_str_spec() {
                Some(answer) => answer.bytes_spec(),
                None => None,
            },
        }
    }

    /// The bytes for which the value stands: its own if it is a string, else
    /// those of what `to_str` returns if that is a string.
    pub fn coerce_to_bytes(&self) -> (r: Option<&[u8]>)
        ensures
            match r {
                Some(s) => self.coerced_bytes_spec() == Some(s@),
                None => self.coerced_bytes_spec() is None,
            },
    {
        match self.try_into_bytes() {
            Some(s) => Some(s),
            None => match self.to_str() {
                Some(answer) => answer.try_into_bytes(),
                None => None,
            },
        }
    }

    /// The string for which the value stands where `nil` is accepted in place
    /// of a string: `Some(None)` for `nil` (or a `to_str` that returns `nil`),
    /// `Some(Some(bytes))` for a string, `None` where there is no conversion.
    pub open spec fn coerced_nilable_bytes_spec(&self) -> Option<Option<Seq<u8>>> {
        match self.inner_spec() {
            Inner::Nil => Some(None),
            Inner::String(s) => Some(Some(s@)),
            _ => match self.to_str_spec() {
                Some(answer) => match answer.inner_spec() {
                    Inner::Nil => Some(None),
                    Inner::String(s) => Some(Some(s@)),
                    _ => None,
                },
                None => None,
            },
        }
    }

    /// The string for which the value stands where `nil` is accepted in place
    /// of a string.
    pub fn coerce_to_nilable_bytes(&self) -> (r: Option<Option<&[u8]>>)
        ensures
            match r {
                Some(Some(s)) => self.coerced_nilable_bytes_spec() == Some(Some(s@)),
                Some(None) => self.coerced_nilable_bytes_spec() == Some(None::<Seq<u8>>),
                None => self.coerced_nilable_bytes_spec() is None,
            },
    {
        match &self.value {
            Inner::Nil => Some(None),
            Inner::String(s) => Some(Some(s.as_slice())),
            _ => match self.to_str() {
                Some(answer) => match &answer.value {
                    Inner::Nil => Some(None),
                    Inner::String(s) => Some(Some(s.as_slice())),
                    _ => None,
                },
                None => None,
            },
        }
    }

    /// The result of converting the value to a string: its bytes, else those
    /// of what `to_str` returns; an error if the value does not respond to
    /// `to_str`, and another if `to_str` returns no string.
    pub open spec fn implicit_bytes_spec(&self) -> Result<Seq<u8>, (Kind, Seq<u8>)> {
        match self.bytes_spec() {
            Some(s) => Ok(s),
            None => match self.to_str_spec() {
                Some(answer) => match answer.bytes_spec() {
                    Some(s) => Ok(s),
                    None => Err(
                        (
                            Kind::TypeError,
                            cannot_convert(
                                self.pretty_name_spec(),
                                "String"@,
                                "to_str"@,
                                answer.pretty_name_spec(),
                            ),
                        ),
                    ),
                },
                None => Err(
                    (
                        Kind::TypeError,
                        no_implicit_conversion(self.pretty_name_spec(), "String"@),
                    ),
                ),
            },
        }
    }

    /// Converts the value to a string as Ruby does implicitly.
    pub fn implicitly_convert_to_string(&self) -> (r: Result<&[u8], Exception>)
        ensures
            match r {
                Ok(s) => self.implicit_bytes_spec() == Ok::<Seq<u8>, (Kind, Seq<u8>)>(s@),
                Err(e) => self.implicit_bytes_spec() == Err::<Seq<u8>, (Kind, Seq<u8>)>(e@),
            },
    {
        match self.try_into_bytes() {
            Some(s) => Ok(s),
            None => {
                let pretty_name = self.pretty_name();
                match self.to_str() {
                    Some(answer) => match answer.try_into_bytes() {
                        Some(s) => Ok(s),
                        None => Err(
                            cannot_convert_error(
                                pretty_name,
                                "String",
                                "to_str",
                                answer.pretty_name(),
                            ),
                        ),
                    },
                    None => Err(no_implicit_conversion_error(pretty_name, "String")),
                }
            },
        }
    }
}

/// The two or three dots of a range.
pub open spec fn dots(exclusive: bool) -> Seq<u8> {
    if exclusive {
        seq![46u8, 46u8, 46u8]
    } else {
        seq![46u8, 46u8]
    }
}

impl Value {
    /// What `inspect` returns for the first `n` elements of an array, with a
    /// comma and a space between them.
    pub open spec fn inspect_upto(self, n: nat) -> Seq<u8>
        decreases self, n,
    {
        match self.value {
            Inner::Array(elements) => if n == 0 || n > elements.len() {
                Seq::<u8>::empty()
            } else if n == 1 {
                elements[0].inspect_spec()
            } else {
                self.inspect_upto((n - 1) as nat) + seq![44u8, 32u8] + elements[n
                    - 1].inspect_spec()
            },
            _ => Seq::<u8>::empty(),
        }
    }

    /// What `inspect` returns: `nil`, `true` and `false` by name, an integer
    /// in decimal, a string in double quotes with its special bytes escaped,
    /// a symbol behind a colon, an array in brackets, a range with its dots,
    /// a `Regexp` between slashes, and for an object what was recorded.
    pub open spec fn inspect_spec(self) -> Seq<u8>
        decreases self, usize::MAX + 1,
    {
        match self.value {
            Inner::Nil => "nil".spec_bytes(),
            Inner::Bool(true) => "true".spec_bytes(),
            Inner::Bool(false) => "false".spec_bytes(),
            Inner::Fixnum(i) => decimal(i as int),
            Inner::String(s) => quoted(s@),
            Inner::Symbol(name) => seq![58u8] + name@,
            Inner::Array(elements) => seq![91u8] + self.inspect_upto(elements.len() as nat)
                + seq![93u8],
            Inner::Range { begin, end, exclusive } => begin.inspect_spec() + dots(exclusive)
                + end.inspect_spec(),
            Inner::Regexp(source) => inspect_of(source.literal@, source.encoding),
            Inner::Object(object) => object.inspect@,
            Inner::Unreachable => Seq::<u8>::empty(),
        }
    }

    /// What `to_s` returns: nothing for `nil`, the bytes of a string or of
    /// the name of a symbol, the compiled pattern of a `Regexp`, for an
    /// object what was recorded, and for the rest what `inspect` returns,
    /// with the bounds of a range converted in the same way.
    pub open spec fn to_s_spec(self) -> Seq<u8>
        decreases self, usize::MAX + 2,
    {
        match self.value {
            Inner::Nil => Seq::<u8>::empty(),
            Inner::String(s) => s@,
            Inner::Symbol(name) => name@,
            Inner::Range { begin, end, exclusive } => begin.to_s_spec() + dots(exclusive)
                + end.to_s_spec(),
            Inner::Regexp(source) => source.derived@.0,
            Inner::Object(object) => object.to_s@,
            Inner::Unreachable => Seq::<u8>::empty(),
            _ => self.inspect_spec(),
        }
    }

    /// Appends to `dst` the dots of a range.
    fn push_dots(dst: &mut Vec<u8>, exclusive: bool)
        ensures
            final(dst)@ == old(dst)@ + dots(exclusive),
    {
        dst.push(46u8);
        dst.push(46u8);
        if exclusive {
            dst.push(46u8);
        }
    }

    /// What `inspect` returns.
    pub fn inspect(&self) -> (r: Vec<u8>)
        ensures
            r@ == self.inspect_spec(),
        decreases self,
    {
        match &self.value {
            Inner::Nil => copy("nil".as_bytes()),
            Inner::Bool(true) => copy("true".as_bytes()),
            Inner::Bool(false) => copy("false".as_bytes()),
            Inner::Fixnum(i) => format_int(*i),
            Inner::String(s) => {
                let mut out: Vec<u8> = Vec::new();
                out.push(34u8);
                let mut i: usize = 0;
                while i < s.len()
                    invariant
                        i <= s@.len(),
                        out@ == seq![34u8] + escaped(s@.take(i as int)),
                    decreases s@.len() - i,
                {
                    proof {
                        assert(s@.take(i + 1).drop_last() =~= s@.take(i as int));
                    }
                    let b: u8 = s[i];
                    let letter: u8 = if b == 34 {
                        34
                    } else if b == 92 {
                        92
                    } else if b == 10 {
                        110
                    } else if b == 13 {
                        114
                    } else if b == 9 {
                        116
                    } else if b == 12 {
                        102
                    } else if b == 11 {
                        118
                    } else if b == 8 {
                        98
                    } else if b == 7 {
                        97
                    } else if b == 27 {
                        101
                    } else {
                        0
                    };
                    if letter != 0 {
                        out.push(92u8);
                        out.push(letter);
                    } else {
                        out.push(b);
                    }
                    i += 1;
                }
                assert(s@.take(s@.len() as int) =~= s@);
                out.push(34u8);
                out
            },
            Inner::Symbol(name) => {
                let mut out: Vec<u8> = Vec::new();
                out.push(58u8);
                append(&mut out, name.as_slice());
                out
            },
            Inner::Array(elements) => {
                let mut out: Vec<u8> = Vec::new();
                out.push(91u8);
                let mut i: usize = 0;
                while i < elements.len()
                    invariant
                        i <= elements@.len(),
                        self.value == Inner::Array(*elements),
                        forall|k: int|
                            0 <= k < elements@.len() ==> decreases_to!(self => elements@[k]),
                        out@ == seq![91u8] + self.inspect_upto(i as nat),
                    decreases elements@.len() - i,
                {
                    if i > 0 {
                        out.push(44u8);
                        out.push(32u8);
                    }
                    let item: Vec<u8> = elements[i].inspect();
                    append(&mut out, item.as_slice());
                    i += 1;
                }
                out.push(93u8);
                out
            },
            Inner::Range { begin, end, exclusive } => {
                let mut out: Vec<u8> = begin.inspect();
                Self::push_dots(&mut out, *exclusive);
                let tail: Vec<u8> = end.inspect();
                append(&mut out, tail.as_slice());
                out
            },
            Inner::Regexp(source) => inspect_config(&source.literal, source.encoding),
            Inner::Object(object) => copy(object.inspect.as_slice()),
            Inner::Unreachable => Vec::new(),
        }
    }

    /// What `to_s` returns.
    pub fn to_s(&self) -> (r: Vec<u8>)
        ensures
            r@ == self.to_s_spec(),
        decreases self,
    {
        match &self.value {
            Inner::Nil => Vec::new(),
            Inner::String(s) => copy(s.as_slice()),
            Inner::Symbol(name) => copy(name.as_slice()),
            Inner::Range { begin, end, exclusive } => {
                let mut out: Vec<u8> = begin.to_s();
                Self::push_dots(&mut out, *exclusive);
                let tail: Vec<u8> = end.to_s();
                append(&mut out, tail.as_slice());
                out
            },
            Inner::Regexp(source) => copy(source.derived.pattern()),
            Inner::Object(object) => copy(object.to_s.as_slice()),
            Inner::Unreachable => Vec::new(),
            _ => self.inspect(),
        }
    }

    /// What a debug representation of the value holds: the name of the kind
    /// of the value, and in angle brackets what `inspect` returns.
    pub open spec fn to_s_debug_spec(self) -> Seq<char> {
        self.ruby_type_spec().class_name_spec() + "<"@ + vstd::utf8::decode_utf8(
            self.inspect_spec(),
        ) + ">"@
    }

    /// A debug representation of the value: the name of its kind, and in
    /// angle brackets what `inspect` returns, where that is UTF-8.
    pub fn to_s_debug(&self) -> (r: String)
        ensures
            vstd::utf8::valid_utf8(self.inspect_spec()) ==> r@ == self.to_s_debug_spec(),
    {
        let inspect: Vec<u8> = self.inspect();
        let shown: String = from_utf8_lossy(inspect.as_slice());
        let mut out: String = String::from_str(self.ruby_type().class_name());
        out.append("<");
        out.append(shown.as_str());
        out.append(">");
        out
    }
}

/// The message of the error raised for a call with more arguments than a
/// call can pass.
pub open spec fn too_many_args_message(given: usize) -> Seq<u8> {
    "Too many args for funcall. Gave ".spec_bytes() + decimal(given as int)
        + ", but max is 16".spec_bytes()
}

/// The message of the error raised for a value that is internal to the
/// interpreter.
pub open spec fn unreachable_message() -> Seq<u8> {
    "Unreachable Ruby value".spec_bytes()
}

/// Whether a method can be called with `given` arguments: a call passes at
/// most [`MRB_FUNCALL_ARGC_MAX`], and more are a `Fatal` error.
pub fn funcall_args(given: usize) -> (r: Result<(), Exception>)
    ensures
        given <= 16 ==> r is Ok,
        given > 16 ==> raises(r, Kind::Fatal, too_many_args_message(given)),
{
    if given > MRB_FUNCALL_ARGC_MAX {
        let mut message: Vec<u8> = copy("Too many args for funcall. Gave ".as_bytes());
        let digits: Vec<u8> = crate::bytes::format_usize(given);
        append(&mut message, digits.as_slice());
        append(&mut message, ", but max is 16".as_bytes());
        Err(Exception::new_raw(Kind::Fatal, message))
    } else {
        Ok(())
    }
}

/// What a call or a block has returned, where it can be used: a value that
/// is internal to the interpreter is a `Fatal` error.
pub fn funcall_result(value: Value) -> (r: Result<Value, Exception>)
    ensures
        match r {
            Ok(returned) => returned == value && value.ruby_type_spec() != Ruby::Unreachable,
            Err(e) => value.ruby_type_spec() == Ruby::Unreachable && e@ == (
                Kind::Fatal,
                unreachable_message(),
            ),
        },
{
    if value.is_unreachable() {
        Err(Exception::new(Kind::Fatal, "Unreachable Ruby value"))
    } else {
        Ok(value)
    }
}

/// `String::from_utf8_lossy`: the text of the bytes where they are valid
/// UTF-8. Of what comes back for other bytes nothing is said.
#[verifier::external_body]
pub(crate) fn from_utf8_lossy(bytes: &[u8]) -> (r: String)
    ensures
        vstd::utf8::valid_utf8(bytes@) ==> r@ == vstd::utf8::decode_utf8(bytes@),
{
    String::from_utf8_lossy(bytes).into_owned()
}

impl Block {
    /// The value that the block is.
    pub closed spec fn value_spec(&self) -> Value {
        self.value
    }

    /// The block that `value` is, or nothing where it is `nil`.
    pub fn new(value: Value) -> (r: Option<Block>)
        ensures
            match r {
                Some(block) => !(value.inner_spec() is Nil) && block.value_spec() == value,
                None => value.inner_spec() is Nil,
            },
    {
        if value.is_nil() {
            None
        } else {
            Some(Block { value })
        }
    }

    /// The value that the block is.
    pub fn value(&self) -> (r: &Value)
        ensures
            *r == self.value_spec(),
    {
        &self.value
    }
}

} // verus!
