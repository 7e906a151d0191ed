//! Exceptions that an operation raises on the interpreter, as values.

use vstd::prelude::*;
use vstd::string::StringSliceAdditionalSpecFns;

verus! {

/// The exception classes that this crate raises.
#[derive(Debug, Clone, Copy, PartialEq, Eq, Hash, Structural)]
pub enum Kind {
    /// An argument has the right type and a value that cannot be used.
    ArgumentError,
    /// An invariant of the crate itself is broken; not meant to be rescued.
    Fatal,
    /// A frozen object was to be changed.
    FrozenError,
    /// An index or a group name addresses nothing.
    IndexError,
    /// A range lies outside of what it addresses.
    RangeError,
    /// A pattern was rejected.
    RegexpError,
    /// A pattern written as a literal was rejected.
    SyntaxError,
    /// An argument cannot be converted to the type that is needed.
    TypeError,
}

/// An exception: its class and its message.
#[derive(Debug, Clone, PartialEq, Eq)]
pub struct Exception {
    /// The class of the exception.
    pub kind: Kind,
    /// The message, as bytes.
    pub message: Vec<u8>,
}

impl View for Exception {
    type V = (Kind, Seq<u8>);

    open spec fn view(&self) -> (Kind, Seq<u8>) {
        (self.kind, self.message@)
    }
}

/// Whether `result` is the exception of class `kind` with `message`.
pub open spec fn raises<T>(result: Result<T, Exception>, kind: Kind, message: Seq<u8>) -> bool {
    result matches Err(e) && e@ == (kind, message)
}

impl Kind {
    /// The Ruby name of the class.
    pub open spec fn name_spec(self) -> Seq<char> {
        match self {
            Kind::ArgumentError => "ArgumentError"@,
            Kind::Fatal => "fatal"@,
            Kind::FrozenError => "FrozenError"@,
            Kind::IndexError => "IndexError"@,
            Kind::RangeError => "RangeError"@,
            Kind::RegexpError => "RegexpError"@,
            Kind::SyntaxError => "SyntaxError"@,
            Kind::TypeError => "TypeError"@,
        }
    }

    /// The Ruby name of the class.
    pub fn name(self) -> (r: &'static str)
        ensures
            r@ == self.name_spec(),
    {
        match self {
            Kind::ArgumentError => "ArgumentError",
            Kind::Fatal => "fatal",
            Kind::FrozenError => "FrozenError",
            Kind::IndexError => "IndexError",
            Kind::RangeError => "RangeError",
            Kind::RegexpError => "RegexpError",
            Kind::SyntaxError => "SyntaxError",
            Kind::TypeError => "TypeError",
        }
    }
}

impl Exception {
    /// An exception of class `kind` whose message is the bytes of `message`.
    pub fn new(kind: Kind, message: &str) -> (r: Exception)
        ensures
            r@ == (kind, message.spec_bytes()),
    {
        Exception { kind, message: crate::bytes::copy(message.as_bytes()) }
    }

    /// An exception of class `kind` with the given message bytes.
    pub fn new_raw(kind: Kind, message: Vec<u8>) -> (r: Exception)
        ensures
            r@ == (kind, message@),
    {
        Exception { kind, message }
    }

    /// The class of the exception.
    pub fn kind(&self) -> (r: Kind)
        ensures
            r == self.kind,
    {
        self.kind
    }

    /// The Ruby name of the exception's class.
    pub fn name(&self) -> (r: String)
        ensures
            r@ == self.kind.name_spec(),
    {
        self.kind.name().to_owned()
    }

    /// The message of the exception.
    pub fn message(&self) -> (r: &[u8])
        ensures
            r@ == self.message@,
    {
        self.message.as_slice()
    }
}

} // verus!
