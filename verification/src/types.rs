//! The type tags by which the interpreter classifies its values.

use vstd::prelude::*;

use crate::value::Inner;

verus! {

/// The interpreter's integer type.
pub type Int = i64;

/// The kinds of value that the interpreter distinguishes.
#[derive(Debug, Clone, Copy, PartialEq, Eq, Hash, Structural)]
pub enum Ruby {
    /// An `Array`.
    Array,
    /// `true` or `false`.
    Bool,
    /// A `Class`.
    Class,
    /// A borrowed pointer that the interpreter does not own.
    CPointer,
    /// An object whose state is a Rust value.
    Data,
    /// An `Exception` or one of its subclasses.
    Exception,
    /// A `Fiber`.
    Fiber,
    /// An `Integer` that fits in [`Int`].
    Fixnum,
    /// A `Float`.
    Float,
    /// A `Hash`.
    Hash,
    /// A structure stored inline in the value.
    InlineStruct,
    /// A `Module`.
    Module,
    /// `nil`.
    Nil,
    /// An instance of a class defined in Ruby.
    Object,
    /// A `Proc`.
    Proc,
    /// A `Range`.
    Range,
    /// A singleton class.
    SingletonClass,
    /// A `String`.
    String,
    /// A `Symbol`.
    Symbol,
    /// A value internal to the interpreter, which must not be used.
    Unreachable,
}

impl Ruby {
    /// The name under which values of this kind are reported.
    pub open spec fn class_name_spec(self) -> Seq<char> {
        match self {
            Ruby::Array => "Array"@,
            Ruby::Bool => "Boolean"@,
            Ruby::Class => "Class"@,
            Ruby::CPointer => "C Pointer"@,
            Ruby::Data => "Rust-backed Ruby instance"@,
            Ruby::Exception => "Exception"@,
            Ruby::Fiber => "Fiber"@,
            Ruby::Fixnum => "Fixnum"@,
            Ruby::Float => "Float"@,
            Ruby::Hash => "Hash"@,
            Ruby::InlineStruct => "Inline Struct"@,
            Ruby::Module => "Module"@,
            Ruby::Nil => "NilClass"@,
            Ruby::Object => "Object"@,
            Ruby::Proc => "Proc"@,
            Ruby::Range => "Range"@,
            Ruby::SingletonClass => "Singleton (anonymous) class"@,
            Ruby::String => "String"@,
            Ruby::Symbol => "Symbol"@,
            Ruby::Unreachable => "internal and unreachable"@,
        }
    }

    /// The name under which values of this kind are reported.
    pub fn class_name(self) -> (r: &'static str)
        ensures
            r@ == self.class_name_spec(),
    {
        match self {
            Ruby::Array => "Array",
            Ruby::Bool => "Boolean",
            Ruby::Class => "Class",
            Ruby::CPointer => "C Pointer",
            Ruby::Data => "Rust-backed Ruby instance",
            Ruby::Exception => "Exception",
            Ruby::Fiber => "Fiber",
            Ruby::Fixnum => "Fixnum",
            Ruby::Float => "Float",
            Ruby::Hash => "Hash",
            Ruby::InlineStruct => "Inline Struct",
            Ruby::Module => "Module",
            Ruby::Nil => "NilClass",
            Ruby::Object => "Object",
            Ruby::Proc => "Proc",
            Ruby::Range => "Range",
            Ruby::SingletonClass => "Singleton (anonymous) class",
            Ruby::String => "String",
            Ruby::Symbol => "Symbol",
            Ruby::Unreachable => "internal and unreachable",
        }
    }
}

/// The kind of value that a value of the interpreter is, by what it holds:
/// `nil` is of its own kind and not a boolean, a `Regexp` is an object whose
/// state is a Rust value, and a value internal to the interpreter is
/// unreachable.
pub open spec fn ruby_of(value: Inner) -> Ruby {
    match value {
        Inner::Nil => Ruby::Nil,
        Inner::Bool(_) => Ruby::Bool,
        Inner::Fixnum(_) => Ruby::Fixnum,
        Inner::String(_) => Ruby::String,
        Inner::Symbol(_) => Ruby::Symbol,
        Inner::Array(_) => Ruby::Array,
        Inner::Range { .. } => Ruby::Range,
        Inner::Regexp(_) => Ruby::Data,
        Inner::Object(_) => Ruby::Object,
        Inner::Unreachable => Ruby::Unreachable,
    }
}

/// The kind of value that a value of the interpreter is.
pub fn ruby_from_mrb_value(value: &Inner) -> (r: Ruby)
    ensures
        r == ruby_of(*value),
{
    match value {
        Inner::Nil => Ruby::Nil,
        Inner::Bool(_) => Ruby::Bool,
        Inner::Fixnum(_) => Ruby::Fixnum,
        Inner::String(_) => Ruby::String,
        Inner::Symbol(_) => Ruby::Symbol,
        Inner::Array(_) => Ruby::Array,
        Inner::Range { .. } => Ruby::Range,
        Inner::Regexp(_) => Ruby::Data,
        Inner::Object(_) => Ruby::Object,
        Inner::Unreachable => Ruby::Unreachable,
    }
}

} // verus!
