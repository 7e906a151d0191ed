//! The arguments of `Regexp.new`: what they stand for, and the warnings
//! that they give.

use vstd::prelude::*;
use vstd::string::StringSliceAdditionalSpecFns;

use crate::bytes::{append, copy};
use crate::exception::{Exception, Kind};
use crate::regexp::{new_spec, value_view, Config, Regexp};
use crate::regexp::backend::names::strings_view;
use crate::regexp::enc::{self, Encoding};
use crate::regexp::model::Model;
use crate::regexp::opts::{self, parse_pattern_spec, Options};
use crate::value::{no_implicit_conversion, no_implicit_conversion_error, Inner, Value};

verus! {

/// A `Regexp` that `initialize` made, and the warnings that it gave.
#[derive(Debug)]
pub struct Initialized {
    /// The `Regexp`.
    pub regexp: Regexp,
    /// The warnings, in turn.
    pub warnings: Vec<Vec<u8>>,
}

/// The warning given for a value that names no encoding.
pub open spec fn encoding_ignored(value: Value) -> Seq<u8> {
    "encoding option is ignored -- ".spec_bytes() + value.to_s_spec()
}

/// The warning given for options beside a pattern that is a `Regexp`.
pub open spec fn flags_ignored() -> Seq<u8> {
    "flags ignored when initializing from Regexp".spec_bytes()
}

/// The value from which `initialize` reads the encoding: the third argument
/// where there is one, else the second.
pub open spec fn encoding_source(options: Option<Value>, encoding: Option<Value>) -> Option<Value> {
    match encoding {
        Some(encoding) => Some(encoding),
        None => options,
    }
}

/// The options that `initialize` reads from its second argument.
pub open spec fn given_options(options: Option<Value>) -> Option<Options> {
    match options {
        Some(options) => Some(opts::parse_spec(options)),
        None => None,
    }
}

/// The encoding that `initialize` reads from its arguments, if they name
/// one.
pub open spec fn given_encoding(options: Option<Value>, encoding: Option<Value>) -> Option<
    Encoding,
> {
    match encoding_source(options, encoding) {
        Some(source) => match enc::parse_spec(source) {
            Ok(encoding) => Some(encoding),
            Err(_) => None,
        },
        None => None,
    }
}

/// The warning that `initialize` gives for a value that names no encoding.
pub open spec fn encoding_warnings(options: Option<Value>, encoding: Option<Value>) -> Seq<Seq<u8>> {
    match encoding_source(options, encoding) {
        Some(source) => if enc::parse_spec(source) is Err {
            seq![encoding_ignored(source)]
        } else {
            Seq::empty()
        },
        None => Seq::empty(),
    }
}

/// The warning that `initialize` gives for options beside a pattern that is
/// a `Regexp`.
pub open spec fn flags_warnings(pattern: Value, options: Option<Value>, encoding: Option<Value>) -> Seq<
    Seq<u8>,
> {
    if pattern.inner_spec() is Regexp && (given_options(options) is Some || given_encoding(
        options,
        encoding,
    ) is Some) {
        seq![flags_ignored()]
    } else {
        Seq::empty()
    }
}

/// The warnings that `initialize` gives: one for a value that names no
/// encoding, and one for options beside a pattern that is a `Regexp`.
pub open spec fn warnings_spec(pattern: Value, options: Option<Value>, encoding: Option<Value>) -> Seq<
    Seq<u8>,
> {
    encoding_warnings(options, encoding) + flags_warnings(pattern, options, encoding)
}

/// The pattern and options that `initialize` takes as written: those of a
/// `Regexp`, or the bytes of a string with the options that were given. A
/// value that is neither is a `TypeError`.
pub open spec fn literal_spec(pattern: Value, options: Option<Value>) -> Result<
    (Seq<u8>, Options),
    (Kind, Seq<u8>),
> {
    match pattern.inner_spec() {
        Inner::Regexp(source) => Ok(source.literal@),
        _ => match pattern.coerced_bytes_spec() {
            Some(bytes) => Ok(
                (
                    bytes,
                    match given_options(options) {
                        Some(options) => options,
                        None => Options::default_spec(),
                    },
                ),
            ),
            None => Err(
                (Kind::TypeError, no_implicit_conversion(pattern.pretty_name_spec(), "String"@)),
            ),
        },
    }
}

/// What `initialize` gives: the `Regexp` of the pattern with the options and
/// the encoding that the arguments stand for.
pub open spec fn initialize_spec(
    pattern: Value,
    options: Option<Value>,
    encoding: Option<Value>,
) -> Result<Model, (Kind, Seq<u8>)> {
    match literal_spec(pattern, options) {
        Err(e) => Err(e),
        Ok(literal) => new_spec(
            literal,
            parse_pattern_spec(literal.0, literal.1),
            match given_encoding(options, encoding) {
                Some(encoding) => encoding,
                None => Encoding::Unset,
            },
        ),
    }
}

/// Reads the encoding from the arguments of `initialize`, and adds a
/// warning for a value that names none.
pub(crate) fn read_encoding(options: Option<&Value>, encoding: Option<&Value>, warnings: &mut Vec<Vec<u8>>) -> (r:
    Option<Encoding>)
    requires
        old(warnings)@.len() == 0,
    ensures
        r == given_encoding(value_view(options), value_view(encoding)),
        strings_view(final(warnings)@) == encoding_warnings(
            value_view(options),
            value_view(encoding),
        ),
{
    let source: Option<&Value> = match encoding {
        Some(encoding) => Some(encoding),
        None => options,
    };
    match source {
        Some(source) => match enc::parse(source) {
            Ok(encoding) => Some(encoding),
            Err(_) => {
                let mut warning: Vec<u8> = copy("encoding option is ignored -- ".as_bytes());
                let shown: Vec<u8> = source.to_s();
                append(&mut warning, shown.as_slice());
                warnings.push(warning);
                None
            },
        },
        None => None,
    }
}

/// Reads the pattern and options as written from the first argument of
/// `initialize`, and adds a warning where options stand beside a `Regexp`.
pub(crate) fn read_literal(
    pattern: &Value,
    given: Option<Options>,
    flags: bool,
    warnings: &mut Vec<Vec<u8>>,
) -> (r: Result<Config, Exception>)
    ensures
        match r {
            Ok(literal) => (match pattern.inner_spec() {
                Inner::Regexp(source) => literal@ == source.literal@,
                _ => pattern.coerced_bytes_spec() is Some && literal@ == (
                    pattern.coerced_bytes_spec().unwrap(),
                    match given {
                        Some(options) => options,
                        None => Options::default_spec(),
                    },
                ),
            }) && strings_view(final(warnings)@) == strings_view(old(warnings)@) + (if flags
                && pattern.inner_spec() is Regexp {
                seq![flags_ignored()]
            } else {
                Seq::empty()
            }),
            Err(e) => !(pattern.inner_spec() is Regexp) && pattern.coerced_bytes_spec() is None
                && e@ == (
                Kind::TypeError,
                no_implicit_conversion(pattern.pretty_name_spec(), "String"@),
            ),
        },
{
    match pattern.inner() {
        Inner::Regexp(source) => {
            if flags {
                warnings.push(copy("flags ignored when initializing from Regexp".as_bytes()));
            }
            Ok(source.literal.dup())
        },
        _ => match pattern.coerce_to_bytes() {
            Some(bytes) => {
                Ok(
                    Config {
                        pattern: copy(bytes),
                        options: match given {
                            Some(options) => options,
                            None => Options::default(),
                        },
                    },
                )
            },
            None => Err(no_implicit_conversion_error(pattern.pretty_name(), "String")),
        },
    }
}

} // verus!
