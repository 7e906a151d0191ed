//! Access to the environment of the process.
//!
//! What is decided here is which accesses the names and values allow. The
//! caller then reads, sets or removes the variable.

use vstd::prelude::*;
use vstd::string::StringSliceAdditionalSpecFns;

use crate::bytes::{append, copy};
use crate::exception::{Exception, Kind};

verus! {

/// The environment of the process.
#[derive(Debug, Default, Clone, Copy)]
pub struct System;

/// What the caller is to do with the environment of the process.
#[derive(Debug, Clone, Copy, PartialEq, Eq, Structural)]
pub enum Access {
    /// Nothing: no variable can have the name, and the result is `nil`.
    Nothing,
    /// Read the variable.
    Read,
    /// Set the variable to the value.
    Write,
    /// Remove the variable.
    Delete,
}

/// The first place at which the byte `needle` stands in the bytes, if it
/// stands in them.
pub open spec fn first_index_of(haystack: Seq<u8>, needle: u8) -> Option<int>
    decreases haystack.len(),
{
    if haystack.len() == 0 {
        None
    } else {
        match first_index_of(haystack.drop_last(), needle) {
            Some(at) => Some(at),
            None => if haystack.last() == needle {
                Some(haystack.len() - 1)
            } else {
                None
            },
        }
    }
}

/// `memchr::memchr`: the first place at which `needle` stands in `haystack`,
/// which is a place of the haystack, or nothing where it does not stand in
/// it.
#[verifier::external_body]
fn memchr(needle: u8, haystack: &[u8]) -> (r: Option<usize>)
    ensures
        match r {
            Some(at) => first_index_of(haystack@, needle) == Some(at as int) && at
                < haystack@.len(),
            None => first_index_of(haystack@, needle) is None,
        },
{
    memchr::memchr(needle, haystack)
}

/// The message of the error raised for a name with a NUL byte.
pub open spec fn name_nul_message() -> Seq<u8> {
    "bad environment variable name: contains null byte".spec_bytes()
}

/// The message of the error raised for a value with a NUL byte.
pub open spec fn value_nul_message() -> Seq<u8> {
    "bad environment variable value: contains null byte".spec_bytes()
}

/// The message of the error raised for setting a variable without a name.
pub open spec fn empty_name_message() -> Seq<u8> {
    "Invalid argument - setenv()".spec_bytes()
}

/// The message of the error raised for setting a variable whose name holds
/// an equals sign.
pub open spec fn equals_name_message(name: Seq<u8>) -> Seq<u8> {
    "Invalid argumen - setenv(".spec_bytes() + name + ")".spec_bytes()
}

/// What reading the variable `name` comes to: nothing for an empty name and
/// for a name with an equals sign, an `ArgumentError` for a name with a NUL
/// byte, and a read for every other name.
pub open spec fn get_spec(name: Seq<u8>) -> Result<Access, (Kind, Seq<u8>)> {
    if name.len() == 0 {
        Ok(Access::Nothing)
    } else if first_index_of(name, 0) is Some {
        Err((Kind::ArgumentError, name_nul_message()))
    } else if first_index_of(name, 61) is Some {
        Ok(Access::Nothing)
    } else {
        Ok(Access::Read)
    }
}

/// What setting the variable `name` to `value` comes to, or removing it
/// where there is no value: an `ArgumentError` for an empty name, for a name
/// with a NUL byte or an equals sign and for a value with a NUL byte, else
/// the setting or the removal.
pub open spec fn put_spec(name: Seq<u8>, value: Option<Seq<u8>>) -> Result<Access, (Kind, Seq<u8>)> {
    if name.len() == 0 {
        Err((Kind::ArgumentError, empty_name_message()))
    } else if first_index_of(name, 0) is Some {
        Err((Kind::ArgumentError, name_nul_message()))
    } else if first_index_of(name, 61) is Some {
        Err((Kind::ArgumentError, equals_name_message(name)))
    } else {
        match value {
            Some(value) => if first_index_of(value, 0) is Some {
                Err((Kind::ArgumentError, value_nul_message()))
            } else {
                Ok(Access::Write)
            },
            None => Ok(Access::Delete),
        }
    }
}

impl System {
    /// The environment of the process.
    pub fn new() -> (r: System)
        ensures
            r == System,
    {
        System
    }

    /// Decides what reading the variable `name` comes to.
    pub fn get(&self, name: &[u8]) -> (r: Result<Access, Exception>)
        ensures
            crate::value::outcome(r) == get_spec(name@),
    {
        if name.len() == 0 {
            Ok(Access::Nothing)
        } else if memchr(0u8, name).is_some() {
            Err(
                Exception::new(
                    Kind::ArgumentError,
                    "bad environment variable name: contains null byte",
                ),
            )
        } else if memchr(61u8, name).is_some() {
            Ok(Access::Nothing)
        } else {
            Ok(Access::Read)
        }
    }

    /// Decides what setting the variable `name` to `value` comes to, or
    /// removing it where there is no value.
    pub fn put(&mut self, name: &[u8], value: Option<&[u8]>) -> (r: Result<Access, Exception>)
        ensures
            crate::value::outcome(r) == put_spec(
                name@,
                match value {
                    Some(value) => Some(value@),
                    None => None,
                },
            ),
    {
        if name.len() == 0 {
            Err(Exception::new(Kind::ArgumentError, "Invalid argument - setenv()"))
        } else if memchr(0u8, name).is_some() {
            Err(
                Exception::new(
                    Kind::ArgumentError,
                    "bad environment variable name: contains null byte",
                ),
            )
        } else if memchr(61u8, name).is_some() {
            let mut message: Vec<u8> = copy("Invalid argumen - setenv(".as_bytes());
            append(&mut message, name);
            append(&mut message, ")".as_bytes());
            Err(Exception::new_raw(Kind::ArgumentError, message))
        } else {
            match value {
                Some(value) => {
                    if memchr(0u8, value).is_some() {
                        Err(
                            Exception::new(
                                Kind::ArgumentError,
                                "bad environment variable value: contains null byte",
                            ),
                        )
                    } else {
                        Ok(Access::Write)
                    }
                },
                None => Ok(Access::Delete),
            }
        }
    }
}

} // verus!
