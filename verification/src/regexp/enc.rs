//! The encoding of a `Regexp`.

use vstd::prelude::*;
use vstd::string::StringSliceAdditionalSpecFns;

use crate::types::Int;
use crate::value::{Inner, Value};

verus! {

/// The encoding that a pattern was given.
#[derive(Debug, Clone, Copy, Hash, PartialEq, Eq, Structural)]
pub enum Encoding {
    /// The pattern is bound to one encoding (`u`, `s` or `e`).
    Fixed,
    /// The pattern is matched as bytes (`n`).
    NoEncoding,
    /// No encoding was given.
    Unset,
}

impl Encoding {
    /// The bit by which `Regexp#options` reports the encoding.
    pub open spec fn flags_spec(self) -> Int {
        match self {
            Encoding::Fixed => 16,
            Encoding::NoEncoding => 32,
            Encoding::Unset => 0,
        }
    }

    /// The bit by which `Regexp#options` reports the encoding: 16 for a
    /// fixed encoding, 32 for none.
    pub fn flags(self) -> (r: Int)
        ensures
            r == self.flags_spec(),
    {
        match self {
            Encoding::Fixed => 16,
            Encoding::NoEncoding => 32,
            Encoding::Unset => 0,
        }
    }

    /// The letter by which `inspect` shows the encoding.
    pub open spec fn string_spec(self) -> Seq<u8> {
        match self {
            Encoding::NoEncoding => seq![110u8],
            _ => Seq::<u8>::empty(),
        }
    }

    /// The letter by which `inspect` shows the encoding: `n` where the
    /// pattern is matched as bytes, nothing else.
    pub fn string(self) -> (r: &'static str)
        ensures
            r.spec_bytes() == self.string_spec(),
    {
        match self {
            Encoding::NoEncoding => {
                proof {
                    reveal_strlit("n");
                    vstd::string::is_ascii_spec_bytes("n");
                }
                "n"
            },
            _ => {
                proof {
                    reveal_strlit("");
                    vstd::string::is_ascii_spec_bytes("");
                }
                ""
            },
        }
    }

    /// Whether two encodings match the same way: a fixed encoding only with
    /// a fixed one.
    pub open spec fn same_spec(self, other: Encoding) -> bool {
        (self is Fixed) == (other is Fixed)
    }

    /// Whether two encodings match the same way.
    pub fn same(self, other: Encoding) -> (r: bool)
        ensures
            r == self.same_spec(other),
    {
        match (self, other) {
            (Encoding::Fixed, Encoding::Fixed) => true,
            (Encoding::Fixed, _) => false,
            (_, Encoding::Fixed) => false,
            _ => true,
        }
    }
}

impl Default for Encoding {
    fn default() -> (r: Encoding)
        ensures
            r == Encoding::Unset,
    {
        Encoding::Unset
    }
}

/// Why an encoding cannot be read off a value.
#[derive(Debug, Clone, Copy, PartialEq, Eq, Structural)]
pub enum Error {
    /// The value names no encoding, or more than one.
    InvalidEncoding,
}

/// Whether a letter binds a pattern to an encoding.
pub open spec fn is_fixed_letter(b: u8) -> bool {
    b == 117 || b == 115 || b == 101
}

/// Whether a letter is one that may stand among the options of a pattern.
pub open spec fn is_option_letter(b: u8) -> bool {
    is_fixed_letter(b) || b == 110 || b == 105 || b == 109 || b == 120 || b == 111
}

/// The number of letters that bind to an encoding.
pub open spec fn fixed_letters(s: Seq<u8>) -> nat
    decreases s.len(),
{
    if s.len() == 0 {
        0
    } else {
        fixed_letters(s.drop_last()) + if is_fixed_letter(s.last()) {
            1nat
        } else {
            0nat
        }
    }
}

/// The number of letters `n`.
pub open spec fn none_letters(s: Seq<u8>) -> nat
    decreases s.len(),
{
    if s.len() == 0 {
        0
    } else {
        none_letters(s.drop_last()) + if s.last() == 110 {
            1nat
        } else {
            0nat
        }
    }
}

/// Whether every letter may stand among the options of a pattern.
pub open spec fn all_option_letters(s: Seq<u8>) -> bool {
    forall|i: int| 0 <= i < s.len() ==> is_option_letter(#[trigger] s[i])
}

/// The encoding that a string of option letters names: fixed for one of `u`,
/// `s` and `e`, none for `n`, and unset where it names none. A string with
/// any other letter than these and `i`, `m`, `x` and `o`, or with more than
/// one letter that names an encoding, is invalid.
pub open spec fn parse_letters_spec(s: Seq<u8>) -> Result<Encoding, Error> {
    if !all_option_letters(s) || fixed_letters(s) + none_letters(s) > 1 {
        Err(Error::InvalidEncoding)
    } else if fixed_letters(s) == 1 {
        Ok(Encoding::Fixed)
    } else if none_letters(s) == 1 {
        Ok(Encoding::NoEncoding)
    } else {
        Ok(Encoding::Unset)
    }
}

/// The encoding that an argument of `Regexp.new` stands for.
///
/// Of an integer the bits that are no options are read: 16 is a fixed
/// encoding, 32 is none, 0 leaves the encoding unset, and everything else is
/// invalid. A string is read as option letters. Every other value leaves the
/// encoding unset.
pub open spec fn parse_spec(value: Value) -> Result<Encoding, Error> {
    match value.inner_spec() {
        Inner::Fixnum(bits) => if (bits & !7) == 16 {
            Ok(Encoding::Fixed)
        } else if (bits & !7) == 32 {
            Ok(Encoding::NoEncoding)
        } else if (bits & !7) == 0 {
            Ok(Encoding::Unset)
        } else {
            Err(Error::InvalidEncoding)
        },
        Inner::String(letters) => parse_letters_spec(letters@),
        _ => Ok(Encoding::Unset),
    }
}

/// The encoding that a string of option letters names.
pub fn parse_letters(letters: &[u8]) -> (r: Result<Encoding, Error>)
    ensures
        r == parse_letters_spec(letters@),
{
    let mut fixed: usize = 0;
    let mut none: usize = 0;
    let mut i: usize = 0;
    while i < letters.len()
        invariant
            i <= letters@.len(),
            fixed == fixed_letters(letters@.take(i as int)),
            none == none_letters(letters@.take(i as int)),
            fixed + none <= i,
            forall|k: int| 0 <= k < i ==> is_option_letter(#[trigger] letters@[k]),
        decreases letters@.len() - i,
    {
        proof {
            assert(letters@.take(i + 1).drop_last() =~= letters@.take(i as int));
        }
        let b: u8 = letters[i];
        if b == 117 || b == 115 || b == 101 {
            fixed += 1;
        } else if b == 110 {
            none += 1;
        } else if b == 105 || b == 109 || b == 120 || b == 111 {
        } else {
            return Err(Error::InvalidEncoding);
        }
        i += 1;
    }
    assert(letters@.take(letters@.len() as int) =~= letters@);
    if fixed + none > 1 {
        Err(Error::InvalidEncoding)
    } else if fixed == 1 {
        Ok(Encoding::Fixed)
    } else if none == 1 {
        Ok(Encoding::NoEncoding)
    } else {
        Ok(Encoding::Unset)
    }
}

/// The encoding that an argument of `Regexp.new` stands for.
pub fn parse(value: &Value) -> (r: Result<Encoding, Error>)
    ensures
        r == parse_spec(*value),
{
    match value.inner() {
        Inner::Fixnum(bits) => {
            let encoding: Int = *bits & !7;
            if encoding == 16 {
                Ok(Encoding::Fixed)
            } else if encoding == 32 {
                Ok(Encoding::NoEncoding)
            } else if encoding == 0 {
                Ok(Encoding::Unset)
            } else {
                Err(Error::InvalidEncoding)
            }
        },
        Inner::String(letters) => parse_letters(letters.as_slice()),
        _ => Ok(Encoding::Unset),
    }
}

} // verus!
