//! The options of a `Regexp`.

use vstd::prelude::*;

use crate::bytes::{append, copy, has_byte};
use crate::types::Int;
use crate::value::{Inner, Value};

verus! {

/// The options of a pattern.
#[derive(Debug, Clone, Copy, Hash, PartialEq, Eq, Structural)]
pub struct Options {
    /// `m`: a dot also matches a newline.
    pub multiline: bool,
    /// `i`: letters match without regard to case.
    pub ignore_case: bool,
    /// `x`: whitespace and comments in the pattern are ignored.
    pub extended: bool,
    /// The pattern was written as a literal in the program text.
    pub literal: bool,
}

impl Options {
    /// The options of a pattern that was given none.
    pub open spec fn default_spec() -> Options {
        Options { multiline: false, ignore_case: false, extended: false, literal: false }
    }

    /// The option bits: 1 for `i`, 2 for `x`, 4 for `m`.
    pub open spec fn flags_spec(self) -> u32 {
        ((if self.ignore_case {
            1int
        } else {
            0int
        }) + (if self.extended {
            2int
        } else {
            0int
        }) + (if self.multiline {
            4int
        } else {
            0int
        })) as u32
    }

    /// The option bits, as `Regexp#options` reports them and the general
    /// engine takes them: 1 for `i`, 2 for `x`, 4 for `m`.
    pub fn flags(self) -> (r: u32)
        ensures
            r == self.flags_spec(),
            r < 8,
    {
        let mut bits: u32 = 0;
        if self.ignore_case {
            bits = bits + 1;
        }
        if self.extended {
            bits = bits + 2;
        }
        if self.multiline {
            bits = bits + 4;
        }
        bits
    }

    /// The letters of the options that are set, in the order `m`, `i`, `x`.
    pub open spec fn modifier_spec(self) -> Seq<u8> {
        (if self.multiline {
            seq![109u8]
        } else {
            Seq::<u8>::empty()
        }) + (if self.ignore_case {
            seq![105u8]
        } else {
            Seq::<u8>::empty()
        }) + (if self.extended {
            seq![120u8]
        } else {
            Seq::<u8>::empty()
        })
    }

    /// The letters of the options that are set, as they follow the closing
    /// slash of a pattern: `m`, `i` and `x`, in that order.
    pub fn modifier_string(self) -> (r: Vec<u8>)
        ensures
            r@ == self.modifier_spec(),
    {
        let mut out: Vec<u8> = Vec::new();
        if self.multiline {
            out.push(109u8);
        }
        if self.ignore_case {
            out.push(105u8);
        }
        if self.extended {
            out.push(120u8);
        }
        out
    }

    /// The letters of the options that are not set, in the order `m`, `i`,
    /// `x`.
    pub open spec fn unset_spec(self) -> Seq<u8> {
        (if self.multiline {
            Seq::<u8>::empty()
        } else {
            seq![109u8]
        }) + (if self.ignore_case {
            Seq::<u8>::empty()
        } else {
            seq![105u8]
        }) + (if self.extended {
            Seq::<u8>::empty()
        } else {
            seq![120u8]
        })
    }

    /// The options as a group of a pattern switches them: the letters that
    /// are set, then, if any is not, `-` and the letters that are not.
    pub open spec fn inline_spec(self) -> Seq<u8> {
        if self.unset_spec().len() == 0 {
            self.modifier_spec()
        } else {
            self.modifier_spec() + seq![45u8] + self.unset_spec()
        }
    }

    /// The options as a group of a pattern switches them, such as `mi-x`.
    pub fn inline_string(self) -> (r: Vec<u8>)
        ensures
            r@ == self.inline_spec(),
    {
        let mut out: Vec<u8> = self.modifier_string();
        let mut unset: Vec<u8> = Vec::new();
        if !self.multiline {
            unset.push(109u8);
        }
        if !self.ignore_case {
            unset.push(105u8);
        }
        if !self.extended {
            unset.push(120u8);
        }
        if unset.len() > 0 {
            out.push(45u8);
            append(&mut out, unset.as_slice());
        }
        out
    }
}

impl Default for Options {
    fn default() -> (r: Options)
        ensures
            r == Options::default_spec(),
    {
        Options { multiline: false, ignore_case: false, extended: false, literal: false }
    }
}

/// The options that the second argument of `Regexp.new` stands for.
///
/// An integer is read as option bits: 1 for `i`, 2 for `x`, 4 for `m`, and
/// 128 for a pattern that was written as a literal. A string sets the
/// options whose letters it holds. `nil` and `false` set no option; every
/// other value sets `i`.
pub open spec fn parse_spec(value: Value) -> Options {
    match value.inner_spec() {
        Inner::Fixnum(bits) => Options {
            ignore_case: (bits & 1) != 0,
            extended: (bits & 2) != 0,
            multiline: (bits & 4) != 0,
            literal: (bits & 128) != 0,
        },
        Inner::Nil => Options::default_spec(),
        Inner::Bool(false) => Options::default_spec(),
        Inner::String(letters) => Options {
            ignore_case: letters@.contains(105u8),
            extended: letters@.contains(120u8),
            multiline: letters@.contains(109u8),
            literal: false,
        },
        _ => Options { ignore_case: true, ..Options::default_spec() },
    }
}

/// The options that the second argument of `Regexp.new` stands for.
pub fn parse(value: &Value) -> (r: Options)
    ensures
        r == parse_spec(*value),
{
    match value.inner() {
        Inner::Fixnum(bits) => {
            let bits: Int = *bits;
            Options {
                ignore_case: (bits & 1) != 0,
                extended: (bits & 2) != 0,
                multiline: (bits & 4) != 0,
                literal: (bits & 128) != 0,
            }
        },
        Inner::Nil => Options::default(),
        Inner::Bool(false) => Options::default(),
        Inner::String(letters) => Options {
            ignore_case: has_byte(letters.as_slice(), 105u8),
            extended: has_byte(letters.as_slice(), 120u8),
            multiline: has_byte(letters.as_slice(), 109u8),
            literal: false,
        },
        _ => Options { ignore_case: true, multiline: false, extended: false, literal: false },
    }
}

/// The pattern in a group that switches the options: `(?`, the options, `:`,
/// the pattern and `)`.
pub open spec fn wrapped(pattern: Seq<u8>, options: Options) -> Seq<u8> {
    seq![40u8, 63u8] + options.inline_spec() + seq![58u8] + pattern + seq![41u8]
}

/// The options after the letters from `at` on are applied to them, and the
/// offset behind the colon that ends the letters: `-` switches from setting
/// to unsetting, and `i`, `m` and `x` set or unset their option. Nothing
/// where a byte is none of these, or no colon follows.
pub open spec fn fold_flags(pattern: Seq<u8>, at: int, enabled: bool, options: Options) -> Option<
    (Options, int),
>
    decreases pattern.len() - at,
{
    if at < 0 || at >= pattern.len() {
        None
    } else if pattern[at] == 45 {
        fold_flags(pattern, at + 1, false, options)
    } else if pattern[at] == 105 {
        fold_flags(pattern, at + 1, enabled, Options { ignore_case: enabled, ..options })
    } else if pattern[at] == 109 {
        fold_flags(pattern, at + 1, enabled, Options { multiline: enabled, ..options })
    } else if pattern[at] == 120 {
        fold_flags(pattern, at + 1, enabled, Options { extended: enabled, ..options })
    } else if pattern[at] == 58 {
        Some((options, at + 1))
    } else {
        None
    }
}

/// Whether the group that is `nest` levels deep at `at` is closed by the
/// last byte of the pattern and not before, every parenthesis counted.
pub open spec fn closes_at_end(pattern: Seq<u8>, at: int, nest: nat) -> bool
    decreases pattern.len() - at,
{
    if at < 0 || at >= pattern.len() {
        false
    } else if pattern[at] == 40 {
        closes_at_end(pattern, at + 1, nest + 1)
    } else if pattern[at] == 41 {
        if nest <= 1 {
            at == pattern.len() - 1
        } else {
            closes_at_end(pattern, at + 1, (nest - 1) as nat)
        }
    } else {
        closes_at_end(pattern, at + 1, nest)
    }
}

/// The pattern and options that are compiled for a pattern and its options.
///
/// A pattern that is one group that switches options, such as `(?i:abc)`, is
/// kept, and its letters are applied to the options. Every other pattern is
/// put in a group that switches the options as they are.
pub open spec fn parse_pattern_spec(pattern: Seq<u8>, options: Options) -> (Seq<u8>, Options) {
    if pattern.len() >= 2 && pattern[0] == 40 && pattern[1] == 63 {
        match fold_flags(pattern, 2, true, options) {
            Some((folded, at)) => if closes_at_end(pattern, at, 1) {
                (pattern, folded)
            } else {
                (wrapped(pattern, options), options)
            },
            None => (wrapped(pattern, options), options),
        }
    } else {
        (wrapped(pattern, options), options)
    }
}

/// The pattern in a group that switches the options.
pub fn wrap(pattern: &[u8], options: Options) -> (r: Vec<u8>)
    ensures
        r@ == wrapped(pattern@, options),
{
    let mut out: Vec<u8> = Vec::new();
    out.push(40u8);
    out.push(63u8);
    let letters: Vec<u8> = options.inline_string();
    append(&mut out, letters.as_slice());
    out.push(58u8);
    append(&mut out, pattern);
    out.push(41u8);
    out
}

/// The pattern and options that are compiled for a pattern and its options.
pub fn parse_pattern(pattern: &[u8], options: Options) -> (r: (Vec<u8>, Options))
    ensures
        (r.0@, r.1) == parse_pattern_spec(pattern@, options),
{
    if !(pattern.len() >= 2 && pattern[0] == 40u8 && pattern[1] == 63u8) {
        return (wrap(pattern, options), options);
    }
    let mut folded: Options = options;
    let mut enabled: bool = true;
    let mut at: usize = 2;
    let mut colon: bool = false;
    while at < pattern.len() && !colon
        invariant
            2 <= at <= pattern@.len(),
            !colon ==> fold_flags(pattern@, 2, true, options) == fold_flags(
                pattern@,
                at as int,
                enabled,
                folded,
            ),
            colon ==> fold_flags(pattern@, 2, true, options) == Some((folded, at as int)),
        decreases pattern@.len() - at,
    {
        let b: u8 = pattern[at];
        if b == 45u8 {
            enabled = false;
        } else if b == 105u8 {
            folded.ignore_case = enabled;
        } else if b == 109u8 {
            folded.multiline = enabled;
        } else if b == 120u8 {
            folded.extended = enabled;
        } else if b == 58u8 {
            colon = true;
        } else {
            return (wrap(pattern, options), options);
        }
        at += 1;
    }
    if !colon {
        return (wrap(pattern, options), options);
    }
    let ghost begin = at;
    let mut nest: usize = 1;
    while at < pattern.len()
        invariant
            begin <= at <= pattern@.len(),
            1 <= nest <= at,
            pattern@.len() >= 2 && pattern@[0] == 40 && pattern@[1] == 63,
            fold_flags(pattern@, 2, true, options) == Some((folded, begin as int)),
            closes_at_end(pattern@, begin as int, 1) == closes_at_end(
                pattern@,
                at as int,
                nest as nat,
            ),
        decreases pattern@.len() - at,
    {
        let b: u8 = pattern[at];
        if b == 40u8 {
            nest += 1;
        } else if b == 41u8 {
            if nest == 1 {
                if at == pattern.len() - 1 {
                    return (copy(pattern), folded);
                } else {
                    return (wrap(pattern, options), options);
                }
            }
            nest -= 1;
        }
        at += 1;
    }
    (wrap(pattern, options), options)
}

} // verus!
