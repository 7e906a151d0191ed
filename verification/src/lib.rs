//! Regular expressions and their match results for an embedded Ruby
//! interpreter: the `Regexp` and `MatchData` values, the matching engines
//! behind them, the globals that mirror the last match, and the rules by which
//! `[]` arguments address the elements of a sequence.
//!
//! The interpreter itself is not part of this crate. A value that comes from
//! it is held as plain data ([`value::Value`]), an exception that would be
//! raised on it is returned as an [`exception::Exception`], and the globals
//! that a match publishes live in a [`regexp::Globals`] that the caller owns.

pub mod array;
pub mod bytes;
pub mod class;
pub mod def;
pub mod env;
pub mod exception;
pub mod matchdata;
pub mod module;
pub mod random;
pub mod regexp;
pub mod types;
pub mod value;
