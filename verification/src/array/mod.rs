//! How the arguments of `[]` and `[]=` address the elements of a sequence.

pub mod args;
