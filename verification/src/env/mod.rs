//! The environment of the process, as Ruby's `ENV` sees it.

pub mod system;
