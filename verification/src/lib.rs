//! Expansion of environment-variable placeholders inside strings.
//!
//! A string such as `"$HOME/bin"` or `"%HOME%\bin"` is scanned once from left
//! to right; every well-formed placeholder whose variable is set is replaced by
//! the variable's value, and everything else is copied through as written.
//!
//! Two grammars are known: the Unix forms `$NAME` and `${NAME}`, and the
//! Windows form `%NAME%`. An [`ExpansionMode`] says which of them a scan
//! reads. A placeholder whose variable is not set, and a token that is not
//! closed, stay in the text as they were written; a value that was filled in
//! is not scanned again. Expansion never fails.
//!
//! [`expand`] and [`Env`] read the process environment; [`expand_with`] does
//! the same against a list of variables that the caller gives, and
//! [`substitute`] against the answers to the lookups themselves.

pub mod env;
pub mod environment;
pub mod expand;
pub mod grammar;
pub mod laws;
pub mod mode;
pub mod text;

pub use crate::env::Env;
pub use crate::expand::{expand, expand_with, placeholder_names, substitute};
pub use crate::mode::{ExpansionMode, OsFamily};
