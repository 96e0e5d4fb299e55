//! A string whose placeholders have been expanded.

use vstd::prelude::*;
use vstd::string::*;
use crate::expand::{expand, has_delimiter, is_expansion, token_free};
use crate::mode::{ExpansionMode, OsFamily};

verus! {

/// A text in which the environment variables have been filled in. It is
/// made once, by expansion, and only read afterwards.
#[derive(Debug)]
pub struct Env {
    text: String,
}

impl View for Env {
    type V = Seq<char>;

    closed spec fn view(&self) -> Seq<char> {
        self.text@
    }
}

impl Env {
    /// Expands `value` against the process environment, under the grammar
    /// that is native to `family`, the operating-system family of the host.
    pub fn new(value: &str, family: OsFamily) -> (env: Env)
        ensures
            is_expansion(value@, ExpansionMode::native_to(family), env@),
            !has_delimiter(value@, ExpansionMode::native_to(family)) ==> env@ == value@,
            token_free(value@, ExpansionMode::native_to(family)) ==> env@ == value@,
    {
        Env::with_mode(value, ExpansionMode::for_family(family))
    }

    /// Expands `value` against the process environment, under the grammar
    /// that the caller chooses.
    pub fn with_mode(value: &str, mode: ExpansionMode) -> (env: Env)
        ensures
            is_expansion(value@, mode, env@),
            !has_delimiter(value@, mode) ==> env@ == value@,
            token_free(value@, mode) ==> env@ == value@,
    {
        Env { text: expand(value, mode) }
    }

    /// The expanded text.
    pub fn as_str(&self) -> (text: &str)
        ensures
            text@ == self@,
    {
        self.text.as_str()
    }

    /// Gives the expanded text away.
    pub fn into_string(self) -> (text: String)
        ensures
            text@ == self@,
    {
        self.text
    }

    /// Compares the expanded text with a plain string.
    pub fn eq_str(&self, other: &str) -> (same: bool)
        ensures
            same == (self@ == other@),
    {
        self.text == String::from_str(other)
    }
}

impl Clone for Env {
    fn clone(&self) -> (copy: Env)
        ensures
            copy@ == self@,
    {
        Env { text: self.text.clone() }
    }
}

impl core::ops::Deref for Env {
    type Target = String;

    fn deref(&self) -> (text: &String)
        ensures
            text@ == self@,
    {
        &self.text
    }
}

impl AsRef<str> for Env {
    fn as_ref(&self) -> (text: &str)
        ensures
            text@ == self@,
    {
        self.text.as_str()
    }
}

impl PartialEq for Env {
    fn eq(&self, other: &Env) -> (same: bool) {
        self.text == other.text
    }
}

impl Eq for Env {

}

impl vstd::std_specs::cmp::PartialEqSpecImpl for Env {
    open spec fn obeys_eq_spec() -> bool {
        true
    }

    open spec fn eq_spec(&self, other: &Env) -> bool {
        self@ == other@
    }
}

impl PartialEq<String> for Env {
    fn eq(&self, other: &String) -> (same: bool) {
        self.text == *other
    }
}

impl vstd::std_specs::cmp::PartialEqSpecImpl<String> for Env {
    open spec fn obeys_eq_spec() -> bool {
        true
    }

    open spec fn eq_spec(&self, other: &String) -> bool {
        self@ == other@
    }
}

impl PartialEq<Env> for String {
    fn eq(&self, other: &Env) -> (same: bool) {
        *self == other.text
    }
}

impl vstd::std_specs::cmp::PartialEqSpecImpl<Env> for String {
    open spec fn obeys_eq_spec() -> bool {
        true
    }

    open spec fn eq_spec(&self, other: &Env) -> bool {
        self@ == other@
    }
}

impl PartialEq<str> for Env {
    fn eq(&self, other: &str) -> (same: bool) {
        self.eq_str(other)
    }
}

impl vstd::std_specs::cmp::PartialEqSpecImpl<str> for Env {
    open spec fn obeys_eq_spec() -> bool {
        true
    }

    open spec fn eq_spec(&self, other: &str) -> bool {
        self@ == other@
    }
}

impl PartialEq<Env> for str {
    fn eq(&self, other: &Env) -> (same: bool) {
        other.eq_str(self)
    }
}

impl vstd::std_specs::cmp::PartialEqSpecImpl<Env> for str {
    open spec fn obeys_eq_spec() -> bool {
        true
    }

    open spec fn eq_spec(&self, other: &Env) -> bool {
        self@ == other@
    }
}

} // verus!
