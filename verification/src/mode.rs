//! Which placeholder grammars a scan recognises, and how the host picks one.

use vstd::prelude::*;
use vstd::string::*;

verus! {

/// The placeholder grammars that are active during one expansion.
#[derive(Clone, Copy, Debug, PartialEq, Eq, Structural)]
pub enum ExpansionMode {
    /// `$NAME` and `${NAME}`.
    Unix,
    /// `%NAME%`.
    Windows,
    /// Both grammars, in the same pass.
    All,
}

/// The operating-system family of the host, as far as expansion cares.
#[derive(Clone, Copy, Debug, PartialEq, Eq, Structural)]
pub enum OsFamily {
    Unix,
    Windows,
    /// Any family that is neither Unix nor Windows.
    Other,
}

impl ExpansionMode {
    /// `$` introduces a placeholder in this mode.
    pub open spec fn reads_unix(self) -> bool {
        self != ExpansionMode::Windows
    }

    /// `%` introduces a placeholder in this mode.
    pub open spec fn reads_windows(self) -> bool {
        self != ExpansionMode::Unix
    }

    /// The mode that is native to a family.
    pub open spec fn native_to(family: OsFamily) -> ExpansionMode {
        match family {
            OsFamily::Unix => ExpansionMode::Unix,
            OsFamily::Windows => ExpansionMode::Windows,
            OsFamily::Other => ExpansionMode::All,
        }
    }

    /// The default mode for a host of the given family: its native grammar,
    /// or both grammars where the family is unknown.
    pub fn for_family(family: OsFamily) -> (mode: ExpansionMode)
        ensures
            mode == ExpansionMode::native_to(family),
    {
        match family {
            OsFamily::Unix => ExpansionMode::Unix,
            OsFamily::Windows => ExpansionMode::Windows,
            OsFamily::Other => ExpansionMode::All,
        }
    }
}

impl OsFamily {
    /// The family that a family name denotes.
    pub open spec fn named(name: Seq<char>) -> OsFamily {
        if name == "unix"@ {
            OsFamily::Unix
        } else if name == "windows"@ {
            OsFamily::Windows
        } else {
            OsFamily::Other
        }
    }

    /// Reads a family name as the platform reports it: `"unix"`, `"windows"`,
    /// anything else being an unknown family.
    pub fn from_name(name: &str) -> (family: OsFamily)
        ensures
            family == OsFamily::named(name@),
    {
        let given = String::from_str(name);
        if given == String::from_str("unix") {
            OsFamily::Unix
        } else if given == String::from_str("windows") {
            OsFamily::Windows
        } else {
            OsFamily::Other
        }
    }
}

} // verus!
