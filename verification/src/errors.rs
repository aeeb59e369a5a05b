//! The error taxonomy of a linking run.
//!
//! Every error is fatal: the first one encountered aborts the run, and the
//! shell prints exactly one human-readable line for it, produced by
//! [`Error::message`].

use vstd::prelude::*;
use vstd::string::StringExecFns;

verus! {

/// The failure conditions in spec form: every path or detail payload is a
/// sequence of characters, so contracts can speak of it directly.
pub enum SpecError {
    MissingRoot,
    Io(Seq<char>),
    InvalidConfig(Seq<char>),
    InvalidPrivilege,
    EnvVar(Seq<char>),
    ExistingPath(Seq<char>),
}

/// The failure conditions of a linking run. All are fatal; none is retried.
#[derive(Debug, PartialEq, Eq)]
pub enum Error {
    /// The configuration root directory is absent or cannot be listed.
    MissingRoot,
    /// Any other filesystem operation failed; the payload is the OS detail.
    Io(String),
    /// A root entry name that the mapping table does not know and that is
    /// not ignore-listed.
    InvalidConfig(String),
    /// Symbolic-link creation failed for lack of OS privilege.
    InvalidPrivilege,
    /// The home-directory environment value was missing or not valid text.
    EnvVar(String),
    /// A link destination is already occupied by non-link content.
    ExistingPath(String),
}

impl View for Error {
    type V = SpecError;

    open spec fn view(&self) -> SpecError {
        match self {
            Error::MissingRoot => SpecError::MissingRoot,
            Error::Io(detail) => SpecError::Io(detail@),
            Error::InvalidConfig(name) => SpecError::InvalidConfig(name@),
            Error::InvalidPrivilege => SpecError::InvalidPrivilege,
            Error::EnvVar(detail) => SpecError::EnvVar(detail@),
            Error::ExistingPath(path) => SpecError::ExistingPath(path@),
        }
    }
}

/// The one human-readable line that describes a failure.
pub open spec fn spec_message(e: SpecError) -> Seq<char> {
    match e {
        SpecError::MissingRoot => "`~/.config/cleanfig` does not exist"@,
        SpecError::Io(detail) => "io error: `"@ + detail + "`"@,
        SpecError::InvalidConfig(name) => "invalid config path `"@ + name + "`"@,
        SpecError::InvalidPrivilege => "must run as administrator"@,
        SpecError::EnvVar(detail) => detail,
        SpecError::ExistingPath(path) => "path `"@ + path + "` already exists"@,
    }
}

impl Error {
    /// The single line that the shell prints for this failure.
    pub fn message(&self) -> (m: String)
        ensures
            m@ == spec_message(self@),
    {
        match self {
            Error::MissingRoot => "`~/.config/cleanfig` does not exist".to_owned(),
            Error::Io(detail) => {
                let mut m = "io error: `".to_owned();
                m.append(detail.as_str());
                m.append("`");
                m
            },
            Error::InvalidConfig(name) => {
                let mut m = "invalid config path `".to_owned();
                m.append(name.as_str());
                m.append("`");
                m
            },
            Error::InvalidPrivilege => "must run as administrator".to_owned(),
            Error::EnvVar(detail) => detail.as_str().to_owned(),
            Error::ExistingPath(path) => {
                let mut m = "path `".to_owned();
                m.append(path.as_str());
                m.append("` already exists");
                m
            },
        }
    }
}

} // verus!
