//! What can go wrong with the files of a project.

use vstd::prelude::*;
use vstd::string::StringExecFns;

verus! {

/// An error, with the text that says what happened.
#[derive(Debug)]
pub enum Error {
    /// A file could not be read or written.
    Io(String),
    /// A file is no valid YAML, or does not hold what it should.
    Yaml(String),
    /// The data is not what it should be.
    InvalidData(String),
    /// Something asked for is not there.
    NotFound(String),
    /// A document cannot be exported.
    Export(String),
}

/// The text of an error, behind the name of its kind.
pub open spec fn error_text(error: Error) -> Seq<char> {
    match error {
        Error::Io(text) => "IO error: "@ + text@,
        Error::Yaml(text) => "YAML serialization error: "@ + text@,
        Error::InvalidData(text) => "Invalid data: "@ + text@,
        Error::NotFound(text) => "Not found: "@ + text@,
        Error::Export(text) => "Export error: "@ + text@,
    }
}

impl Error {
    /// The error as text for the user.
    pub fn message(&self) -> (text: String)
        ensures
            text@ == error_text(*self),
    {
        match self {
            Error::Io(text) => String::from_str("IO error: ").concat(text.as_str()),
            Error::Yaml(text) => String::from_str("YAML serialization error: ").concat(
                text.as_str(),
            ),
            Error::InvalidData(text) => String::from_str("Invalid data: ").concat(text.as_str()),
            Error::NotFound(text) => String::from_str("Not found: ").concat(text.as_str()),
            Error::Export(text) => String::from_str("Export error: ").concat(text.as_str()),
        }
    }
}

} // verus!
