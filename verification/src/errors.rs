//! Error taxonomy of the library.  Outside failures (I/O, JSON decoding)
//! are carried as their rendered text so that every variant is a plain
//! value.
use vstd::prelude::*;
use vstd::string::StringExecFns;

verus! {

/// One error of the document side of the backend.
#[derive(Debug, Clone)]
pub enum ClarezaError {
    /// An operating-system I/O failure, by its rendered text.
    Io(String),
    /// A JSON encode/decode failure, by its rendered text.
    Json(String),
    /// An ill-formed or unusable path.
    Path(String),
    /// A file that should exist does not.
    FileNotFound(String),
    /// Text that is not valid for the expected format.
    InvalidFormat(String),
    /// A failure while exporting a document.
    Export(String),
}

/// The one-line user-visible text of an error.
pub open spec fn spec_error_message(e: ClarezaError) -> Seq<char> {
    match e {
        ClarezaError::Io(s) => "IO error: "@ + s@,
        ClarezaError::Json(s) => "JSON serialization error: "@ + s@,
        ClarezaError::Path(s) => "Path error: "@ + s@,
        ClarezaError::FileNotFound(s) => "File not found: "@ + s@,
        ClarezaError::InvalidFormat(s) => "Invalid format: "@ + s@,
        ClarezaError::Export(s) => "Export error: "@ + s@,
    }
}

impl ClarezaError {
    /// Render the error as its user-visible message.
    pub fn message(&self) -> (r: String)
        ensures
            r@ == spec_error_message(*self),
    {
        match self {
            ClarezaError::Io(s) => String::from_str("IO error: ").concat(s.as_str()),
            ClarezaError::Json(s) => String::from_str("JSON serialization error: ").concat(
                s.as_str(),
            ),
            ClarezaError::Path(s) => String::from_str("Path error: ").concat(s.as_str()),
            ClarezaError::FileNotFound(s) => String::from_str("File not found: ").concat(
                s.as_str(),
            ),
            ClarezaError::InvalidFormat(s) => String::from_str("Invalid format: ").concat(
                s.as_str(),
            ),
            ClarezaError::Export(s) => String::from_str("Export error: ").concat(s.as_str()),
        }
    }
}

} // verus!
