//! The interface of ecosystem parsers.

use vstd::prelude::*;
use vstd::string::StringExecFns;

use crate::model::HarvesterBatch;

verus! {

/// Why parsing failed.
#[derive(Debug, Clone)]
pub enum ParseError {
    /// The content is not a manifest that the parser understands.
    InvalidContent(String),
    /// Reading failed; the field is the text of the I/O error.
    IoError(String),
    /// Something else went wrong.
    Unknown(String),
}

impl ParseError {
    /// The message of the error.
    pub open spec fn message_text(self) -> Seq<char> {
        match self {
            ParseError::InvalidContent(detail) => "Failed to parse content: "@ + detail@,
            ParseError::IoError(detail) => "IO error: "@ + detail@,
            ParseError::Unknown(detail) => "Unknown error: "@ + detail@,
        }
    }

    /// The message of the error.
    pub fn message(&self) -> (text: String)
        ensures
            text@ == self.message_text(),
    {
        match self {
            ParseError::InvalidContent(detail) => String::from_str(
                "Failed to parse content: ",
            ).concat(detail.as_str()),
            ParseError::IoError(detail) => String::from_str("IO error: ").concat(detail.as_str()),
            ParseError::Unknown(detail) => String::from_str("Unknown error: ").concat(
                detail.as_str(),
            ),
        }
    }
}

/// A parser of the manifests of one ecosystem.
pub trait EcosystemParser: Send + Sync {
    /// The identifier of the ecosystem, such as `npm` or `cargo`.
    fn ecosystem_id(&self) -> &str;

    /// Reads the bytes of a manifest into a batch.
    fn parse(&self, content: &[u8]) -> Result<HarvesterBatch, ParseError>;
}

} // verus!
