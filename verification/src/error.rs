//! What reading and writing can fail with.

use vstd::prelude::*;
use vstd::string::StringExecFns;

verus! {

/// Why a spreadsheet could not be read.
#[derive(Debug)]
pub enum ParseError {
    /// The file could not be opened.
    Io { detail: String },
    /// The reader failed on the row with index `row`, counted from 0.
    RowRead { row: usize, detail: String },
}

impl ParseError {
    /// The text that `message` gives.
    pub open spec fn message_text(&self) -> Seq<char> {
        match self {
            ParseError::Io { detail } => "Failed to open file: "@ + detail@,
            ParseError::RowRead { detail, .. } => "Failed to read CSV record: "@ + detail@,
        }
    }

    /// The error as a line of text for the caller.
    pub fn message(&self) -> (text: String)
        ensures
            text@ == self.message_text(),
    {
        match self {
            ParseError::Io { detail } => String::from_str("Failed to open file: ").concat(
                detail.as_str(),
            ),
            ParseError::RowRead { detail, .. } => String::from_str(
                "Failed to read CSV record: ",
            ).concat(detail.as_str()),
        }
    }
}

/// Why a rating sheet could not be written.
#[derive(Debug)]
pub enum ExportError {
    /// The writer failed on a row or on finishing the buffer.
    Serialize { detail: String },
}

impl ExportError {
    /// The text that `message` gives.
    pub open spec fn message_text(&self) -> Seq<char> {
        match self {
            ExportError::Serialize { detail } => detail@,
        }
    }

    /// The error as a line of text for the caller.
    pub fn message(&self) -> (text: String)
        ensures
            text@ == self.message_text(),
    {
        match self {
            ExportError::Serialize { detail } => detail.clone(),
        }
    }
}

} // verus!
