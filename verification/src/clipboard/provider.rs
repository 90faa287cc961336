//! What all clipboards have in common.

use vstd::prelude::*;

verus! {

/// What a clipboard reports.
#[derive(Debug)]
pub enum ClipboardProviderEvent {
    /// Somebody else owns the clipboard now.
    SelectionChanged {
        /// The types that can be had from the new owner.
        mime_types: Vec<String>,
        /// Whether the report is certain, and no echo of what was announced here.
        force: bool,
    },
    /// Somebody wants data that was announced here.
    SelectionTransfer { serial: u32, mime_type: String },
}

/// Why a clipboard operation failed.
#[derive(Debug)]
pub enum ClipboardError {
    PortalError(String),
}

impl ClipboardError {
    /// What failed, in words.
    pub open spec fn text(self) -> Seq<char> {
        match self {
            ClipboardError::PortalError(t) => t@,
        }
    }
}

/// The error of an operation with its cause.
pub fn operation_failed(what: &str, cause: &str) -> (r: ClipboardError)
    ensures
        r.text() == what@ + ": "@ + cause@,
{
    let mut t = what.to_owned();
    t.append(": ");
    t.append(cause);
    ClipboardError::PortalError(t)
}

} // verus!
