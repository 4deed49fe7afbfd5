//! The ways a write session can fail. Every failure after the scratch file
//! exists names it, so that nothing drafted is lost.

use vstd::prelude::*;

verus! {

/// Why a write session stopped without filing the document.
pub enum GardenVarietyError {
    /// The scratch file could not be created in the collection directory.
    TempfileCreationError { message: String },
    /// The editor could not be started, or exited abnormally.
    LaunchError { filepath: String, message: String },
    /// The scratch file could not be read back after editing.
    TempfileReadError { filepath: String, message: String },
    /// Reading a reply from the terminal failed.
    PromptError { filepath: String, message: String },
    /// The scratch file could not be moved to its final name.
    CommitError { filepath: String, message: String },
}

/// The kinds of failure.
pub enum FailureKind {
    TempfileCreation,
    Launch,
    TempfileRead,
    Prompt,
    Commit,
}

/// A failure as values: its kind, the scratch file it left in place (none
/// when it was never created), and what the failing operation reported.
pub struct FailureView {
    pub kind: FailureKind,
    pub filepath: Option<Seq<char>>,
    pub message: Seq<char>,
}

impl View for GardenVarietyError {
    type V = FailureView;

    open spec fn view(&self) -> FailureView {
        match self {
            GardenVarietyError::TempfileCreationError { message } => FailureView {
                kind: FailureKind::TempfileCreation,
                filepath: None,
                message: message@,
            },
            GardenVarietyError::LaunchError { filepath, message } => FailureView {
                kind: FailureKind::Launch,
                filepath: Some(filepath@),
                message: message@,
            },
            GardenVarietyError::TempfileReadError { filepath, message } => FailureView {
                kind: FailureKind::TempfileRead,
                filepath: Some(filepath@),
                message: message@,
            },
            GardenVarietyError::PromptError { filepath, message } => FailureView {
                kind: FailureKind::Prompt,
                filepath: Some(filepath@),
                message: message@,
            },
            GardenVarietyError::CommitError { filepath, message } => FailureView {
                kind: FailureKind::Commit,
                filepath: Some(filepath@),
                message: message@,
            },
        }
    }
}

impl GardenVarietyError {
    /// The path of the scratch file that the failure left in place.
    pub fn scratch_path(&self) -> (r: Option<&String>)
        ensures
            opt_ref_view(r) == self@.filepath,
    {
        match self {
            GardenVarietyError::TempfileCreationError { .. } => None,
            GardenVarietyError::LaunchError { filepath, .. } => Some(filepath),
            GardenVarietyError::TempfileReadError { filepath, .. } => Some(filepath),
            GardenVarietyError::PromptError { filepath, .. } => Some(filepath),
            GardenVarietyError::CommitError { filepath, .. } => Some(filepath),
        }
    }
}

/// The value of an optional borrowed string.
pub open spec fn opt_ref_view(o: Option<&String>) -> Option<Seq<char>> {
    match o {
        Some(t) => Some(t@),
        None => None,
    }
}

} // verus!
