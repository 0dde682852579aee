//! The results that the engine reports: of one transfer attempt and of one
//! manifest entry.

use vstd::prelude::*;

verus! {

/// How one transfer attempt ended.
#[derive(Clone, Copy, Debug, PartialEq, Eq, Structural)]
pub enum TransferOutcome {
    /// The whole body was written; the number of bytes written.
    Success(u64),
    /// The request did not reach the mirror, or the body broke off.
    NetworkError,
    /// The mirror answered with a status outside 200..=299.
    HttpStatusError(u16),
    /// The destination could not be opened or written.
    IoError,
    /// The cancellation flag was seen.
    Interrupted,
}

/// Why a manifest entry could not be materialised.
#[derive(Clone, Copy, Debug, PartialEq, Eq, Structural)]
pub enum FailureReason {
    /// The parent directory of the destination could not be created.
    DirectoryUnavailable,
    /// No mirror answered its probe and delivered the file.
    AllMirrorsFailed,
    /// The transferred file did not match the expected digest or size.
    ChecksumMismatch,
}

/// How the work on one manifest entry ended.
#[derive(Clone, Copy, Debug, PartialEq, Eq, Structural)]
pub enum FileOutcome {
    /// The file on disk already matched; nothing was transferred.
    AlreadyValid,
    /// The file was transferred and passed verification.
    Downloaded,
    /// The entry failed for the given reason.
    Failed(FailureReason),
    /// The cancellation flag was seen before the entry was done.
    Skipped,
}

impl TransferOutcome {
    /// A transfer attempt failed if it neither succeeded nor was interrupted.
    pub open spec fn failed(self) -> bool {
        match self {
            TransferOutcome::Success(_) => false,
            TransferOutcome::Interrupted => false,
            _ => true,
        }
    }

    /// Tells whether the attempt is one that a retry may repair.
    pub fn is_failure(&self) -> (b: bool)
        ensures
            b == self.failed(),
    {
        match self {
            TransferOutcome::Success(_) => false,
            TransferOutcome::Interrupted => false,
            _ => true,
        }
    }
}

impl FileOutcome {
    /// An entry counts as succeeded when its file is in place and valid.
    pub open spec fn succeeded(self) -> bool {
        self == FileOutcome::AlreadyValid || self == FileOutcome::Downloaded
    }

    /// Tells whether the entry's file is in place and valid.
    pub fn is_success(&self) -> (b: bool)
        ensures
            b == self.succeeded(),
    {
        match self {
            FileOutcome::AlreadyValid => true,
            FileOutcome::Downloaded => true,
            _ => false,
        }
    }
}

} // verus!
