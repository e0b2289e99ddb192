//! Why a run ends early.

use vstd::prelude::*;

verus! {

/// The ways in which a run can end without a tagged commit.
#[derive(Debug, Clone, Copy, PartialEq, Eq, Structural)]
pub enum BumpError {
    /// No recognised manifest file is present in the working directory.
    ManifestNotFound,
    /// The manifest is malformed, or its version field is absent or not text.
    ManifestParseError,
    /// The document cannot be written in the manifest's format.
    SerializeError,
    /// The component to raise already holds the largest value it can.
    VersionOverflow,
    /// No increment was asked for.
    NoIncrementSpecified,
    /// The operator declined the new version.
    UserAborted,
    /// The manifest could not be written to disk.
    WriteFailure,
    /// Staging, committing or tagging failed.
    RepositoryError,
}

impl BumpError {
    /// Whether the error ends the run as a failure. Asking for no increment
    /// and declining the prompt are clean endings; everything else is fatal.
    pub open spec fn fatal(self) -> bool {
        !(self is NoIncrementSpecified || self is UserAborted)
    }

    /// Whether the error ends the run as a failure.
    pub fn is_fatal(&self) -> (fatal: bool)
        ensures
            fatal == self.fatal(),
    {
        match self {
            BumpError::NoIncrementSpecified | BumpError::UserAborted => false,
            _ => true,
        }
    }

    /// The process exit code that reports this error: 0 for a clean ending,
    /// 1 for a fatal one.
    pub fn exit_code(&self) -> (code: i32)
        ensures
            code == if self.fatal() { 1i32 } else { 0i32 },
    {
        if self.is_fatal() {
            1
        } else {
            0
        }
    }
}

} // verus!
