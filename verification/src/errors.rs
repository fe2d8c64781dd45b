//! The error taxonomy of the backup workflow: one kind per step.

use vstd::prelude::*;

verus! {

/// One error kind per workflow step. Any failure is fatal to the
/// run: no step is retried, and no later step may be attempted.
#[derive(Clone, Copy, Debug, PartialEq, Eq, Structural)]
pub enum BackupError {
    /// The server could not be reached at all (no response received).
    Connectivity,
    /// Login failed: transport failure, non-success status, or a
    /// response that does not carry a token.
    Authentication,
    /// The file listing failed, was malformed, or no entry matched
    /// the requested sync id.
    FileResolution,
    /// The download failed at transport level or returned a
    /// non-success status.
    Download,
}

impl BackupError {
    /// A short human-readable description naming the failed step.
    pub fn message(&self) -> (r: &'static str)
        ensures
            r@ == self.spec_message(),
    {
        match self {
            BackupError::Connectivity => "cannot reach server",
            BackupError::Authentication => "authentication failed",
            BackupError::FileResolution => "could not resolve budget file id",
            BackupError::Download => "download failed",
        }
    }

    /// What `message` returns for each kind.
    pub open spec fn spec_message(self) -> Seq<char> {
        match self {
            BackupError::Connectivity => "cannot reach server"@,
            BackupError::Authentication => "authentication failed"@,
            BackupError::FileResolution => "could not resolve budget file id"@,
            BackupError::Download => "download failed"@,
        }
    }
}

} // verus!
