//! The per-file failures a rewrite can end in, and their diagnostic text.

use vstd::prelude::*;
use vstd::string::StringExecFns;

verus! {

/// Why the rewrite of one file failed. Every failure is a value, never an
/// abort: the dispatcher alone turns failures into an exit status.
#[derive(Clone, Copy, PartialEq, Eq, Structural, Debug)]
pub enum RewriteError {
    /// The path could not be canonicalized, or has no file-name component.
    PathError,
    /// The file's contents could not be read.
    ReadError,
    /// The formatter rejected the file's text as unparseable.
    FormatError,
    /// Every numbered backup slot is already taken.
    BackupExhausted,
    /// Renaming the original to the backup path failed; the original is
    /// untouched.
    BackupRenameError,
    /// Writing the formatted text failed; the pre-format content is still
    /// recoverable from the backup path.
    WriteError,
    /// The formatted text is durably written, but the backup could not be
    /// removed.
    CleanupError,
}

/// The diagnostic line for a failure of `err` on the file named `path`.
pub open spec fn message_of(err: RewriteError, path: Seq<char>) -> Seq<char> {
    match err {
        RewriteError::PathError => "Path error: `"@ + path + "`"@,
        RewriteError::ReadError => "Can't read: `"@ + path + "`"@,
        RewriteError::FormatError => "Error formatting: `"@ + path + "`"@,
        RewriteError::BackupExhausted => "Can't find path for backup"@,
        RewriteError::BackupRenameError => "Failed to backup: `"@ + path + "`"@,
        RewriteError::WriteError => "Failed to write: `"@ + path + "`"@,
        RewriteError::CleanupError => "Failed delete backup: `"@ + path + "`"@,
    }
}

/// Builds the one-line diagnostic for a failure of `err` on the file the
/// user named `path`.
pub fn failure_message(err: RewriteError, path: &str) -> (r: String)
    ensures
        r@ == message_of(err, path@),
{
    match err {
        RewriteError::PathError => String::from_str("Path error: `").concat(path).concat("`"),
        RewriteError::ReadError => String::from_str("Can't read: `").concat(path).concat("`"),
        RewriteError::FormatError => String::from_str("Error formatting: `").concat(path).concat(
            "`",
        ),
        RewriteError::BackupExhausted => String::from_str("Can't find path for backup"),
        RewriteError::BackupRenameError => String::from_str("Failed to backup: `").concat(
            path,
        ).concat("`"),
        RewriteError::WriteError => String::from_str("Failed to write: `").concat(path).concat("`"),
        RewriteError::CleanupError => String::from_str("Failed delete backup: `").concat(
            path,
        ).concat("`"),
    }
}

} // verus!
