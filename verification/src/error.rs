//! Errors of the version manager and their messages.
use vstd::prelude::*;

verus! {

/// What went wrong in a version-manager operation.
#[derive(Debug, Clone)]
pub enum GvmError {
    /// The requested version has no directory under the versions directory.
    NotInstalled { version: String },
    /// The version's directory exists and reinstalling was not forced.
    AlreadyInstalled { version: String },
    /// The version is the target of the `current` link.
    CurrentlyActive { version: String },
    /// Neither `USERPROFILE` nor `HOME` names a home directory.
    HomeDirUnknown,
    /// The archive did not hold the top-level `go` directory.
    GoDirMissing,
    /// The installed tree has no Go executable where one was expected.
    BinaryMissing { path: String },
    /// A step failed; `context` says which, `detail` is the cause's text.
    Failed { context: String, detail: String },
    /// A file system or network error passed on unchanged.
    Io { detail: String },
    /// The tasks of a plan cannot be ordered so that each follows its
    /// prerequisites.
    CircularDependency,
    /// A check refused what it was given; `reason` says why.
    Rejected { reason: String },
    /// The archive's SHA-256 digest differs from the published one.
    ChecksumMismatch { file: String, expected: String, actual: String },
}

/// The message of an error.
pub open spec fn error_text(e: GvmError) -> Seq<char> {
    match e {
        GvmError::NotInstalled { version } => "Go version "@ + version@ + " is not installed"@,
        GvmError::AlreadyInstalled { version } => "Go version "@ + version@
            + " is already installed"@,
        GvmError::CurrentlyActive { version } => "Cannot uninstall Go "@ + version@
            + " as it is currently active. Please switch to another version first."@,
        GvmError::HomeDirUnknown => "Unable to get user home directory"@,
        GvmError::GoDirMissing => "Expected 'go' directory not found after extraction"@,
        GvmError::BinaryMissing { path } => "Go binary not found after extraction at "@ + path@,
        GvmError::Failed { context, detail } => context@ + ": "@ + detail@,
        GvmError::Io { detail } => detail@,
        GvmError::CircularDependency => "Circular dependency detected in tasks"@,
        GvmError::Rejected { reason } => reason@,
        GvmError::ChecksumMismatch { file, expected, actual } => "Checksum mismatch for "@ + file@
            + ": expected "@ + expected@ + ", got "@ + actual@,
    }
}

impl GvmError {
    /// The message shown for this error.
    pub fn message(&self) -> (res: String)
        ensures
            res@ == error_text(*self),
    {
        match self {
            GvmError::NotInstalled { version } => {
                let mut s = String::from_str("Go version ");
                s.append(version.as_str());
                s.append(" is not installed");
                s
            },
            GvmError::AlreadyInstalled { version } => {
                let mut s = String::from_str("Go version ");
                s.append(version.as_str());
                s.append(" is already installed");
                s
            },
            GvmError::CurrentlyActive { version } => {
                let mut s = String::from_str("Cannot uninstall Go ");
                s.append(version.as_str());
                s.append(" as it is currently active. Please switch to another version first.");
                s
            },
            GvmError::HomeDirUnknown => String::from_str("Unable to get user home directory"),
            GvmError::GoDirMissing => String::from_str(
                "Expected 'go' directory not found after extraction",
            ),
            GvmError::BinaryMissing { path } => {
                let mut s = String::from_str("Go binary not found after extraction at ");
                s.append(path.as_str());
                s
            },
            GvmError::Failed { context, detail } => {
                let mut s = String::from_str(context.as_str());
                s.append(": ");
                s.append(detail.as_str());
                s
            },
            GvmError::Io { detail } => String::from_str(detail.as_str()),
            GvmError::CircularDependency => String::from_str("Circular dependency detected in tasks"),
            GvmError::Rejected { reason } => reason.clone(),
            GvmError::ChecksumMismatch { file, expected, actual } => {
                let mut s = String::from_str("Checksum mismatch for ");
                s.append(file.as_str());
                s.append(": expected ");
                s.append(expected.as_str());
                s.append(", got ");
                s.append(actual.as_str());
                s
            },
        }
    }
}

/// The kinds of I/O error that get a message of their own.
pub enum IoErrorKind {
    NotFound,
    PermissionDenied,
    AlreadyExists,
    InvalidInput,
    Other,
}

/// The kinds of network failure that get a message of their own.
pub enum NetworkErrorKind {
    Timeout,
    Connect,
    /// The server answered with an error status, shown as its text when known.
    Status { status: Option<String> },
    Other,
}

/// Error handling utility functions.
pub struct ErrorUtils;

impl ErrorUtils {
    /// Converts an I/O error, given by its kind and its own text, to a
    /// user-friendly message.
    pub fn io_error_to_message(kind: IoErrorKind, description: &str) -> (res: String)
        ensures
            res@ == match kind {
                IoErrorKind::NotFound => "File or directory not found"@,
                IoErrorKind::PermissionDenied => "Permission denied"@,
                IoErrorKind::AlreadyExists => "File or directory already exists"@,
                IoErrorKind::InvalidInput => "Invalid input"@,
                IoErrorKind::Other => "IO Error: "@ + description@,
            },
    {
        match kind {
            IoErrorKind::NotFound => String::from_str("File or directory not found"),
            IoErrorKind::PermissionDenied => String::from_str("Permission denied"),
            IoErrorKind::AlreadyExists => String::from_str("File or directory already exists"),
            IoErrorKind::InvalidInput => String::from_str("Invalid input"),
            IoErrorKind::Other => {
                let mut s = String::from_str("IO Error: ");
                s.append(description);
                s
            },
        }
    }

    /// Converts a network error, given by its kind and its own text, to a
    /// user-friendly message.
    pub fn network_error_to_message(kind: NetworkErrorKind, description: &str) -> (res: String)
        ensures
            res@ == match kind {
                NetworkErrorKind::Timeout => "Network request timed out"@,
                NetworkErrorKind::Connect => "Could not connect to the server"@,
                NetworkErrorKind::Status { status } => "Server returned an error: "@ + match status {
                    Some(st) => st@,
                    None => "Unknown"@,
                },
                NetworkErrorKind::Other => "Network error: "@ + description@,
            },
    {
        match kind {
            NetworkErrorKind::Timeout => String::from_str("Network request timed out"),
            NetworkErrorKind::Connect => String::from_str("Could not connect to the server"),
            NetworkErrorKind::Status { status } => {
                let mut s = String::from_str("Server returned an error: ");
                match status {
                    Some(st) => s.append(st.as_str()),
                    None => s.append("Unknown"),
                }
                s
            },
            NetworkErrorKind::Other => {
                let mut s = String::from_str("Network error: ");
                s.append(description);
                s
            },
        }
    }
}

} // verus!
