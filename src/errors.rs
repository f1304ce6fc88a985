use vstd::prelude::*;

verus! {

/// Typed failures of the library's operations.
#[derive(Debug, Clone, PartialEq, Eq)]
pub enum TidyError {
    /// A file system operation failed.
    Io { path: String, message: String },
    /// Access to a path was denied; the hint says what may help.
    PermissionDenied { path: String, hint: String },
    /// The path lies in a tree that System Integrity Protection keeps read-only.
    SipProtected { path: String },
    /// The safety gate refused to act on a protected path.
    ProtectedPath { path: String },
    /// The configuration file is invalid.
    ConfigError { path: String, message: String },
    /// No profile has this name.
    ProfileNotFound { name: String },
    /// The staging area cannot be used.
    StagingError { message: String },
    /// No session has this identifier.
    ManifestNotFound { id: String },
    /// A file could not be hashed.
    HashError { path: String, message: String },
    /// An application bundle is invalid or unreadable.
    AppError { name: String, message: String },
    /// Anything else.
    Other { message: String },
}

/// The one-line description of an error.
pub open spec fn error_text(e: TidyError) -> Seq<char> {
    match e {
        TidyError::Io { path, message } => "I/O error at '"@ + path@ + "': "@ + message@,
        TidyError::PermissionDenied { path, hint } => "Permission denied: '"@ + path@ + "'. "@ + hint@,
        TidyError::SipProtected { path } => "SIP-protected path (cannot modify): '"@ + path@ + "'"@,
        TidyError::ProtectedPath { path } => "SAFETY: Refusing to clean protected path: "@ + path@,
        TidyError::ConfigError { path, message } => "Config error in '"@ + path@ + "': "@ + message@,
        TidyError::ProfileNotFound { name } => "Profile '"@ + name@ + "' not found"@,
        TidyError::StagingError { message } => "Staging error: "@ + message@,
        TidyError::ManifestNotFound { id } => "Session '"@ + id@ + "' not found"@,
        TidyError::HashError { path, message } => "Hash error for '"@ + path@ + "': "@ + message@,
        TidyError::AppError { name, message } => "App error for '"@ + name@ + "': "@ + message@,
        TidyError::Other { message } => "Error: "@ + message@,
    }
}

impl TidyError {
    /// A one-line description of the error for users.
    pub fn message(&self) -> (r: String)
        ensures
            r@ == error_text(*self),
            r@.len() > 0,
    {
        proof {
            reveal_strlit("I/O error at '");
            reveal_strlit("Permission denied: '");
            reveal_strlit("SIP-protected path (cannot modify): '");
            reveal_strlit("SAFETY: Refusing to clean protected path: ");
            reveal_strlit("Config error in '");
            reveal_strlit("Profile '");
            reveal_strlit("Staging error: ");
            reveal_strlit("Session '");
            reveal_strlit("Hash error for '");
            reveal_strlit("App error for '");
            reveal_strlit("Error: ");
        }
        match self {
            TidyError::Io { path, message } => String::from_str("I/O error at '").concat(
                path.as_str(),
            ).concat("': ").concat(message.as_str()),
            TidyError::PermissionDenied { path, hint } => String::from_str(
                "Permission denied: '",
            ).concat(path.as_str()).concat("'. ").concat(hint.as_str()),
            TidyError::SipProtected { path } => String::from_str(
                "SIP-protected path (cannot modify): '",
            ).concat(path.as_str()).concat("'"),
            TidyError::ProtectedPath { path } => String::from_str(
                "SAFETY: Refusing to clean protected path: ",
            ).concat(path.as_str()),
            TidyError::ConfigError { path, message } => String::from_str(
                "Config error in '",
            ).concat(path.as_str()).concat("': ").concat(message.as_str()),
            TidyError::ProfileNotFound { name } => String::from_str("Profile '").concat(
                name.as_str(),
            ).concat("' not found"),
            TidyError::StagingError { message } => String::from_str("Staging error: ").concat(
                message.as_str(),
            ),
            TidyError::ManifestNotFound { id } => String::from_str("Session '").concat(
                id.as_str(),
            ).concat("' not found"),
            TidyError::HashError { path, message } => String::from_str("Hash error for '").concat(
                path.as_str(),
            ).concat("': ").concat(message.as_str()),
            TidyError::AppError { name, message } => String::from_str("App error for '").concat(
                name.as_str(),
            ).concat("': ").concat(message.as_str()),
            TidyError::Other { message } => String::from_str("Error: ").concat(message.as_str()),
        }
    }
}

} // verus!
