//! Application-wide error type.

use vstd::prelude::*;

verus! {

/// Every fallible operation of the library reports one of these.
#[derive(Debug)]
pub enum AppError {
    /// Encryption/decryption failure.
    Crypto(String),
    /// Config file I/O or parse failure.
    Config(String),
    /// SSH remote command failure.
    Ssh { host: String, cmd: String, cause: String },
    /// Job not found in the in-memory registry.
    JobNotFound(String),
    /// Invalid user input (bad URL, unknown type, etc.).
    InvalidInput(String),
    /// Soulseek server rejected the connection (rate limit / ban).
    SoulseekBanned { ip: Option<String>, message: String },
    /// Internal state inconsistency.
    Internal(String),
}

/// Result of a fallible library operation.
pub type AppResult<T> = Result<T, AppError>;

/// The " (IP: ...)" part of a ban message.
pub open spec fn ip_suffix(ip: Option<String>) -> Seq<char> {
    match ip {
        Some(i) => " (IP: "@ + i@ + ")"@,
        None => Seq::empty(),
    }
}

/// The text shown to the user for an error.
pub open spec fn error_text(e: AppError) -> Seq<char> {
    match e {
        AppError::Crypto(msg) => "Crypto error: "@ + msg@,
        AppError::Config(msg) => "Config error: "@ + msg@,
        AppError::Ssh { host, cmd, cause } => "SSH failed on "@ + host@ + ": "@ + cause@
            + " (cmd: "@ + cmd@ + ")"@,
        AppError::JobNotFound(id) => "Job "@ + id@ + " not found"@,
        AppError::InvalidInput(msg) => "Invalid input: "@ + msg@,
        AppError::SoulseekBanned { ip, message } => "Soulseek ban"@ + ip_suffix(ip) + ": "@
            + message@,
        AppError::Internal(msg) => "Internal error: "@ + msg@,
    }
}

impl AppError {
    /// The text shown to the user for this error.
    pub fn to_string(&self) -> (r: String)
        ensures
            r@ == error_text(*self),
    {
        match self {
            AppError::Crypto(msg) => {
                let mut r = String::from_str("Crypto error: ");
                r.append(msg.as_str());
                r
            },
            AppError::Config(msg) => {
                let mut r = String::from_str("Config error: ");
                r.append(msg.as_str());
                r
            },
            AppError::Ssh { host, cmd, cause } => {
                let mut r = String::from_str("SSH failed on ");
                r.append(host.as_str());
                r.append(": ");
                r.append(cause.as_str());
                r.append(" (cmd: ");
                r.append(cmd.as_str());
                r.append(")");
                r
            },
            AppError::JobNotFound(id) => {
                let mut r = String::from_str("Job ");
                r.append(id.as_str());
                r.append(" not found");
                r
            },
            AppError::InvalidInput(msg) => {
                let mut r = String::from_str("Invalid input: ");
                r.append(msg.as_str());
                r
            },
            AppError::SoulseekBanned { ip, message } => {
                let mut r = String::from_str("Soulseek ban");
                match ip {
                    Some(i) => {
                        r.append(" (IP: ");
                        r.append(i.as_str());
                        r.append(")");
                    },
                    None => {},
                }
                r.append(": ");
                r.append(message.as_str());
                r
            },
            AppError::Internal(msg) => {
                let mut r = String::from_str("Internal error: ");
                r.append(msg.as_str());
                r
            },
        }
    }

    /// The error for a JSON document that could not be read or written;
    /// `detail` is the JSON library's description of the problem.
    pub fn json(detail: &str) -> (e: AppError)
        ensures
            e matches AppError::Config(m) && m@ == "JSON parse: "@ + detail@,
    {
        let mut m = String::from_str("JSON parse: ");
        m.append(detail);
        AppError::Config(m)
    }
}

/// Converts a result to the `Result<T, String>` shape the frontend expects.
pub fn to_tauri<T>(r: AppResult<T>) -> (out: Result<T, String>)
    ensures
        match r {
            Ok(v) => out matches Ok(w) && w == v,
            Err(e) => out matches Err(m) && m@ == error_text(e),
        },
{
    match r {
        Ok(v) => Ok(v),
        Err(e) => Err(e.to_string()),
    }
}

} // verus!
