use vstd::prelude::*;

use crate::codec::{base64_error_text, base64_message, Base64Error};

verus! {

/// Why a tool could not do its work.
#[derive(Debug)]
pub enum ToolError {
    /// A required argument is absent or not a string; it holds the
    /// argument's name.
    MissingArgument(String),
    /// No tool has the requested name.
    UnknownTool(String),
    /// The APK to install is not on the local disk.
    ApkNotFound(String),
    /// The `adb` program could not be started.
    AdbUnavailable,
    /// `adb` ran and reported failure; it holds what `adb` wrote to stderr.
    AdbFailed(String),
    /// A local file operation failed; it holds the system's description.
    Io(String),
    /// The upload is not valid base64.
    InvalidBase64(Base64Error),
    /// A downloaded file was to be returned as text but is not UTF-8.
    NotUtf8,
}

/// The model of a `ToolError`.
pub enum Failure {
    MissingArgument(Seq<char>),
    UnknownTool(Seq<char>),
    ApkNotFound(Seq<char>),
    AdbUnavailable,
    AdbFailed(Seq<char>),
    Io(Seq<char>),
    InvalidBase64(Base64Error),
    NotUtf8,
}

impl View for ToolError {
    type V = Failure;

    open spec fn view(&self) -> Failure {
        match self {
            ToolError::MissingArgument(a) => Failure::MissingArgument(a@),
            ToolError::UnknownTool(n) => Failure::UnknownTool(n@),
            ToolError::ApkNotFound(p) => Failure::ApkNotFound(p@),
            ToolError::AdbUnavailable => Failure::AdbUnavailable,
            ToolError::AdbFailed(e) => Failure::AdbFailed(e@),
            ToolError::Io(m) => Failure::Io(m@),
            ToolError::InvalidBase64(e) => Failure::InvalidBase64(*e),
            ToolError::NotUtf8 => Failure::NotUtf8,
        }
    }
}

/// The sentence that reports a failure.
pub open spec fn failure_message(f: Failure) -> Seq<char> {
    match f {
        Failure::MissingArgument(a) => "Missing '"@ + a + "' argument"@,
        Failure::UnknownTool(n) => "Unknown tool: "@ + n,
        Failure::ApkNotFound(p) => "APK file not found: "@ + p,
        Failure::AdbUnavailable => "Failed to execute ADB command"@,
        Failure::AdbFailed(e) => "ADB command failed: "@ + e,
        Failure::Io(m) => m,
        Failure::InvalidBase64(e) => base64_message(e),
        Failure::NotUtf8 => "File is not valid UTF-8 text"@,
    }
}

impl ToolError {
    /// The sentence that reports this failure.
    pub fn message(&self) -> (s: String)
        ensures
            s@ == failure_message(self@),
    {
        match self {
            ToolError::MissingArgument(a) => "Missing '".to_owned().concat(a.as_str()).concat(
                "' argument",
            ),
            ToolError::UnknownTool(n) => "Unknown tool: ".to_owned().concat(n.as_str()),
            ToolError::ApkNotFound(p) => "APK file not found: ".to_owned().concat(p.as_str()),
            ToolError::AdbUnavailable => "Failed to execute ADB command".to_owned(),
            ToolError::AdbFailed(e) => "ADB command failed: ".to_owned().concat(e.as_str()),
            ToolError::Io(m) => m.clone(),
            ToolError::InvalidBase64(e) => base64_error_text(*e),
            ToolError::NotUtf8 => "File is not valid UTF-8 text".to_owned(),
        }
    }
}

} // verus!
