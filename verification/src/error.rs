//! The ways in which handling one image or one request can fail.

use vstd::prelude::*;

verus! {

/// Why an image or a request could not be handled.
#[derive(Clone, Copy, Debug, PartialEq, Eq, Structural)]
pub enum InferError {
    /// No active algorithm has the requested name.
    AlgorithmNotFound,
    /// A configuration file is missing or malformed. This is for the caller
    /// who loads the files; nothing in this crate returns it.
    ConfigLoadError,
    /// The source image could not be read, or is too large to be encoded.
    ImageReadError,
    /// The completion service failed or timed out. This is for the caller
    /// who submits the image; nothing in this crate returns it.
    CompletionServiceError,
    /// What the fenced blocks hold is not a JSON object.
    ExtractionParseError,
    /// A rename, a copy or an append to the result log failed, or a path
    /// that has to be copied names no file.
    FilesystemError,
    /// The regex engine refused the pattern of the fenced block.
    PatternRejected,
}

impl InferError {
    /// A one-line description for logs and for the body of an error response.
    pub fn message(&self) -> (text: &'static str)
        ensures
            text@ == match *self {
                InferError::AlgorithmNotFound => "Algorithm not found"@,
                InferError::ConfigLoadError => "Configuration could not be loaded"@,
                InferError::ImageReadError => "Image could not be read"@,
                InferError::CompletionServiceError => "Completion service failed"@,
                InferError::ExtractionParseError => "Extracted text is not a JSON object"@,
                InferError::FilesystemError => "Filesystem operation failed"@,
                InferError::PatternRejected => "Fence pattern was rejected"@,
            },
    {
        match self {
            InferError::AlgorithmNotFound => "Algorithm not found",
            InferError::ConfigLoadError => "Configuration could not be loaded",
            InferError::ImageReadError => "Image could not be read",
            InferError::CompletionServiceError => "Completion service failed",
            InferError::ExtractionParseError => "Extracted text is not a JSON object",
            InferError::FilesystemError => "Filesystem operation failed",
            InferError::PatternRejected => "Fence pattern was rejected",
        }
    }
}

} // verus!
