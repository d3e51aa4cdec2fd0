//! The job service's error taxonomy and its user-facing texts.

use vstd::prelude::*;

use crate::text::{chars_to_string, dec_str, push_str_chars, u64_to_dec_chars};

verus! {

/// An error surfaced by the job service.
#[derive(Debug, Clone, PartialEq)]
pub enum AppError {
    /// No job under the given id.
    JobNotFound(String),
    /// No file at the given path.
    FileNotFound(String),
    /// The uploaded file's type is not accepted.
    InvalidFileType(String),
    /// The upload exceeds the limit: actual size, then the limit.
    FileTooLarge(usize, usize),
    /// The daemon connection failed.
    GpopConnection(String),
    /// The daemon answered outside the protocol.
    GpopProtocol(String),
    /// The daemon refused to create a pipeline.
    PipelineCreation(String),
    /// A storage operation failed.
    Storage(String),
    /// Anything else.
    Internal(String),
}

/// The user-facing text of a job-service error.
pub open spec fn app_error_message(e: AppError) -> Seq<char> {
    match e {
        AppError::JobNotFound(m) => "Job not found: "@ + m@,
        AppError::FileNotFound(m) => "File not found: "@ + m@,
        AppError::InvalidFileType(m) => "Invalid file type: "@ + m@,
        AppError::FileTooLarge(size, max) => "File too large: "@ + dec_str(size as int)
            + " bytes (max: "@ + dec_str(max as int) + " bytes)"@,
        AppError::GpopConnection(m) => "gpop connection error: "@ + m@,
        AppError::GpopProtocol(m) => "gpop protocol error: "@ + m@,
        AppError::PipelineCreation(m) => "Pipeline creation failed: "@ + m@,
        AppError::Storage(m) => "Storage error: "@ + m@,
        AppError::Internal(m) => "Internal error: "@ + m@,
    }
}

impl AppError {
    /// Renders the error as its user-facing text.
    pub fn message(&self) -> (r: String)
        ensures
            r@ == app_error_message(*self),
    {
        let mut out: Vec<char> = Vec::new();
        match self {
            AppError::JobNotFound(m) => {
                push_str_chars(&mut out, "Job not found: ");
                push_str_chars(&mut out, m.as_str());
            },
            AppError::FileNotFound(m) => {
                push_str_chars(&mut out, "File not found: ");
                push_str_chars(&mut out, m.as_str());
            },
            AppError::InvalidFileType(m) => {
                push_str_chars(&mut out, "Invalid file type: ");
                push_str_chars(&mut out, m.as_str());
            },
            AppError::FileTooLarge(size, max) => {
                push_str_chars(&mut out, "File too large: ");
                let mut digits = u64_to_dec_chars(*size as u64);
                out.append(&mut digits);
                push_str_chars(&mut out, " bytes (max: ");
                let mut digits2 = u64_to_dec_chars(*max as u64);
                out.append(&mut digits2);
                push_str_chars(&mut out, " bytes)");
            },
            AppError::GpopConnection(m) => {
                push_str_chars(&mut out, "gpop connection error: ");
                push_str_chars(&mut out, m.as_str());
            },
            AppError::GpopProtocol(m) => {
                push_str_chars(&mut out, "gpop protocol error: ");
                push_str_chars(&mut out, m.as_str());
            },
            AppError::PipelineCreation(m) => {
                push_str_chars(&mut out, "Pipeline creation failed: ");
                push_str_chars(&mut out, m.as_str());
            },
            AppError::Storage(m) => {
                push_str_chars(&mut out, "Storage error: ");
                push_str_chars(&mut out, m.as_str());
            },
            AppError::Internal(m) => {
                push_str_chars(&mut out, "Internal error: ");
                push_str_chars(&mut out, m.as_str());
            },
        }
        chars_to_string(&out)
    }
}

} // verus!
