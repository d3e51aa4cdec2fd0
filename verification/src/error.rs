//! The error taxonomy of the daemon core. Each kind carries a
//! human-readable payload; `message` renders the transport-facing text.

use vstd::prelude::*;

use crate::text::push_str_chars;
use crate::text::chars_to_string;

verus! {

/// An error surfaced by the pipeline core to its callers.
#[derive(Debug, Clone, PartialEq, Eq)]
pub enum GpopError {
    /// The media framework reported a failure that is not a state change.
    GStreamer(String),
    /// A lookup by pipeline id missed; carries the id.
    PipelineNotFound(String),
    /// A pipeline description was empty, too long, or rejected by the
    /// parser; carries the reason.
    InvalidPipeline(String),
    /// A state transition was refused or timed out; carries the reason.
    StateChangeFailed(String),
    /// A parse or runtime failure classified as a media-capability
    /// shortfall; carries the original framework message.
    MediaNotSupported(String),
    /// A session-bus failure, local to that transport.
    DBus(String),
    /// A socket failure, local to the WebSocket transport.
    WebSocket(String),
    /// A JSON failure, local to a transport.
    Json(String),
    /// An I/O failure, local to a transport.
    Io(String),
}

/// The transport-facing text of an error.
pub open spec fn error_message(e: GpopError) -> Seq<char> {
    match e {
        GpopError::GStreamer(m) => "GStreamer error: "@ + m@,
        GpopError::PipelineNotFound(m) => "Pipeline not found: "@ + m@,
        GpopError::InvalidPipeline(m) => "Invalid pipeline description: "@ + m@,
        GpopError::StateChangeFailed(m) => "State change failed: "@ + m@,
        GpopError::MediaNotSupported(m) => "Media not supported: "@ + m@,
        GpopError::DBus(m) => "DBus error: "@ + m@,
        GpopError::WebSocket(m) => "WebSocket error: "@ + m@,
        GpopError::Json(m) => "JSON error: "@ + m@,
        GpopError::Io(m) => "IO error: "@ + m@,
    }
}

impl GpopError {
    /// Renders the error as its transport-facing text.
    pub fn message(&self) -> (r: String)
        ensures
            r@ == error_message(*self),
    {
        let mut out: Vec<char> = Vec::new();
        match self {
            GpopError::GStreamer(m) => {
                push_str_chars(&mut out, "GStreamer error: ");
                push_str_chars(&mut out, m.as_str());
            },
            GpopError::PipelineNotFound(m) => {
                push_str_chars(&mut out, "Pipeline not found: ");
                push_str_chars(&mut out, m.as_str());
            },
            GpopError::InvalidPipeline(m) => {
                push_str_chars(&mut out, "Invalid pipeline description: ");
                push_str_chars(&mut out, m.as_str());
            },
            GpopError::StateChangeFailed(m) => {
                push_str_chars(&mut out, "State change failed: ");
                push_str_chars(&mut out, m.as_str());
            },
            GpopError::MediaNotSupported(m) => {
                push_str_chars(&mut out, "Media not supported: ");
                push_str_chars(&mut out, m.as_str());
            },
            GpopError::DBus(m) => {
                push_str_chars(&mut out, "DBus error: ");
                push_str_chars(&mut out, m.as_str());
            },
            GpopError::WebSocket(m) => {
                push_str_chars(&mut out, "WebSocket error: ");
                push_str_chars(&mut out, m.as_str());
            },
            GpopError::Json(m) => {
                push_str_chars(&mut out, "JSON error: ");
                push_str_chars(&mut out, m.as_str());
            },
            GpopError::Io(m) => {
                push_str_chars(&mut out, "IO error: ");
                push_str_chars(&mut out, m.as_str());
            },
        }
        chars_to_string(&out)
    }
}

} // verus!
