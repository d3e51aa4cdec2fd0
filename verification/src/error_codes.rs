//! JSON-RPC 2.0 error codes: the standard codes, and the server-reserved
//! range used for pipeline failures.

use vstd::prelude::*;

verus! {

/// Parse error: invalid JSON was received.
pub const PARSE_ERROR: i32 = -32700;

/// Invalid request: the JSON sent is not a valid request object.
pub const INVALID_REQUEST: i32 = -32600;

/// Method not found.
pub const METHOD_NOT_FOUND: i32 = -32601;

/// Invalid method parameters.
pub const INVALID_PARAMS: i32 = -32602;

/// Internal JSON-RPC error.
pub const INTERNAL_ERROR: i32 = -32603;

/// Pipeline not found.
pub const PIPELINE_NOT_FOUND: i32 = -32000;

/// Pipeline creation failed.
pub const PIPELINE_CREATION_FAILED: i32 = -32001;

/// State change failed.
pub const STATE_CHANGE_FAILED: i32 = -32002;

/// The media framework reported an error.
pub const GSTREAMER_ERROR: i32 = -32003;

/// Pipeline description too long.
pub const DESCRIPTION_TOO_LONG: i32 = -32004;

/// Media not supported: missing codec, unsupported format, or a hardware
/// limitation.
pub const MEDIA_NOT_SUPPORTED: i32 = -32005;

} // verus!
