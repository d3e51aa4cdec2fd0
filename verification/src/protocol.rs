//! The JSON-RPC response types of the WebSocket transport and their wire
//! form: responses carry either a result or an error, never both, and
//! omitted halves are not serialized. The parameter records mirror the
//! requests the protocol accepts; the shell parses them off the wire and
//! hands them over as plain values.

use vstd::prelude::*;

use crate::error::GpopError;
use crate::error_codes;
use crate::json::{escape_str, push_escaped};
use crate::state::{state_name, PipelineState};
use crate::text::{chars_to_string, i32_to_dec_chars, int_dec, dec_str, push_str_chars,
    u64_to_dec_chars};

verus! {

/// The JSON-RPC version string.
pub const JSONRPC_VERSION: &'static str = "2.0";

/// Parameters that name one pipeline.
#[derive(Debug, Clone, PartialEq)]
pub struct PipelineIdParams {
    pub pipeline_id: String,
}

/// Parameters that may name a pipeline; an absent id means the default.
#[derive(Debug, Clone, PartialEq)]
pub struct OptionalPipelineIdParams {
    pub pipeline_id: Option<String>,
}

/// Parameters of a state-change request.
#[derive(Debug, Clone, PartialEq)]
pub struct SetStateParams {
    pub pipeline_id: String,
    pub state: String,
}

/// Parameters of an update request.
#[derive(Debug, Clone, PartialEq)]
pub struct UpdatePipelineParams {
    pub pipeline_id: String,
    pub description: String,
}

/// Parameters of a snapshot request.
#[derive(Debug, Clone, PartialEq)]
pub struct SnapshotParams {
    pub pipeline_id: Option<String>,
    pub details: Option<String>,
}

/// Parameters of a creation request.
#[derive(Debug, Clone, PartialEq)]
pub struct CreatePipelineParams {
    pub description: String,
}

/// The id a request effectively names: the given one, or the default.
pub fn effective_pipeline_id(pipeline_id: Option<String>) -> (r: String)
    ensures
        match pipeline_id {
            Some(id) => r@ == id@,
            None => r@ == "0"@,
        },
{
    match pipeline_id {
        Some(id) => id,
        None => String::from_str("0"),
    }
}

/// The error half of a failed response.
#[derive(Debug, Clone, PartialEq)]
pub struct ErrorInfo {
    pub code: i32,
    pub message: String,
}

/// A JSON-RPC response: the mirrored request id, and exactly one of a
/// pre-serialized result document or an error.
#[derive(Debug, Clone, PartialEq)]
pub struct Response {
    /// Always the JSON-RPC version.
    pub jsonrpc: String,
    pub id: String,
    /// The result, already in its wire form.
    pub result: Option<String>,
    pub error: Option<ErrorInfo>,
}

/// The wire form of a response: `result` and `error` are mutually
/// exclusive and an omitted half is not serialized.
pub open spec fn response_json(r: Response) -> Seq<char> {
    "{\"jsonrpc\":\"2.0\",\"id\":\""@ + escape_str(r.id@) + (match r.result {
        Some(body) => "\",\"result\":"@ + body@,
        None => match r.error {
            Some(e) => "\",\"error\":{\"code\":"@ + int_dec(e.code as int) + ",\"message\":\""@
                + escape_str(e.message@) + "\"}"@,
            None => "\""@,
        },
    }) + "}"@
}

impl Response {
    /// A success response carrying a pre-serialized result document.
    pub fn success(id: String, result: String) -> (r: Response)
        ensures
            r.jsonrpc@ == "2.0"@,
            r.id@ == id@,
            r.result matches Some(b) && b@ == result@,
            r.error is None,
    {
        Response { jsonrpc: String::from_str("2.0"), id, result: Some(result), error: None }
    }

    /// An error response with the given code and message.
    pub fn error(id: String, code: i32, message: String) -> (r: Response)
        ensures
            r.jsonrpc@ == "2.0"@,
            r.id@ == id@,
            r.result is None,
            r.error matches Some(e) && e.code == code && e.message@ == message@,
    {
        Response {
            jsonrpc: String::from_str("2.0"),
            id,
            result: None,
            error: Some(ErrorInfo { code, message }),
        }
    }

    /// A parse-error response.
    pub fn parse_error(id: String, message: String) -> (r: Response)
        ensures
            r.id@ == id@,
            r.result is None,
            r.error matches Some(e) && e.code == error_codes::PARSE_ERROR && e.message@
                == message@,
    {
        Response::error(id, error_codes::PARSE_ERROR, message)
    }

    /// An invalid-request response (missing required fields).
    pub fn invalid_request(id: String, message: String) -> (r: Response)
        ensures
            r.id@ == id@,
            r.result is None,
            r.error matches Some(e) && e.code == error_codes::INVALID_REQUEST && e.message@
                == message@,
    {
        Response::error(id, error_codes::INVALID_REQUEST, message)
    }

    /// A method-not-found response naming the method.
    pub fn method_not_found(id: String, method: &str) -> (r: Response)
        ensures
            r.id@ == id@,
            r.result is None,
            r.error matches Some(e) && e.code == error_codes::METHOD_NOT_FOUND && e.message@
                == "Method not found: "@ + method@,
    {
        let mut m: Vec<char> = Vec::new();
        push_str_chars(&mut m, "Method not found: ");
        push_str_chars(&mut m, method);
        Response::error(id, error_codes::METHOD_NOT_FOUND, chars_to_string(&m))
    }

    /// An invalid-params response.
    pub fn invalid_params(id: String, message: String) -> (r: Response)
        ensures
            r.id@ == id@,
            r.result is None,
            r.error matches Some(e) && e.code == error_codes::INVALID_PARAMS && e.message@
                == message@,
    {
        Response::error(id, error_codes::INVALID_PARAMS, message)
    }

    /// A pipeline-not-found response naming the pipeline.
    pub fn pipeline_not_found(id: String, pipeline_id: &str) -> (r: Response)
        ensures
            r.id@ == id@,
            r.result is None,
            r.error matches Some(e) && e.code == error_codes::PIPELINE_NOT_FOUND && e.message@
                == "Pipeline not found: "@ + pipeline_id@,
    {
        let mut m: Vec<char> = Vec::new();
        push_str_chars(&mut m, "Pipeline not found: ");
        push_str_chars(&mut m, pipeline_id);
        Response::error(id, error_codes::PIPELINE_NOT_FOUND, chars_to_string(&m))
    }

    /// The error response a core error translates to: each error kind maps
    /// to its JSON-RPC code, and transport-local kinds surface as internal
    /// errors with their rendered text.
    pub fn from_gpop_error(id: String, err: &GpopError) -> (r: Response)
        ensures
            r.id@ == id@,
            r.result is None,
            r.error matches Some(e) && match err {
                GpopError::PipelineNotFound(pid) => e.code == error_codes::PIPELINE_NOT_FOUND
                    && e.message@ == "Pipeline not found: "@ + pid@,
                GpopError::InvalidPipeline(m) => e.code == error_codes::PIPELINE_CREATION_FAILED
                    && e.message@ == m@,
                GpopError::StateChangeFailed(m) => e.code == error_codes::STATE_CHANGE_FAILED
                    && e.message@ == m@,
                GpopError::MediaNotSupported(m) => e.code == error_codes::MEDIA_NOT_SUPPORTED
                    && e.message@ == m@,
                GpopError::GStreamer(m) => e.code == error_codes::GSTREAMER_ERROR && e.message@
                    == m@,
                _ => e.code == error_codes::INTERNAL_ERROR && e.message@
                    == crate::error::error_message(*err),
            },
    {
        match err {
            GpopError::PipelineNotFound(pid) => Response::pipeline_not_found(id, pid.as_str()),
            GpopError::InvalidPipeline(m) => Response::error(
                id,
                error_codes::PIPELINE_CREATION_FAILED,
                m.clone(),
            ),
            GpopError::StateChangeFailed(m) => Response::error(
                id,
                error_codes::STATE_CHANGE_FAILED,
                m.clone(),
            ),
            GpopError::MediaNotSupported(m) => Response::error(
                id,
                error_codes::MEDIA_NOT_SUPPORTED,
                m.clone(),
            ),
            GpopError::GStreamer(m) => Response::error(
                id,
                error_codes::GSTREAMER_ERROR,
                m.clone(),
            ),
            _ => Response::error(id, error_codes::INTERNAL_ERROR, err.message()),
        }
    }

    /// Writes the response in its wire form.
    pub fn to_json(&self) -> (r: String)
        ensures
            r@ == response_json(*self),
    {
        let mut out: Vec<char> = Vec::new();
        push_str_chars(&mut out, "{\"jsonrpc\":\"2.0\",\"id\":\"");
        push_escaped(&mut out, self.id.as_str());
        match &self.result {
            Some(body) => {
                push_str_chars(&mut out, "\",\"result\":");
                push_str_chars(&mut out, body.as_str());
            },
            None => match &self.error {
                Some(e) => {
                    push_str_chars(&mut out, "\",\"error\":{\"code\":");
                    let mut digits = i32_to_dec_chars(e.code);
                    out.append(&mut digits);
                    push_str_chars(&mut out, ",\"message\":\"");
                    push_escaped(&mut out, e.message.as_str());
                    push_str_chars(&mut out, "\"}");
                },
                None => {
                    push_str_chars(&mut out, "\"");
                },
            },
        }
        push_str_chars(&mut out, "}");
        assert(out@ =~= response_json(*self));
        chars_to_string(&out)
    }
}

/// One pipeline's snapshot in a result document.
#[derive(Debug, Clone, PartialEq)]
pub struct PipelineInfoResult {
    pub id: String,
    pub description: String,
    pub state: PipelineState,
    pub streaming: bool,
}

/// The wire form of a boolean.
pub open spec fn bool_json(b: bool) -> Seq<char> {
    if b {
        "true"@
    } else {
        "false"@
    }
}

/// The wire form of one pipeline's info.
pub open spec fn info_json(r: PipelineInfoResult) -> Seq<char> {
    "{\"id\":\""@ + escape_str(r.id@) + "\",\"description\":\""@ + escape_str(r.description@)
        + "\",\"state\":\""@ + state_name(r.state) + "\",\"streaming\":"@ + bool_json(r.streaming)
        + "}"@
}

impl PipelineInfoResult {
    /// Writes the info in its wire form.
    pub fn to_json(&self) -> (r: String)
        ensures
            r@ == info_json(*self),
    {
        let mut out: Vec<char> = Vec::new();
        self.push_json(&mut out);
        chars_to_string(&out)
    }

    /// Appends the wire form to `out`.
    fn push_json(&self, out: &mut Vec<char>)
        ensures
            final(out)@ == old(out)@ + info_json(*self),
    {
        push_str_chars(out, "{\"id\":\"");
        push_escaped(out, self.id.as_str());
        push_str_chars(out, "\",\"description\":\"");
        push_escaped(out, self.description.as_str());
        push_str_chars(out, "\",\"state\":\"");
        push_str_chars(out, self.state.as_str());
        push_str_chars(out, "\",\"streaming\":");
        if self.streaming {
            push_str_chars(out, "true");
        } else {
            push_str_chars(out, "false");
        }
        push_str_chars(out, "}");
        assert(final(out)@ =~= old(out)@ + info_json(*self));
    }
}

/// The wire form of a sequence of pipeline infos, comma-separated.
pub open spec fn infos_json(s: Seq<PipelineInfoResult>) -> Seq<char>
    decreases s.len(),
{
    if s.len() == 0 {
        Seq::empty()
    } else if s.len() == 1 {
        info_json(s[0])
    } else {
        infos_json(s.drop_last()) + ","@ + info_json(s.last())
    }
}

/// The result of a listing: every pipeline's snapshot.
#[derive(Debug, Clone, PartialEq)]
pub struct ListPipelinesResult {
    pub pipelines: Vec<PipelineInfoResult>,
}

impl ListPipelinesResult {
    /// Writes the listing in its wire form:
    /// `{"pipelines":[<info>,<info>,...]}`.
    pub fn to_json(&self) -> (r: String)
        ensures
            r@ == "{\"pipelines\":["@ + infos_json(self.pipelines@) + "]}"@,
    {
        let mut out: Vec<char> = Vec::new();
        push_str_chars(&mut out, "{\"pipelines\":[");
        let n = self.pipelines.len();
        let mut i: usize = 0;
        while i < n
            invariant
                i <= n,
                n == self.pipelines@.len(),
                out@ == "{\"pipelines\":["@ + infos_json(self.pipelines@.take(i as int)),
            decreases n - i,
        {
            if i > 0 {
                push_str_chars(&mut out, ",");
            }
            self.pipelines[i].push_json(&mut out);
            proof {
                assert(self.pipelines@.take(i + 1 as int).drop_last() =~= self.pipelines@.take(
                    i as int,
                ));
                assert(self.pipelines@.take(i + 1 as int).last() == self.pipelines@[i as int]);
                assert(out@ =~= "{\"pipelines\":["@ + infos_json(
                    self.pipelines@.take(i + 1 as int),
                ));
            }
            i += 1;
        }
        proof {
            assert(self.pipelines@.take(n as int) == self.pipelines@);
        }
        push_str_chars(&mut out, "]}");
        assert(out@ =~= "{\"pipelines\":["@ + infos_json(self.pipelines@) + "]}"@);
        chars_to_string(&out)
    }
}

/// One pipeline's topology dump in a snapshot result.
#[derive(Debug, Clone, PartialEq)]
pub struct PipelineSnapshot {
    pub id: String,
    pub dot: String,
}

/// The snapshot result; its wire form bypasses the JSON-RPC envelope (a
/// legacy shape kept for wire compatibility).
#[derive(Debug, Clone, PartialEq)]
pub struct SnapshotResult {
    pub response_type: String,
    pub pipelines: Vec<PipelineSnapshot>,
}

/// The wire form of a sequence of snapshots, comma-separated.
pub open spec fn snapshots_json(s: Seq<PipelineSnapshot>) -> Seq<char>
    decreases s.len(),
{
    if s.len() == 0 {
        Seq::empty()
    } else if s.len() == 1 {
        snapshot_json(s[0])
    } else {
        snapshots_json(s.drop_last()) + ","@ + snapshot_json(s.last())
    }
}

/// The wire form of one snapshot.
pub open spec fn snapshot_json(p: PipelineSnapshot) -> Seq<char> {
    "{\"id\":\""@ + escape_str(p.id@) + "\",\"dot\":\""@ + escape_str(p.dot@) + "\"}"@
}

impl SnapshotResult {
    /// Writes the snapshot document:
    /// `{"type":<type>,"pipelines":[...]}`.
    pub fn to_json(&self) -> (r: String)
        ensures
            r@ == "{\"type\":\""@ + escape_str(self.response_type@) + "\",\"pipelines\":["@
                + snapshots_json(self.pipelines@) + "]}"@,
    {
        let mut out: Vec<char> = Vec::new();
        push_str_chars(&mut out, "{\"type\":\"");
        push_escaped(&mut out, self.response_type.as_str());
        push_str_chars(&mut out, "\",\"pipelines\":[");
        let ghost head = out@;
        let n = self.pipelines.len();
        let mut i: usize = 0;
        while i < n
            invariant
                i <= n,
                n == self.pipelines@.len(),
                out@ == head + snapshots_json(self.pipelines@.take(i as int)),
            decreases n - i,
        {
            if i > 0 {
                push_str_chars(&mut out, ",");
            }
            let p = &self.pipelines[i];
            push_str_chars(&mut out, "{\"id\":\"");
            push_escaped(&mut out, p.id.as_str());
            push_str_chars(&mut out, "\",\"dot\":\"");
            push_escaped(&mut out, p.dot.as_str());
            push_str_chars(&mut out, "\"}");
            proof {
                assert(self.pipelines@.take(i + 1 as int).drop_last() =~= self.pipelines@.take(
                    i as int,
                ));
                assert(self.pipelines@.take(i + 1 as int).last() == self.pipelines@[i as int]);
                assert(out@ =~= head + snapshots_json(self.pipelines@.take(i + 1 as int)));
            }
            i += 1;
        }
        proof {
            assert(self.pipelines@.take(n as int) == self.pipelines@);
        }
        push_str_chars(&mut out, "]}");
        assert(out@ =~= "{\"type\":\""@ + escape_str(self.response_type@) + "\",\"pipelines\":["@
            + snapshots_json(self.pipelines@) + "]}"@);
        chars_to_string(&out)
    }
}

/// The `{success:true}` result of mutating requests.
#[derive(Debug, Clone, PartialEq)]
pub struct SuccessResult {
    pub success: bool,
}

impl SuccessResult {
    /// Writes the result in its wire form.
    pub fn to_json(&self) -> (r: String)
        ensures
            r@ == "{\"success\":"@ + bool_json(self.success) + "}"@,
    {
        let mut out: Vec<char> = Vec::new();
        push_str_chars(&mut out, "{\"success\":");
        if self.success {
            push_str_chars(&mut out, "true");
        } else {
            push_str_chars(&mut out, "false");
        }
        push_str_chars(&mut out, "}");
        assert(out@ =~= "{\"success\":"@ + bool_json(self.success) + "}"@);
        chars_to_string(&out)
    }
}

/// The result of a creation request.
#[derive(Debug, Clone, PartialEq)]
pub struct PipelineCreatedResult {
    pub pipeline_id: String,
}

impl PipelineCreatedResult {
    /// Writes the result in its wire form.
    pub fn to_json(&self) -> (r: String)
        ensures
            r@ == "{\"pipeline_id\":\""@ + escape_str(self.pipeline_id@) + "\"}"@,
    {
        let mut out: Vec<char> = Vec::new();
        push_str_chars(&mut out, "{\"pipeline_id\":\"");
        push_escaped(&mut out, self.pipeline_id.as_str());
        push_str_chars(&mut out, "\"}");
        assert(out@ =~= "{\"pipeline_id\":\""@ + escape_str(self.pipeline_id@) + "\"}"@);
        chars_to_string(&out)
    }
}

/// The daemon-version result.
#[derive(Debug, Clone, PartialEq)]
pub struct VersionResult {
    pub version: String,
}

impl VersionResult {
    /// Writes the result in its wire form.
    pub fn to_json(&self) -> (r: String)
        ensures
            r@ == "{\"version\":\""@ + escape_str(self.version@) + "\"}"@,
    {
        let mut out: Vec<char> = Vec::new();
        push_str_chars(&mut out, "{\"version\":\"");
        push_escaped(&mut out, self.version.as_str());
        push_str_chars(&mut out, "\"}");
        assert(out@ =~= "{\"version\":\""@ + escape_str(self.version@) + "\"}"@);
        chars_to_string(&out)
    }
}

/// The daemon, framework and protocol versions.
#[derive(Debug, Clone, PartialEq)]
pub struct InfoResult {
    pub daemon_version: String,
    pub gstreamer_version: String,
    pub jsonrpc_version: String,
}

impl InfoResult {
    /// Writes the result in its wire form.
    pub fn to_json(&self) -> (r: String)
        ensures
            r@ == "{\"daemon_version\":\""@ + escape_str(self.daemon_version@)
                + "\",\"gstreamer_version\":\""@ + escape_str(self.gstreamer_version@)
                + "\",\"jsonrpc_version\":\""@ + escape_str(self.jsonrpc_version@) + "\"}"@,
    {
        let mut out: Vec<char> = Vec::new();
        push_str_chars(&mut out, "{\"daemon_version\":\"");
        push_escaped(&mut out, self.daemon_version.as_str());
        push_str_chars(&mut out, "\",\"gstreamer_version\":\"");
        push_escaped(&mut out, self.gstreamer_version.as_str());
        push_str_chars(&mut out, "\",\"jsonrpc_version\":\"");
        push_escaped(&mut out, self.jsonrpc_version.as_str());
        push_str_chars(&mut out, "\"}");
        assert(out@ =~= "{\"daemon_version\":\""@ + escape_str(self.daemon_version@)
            + "\",\"gstreamer_version\":\""@ + escape_str(self.gstreamer_version@)
            + "\",\"jsonrpc_version\":\""@ + escape_str(self.jsonrpc_version@) + "\"}"@);
        chars_to_string(&out)
    }
}

/// The pipeline-count result.
#[derive(Debug, Clone, PartialEq)]
pub struct PipelineCountResult {
    pub count: usize,
}

impl PipelineCountResult {
    /// Writes the result in its wire form.
    pub fn to_json(&self) -> (r: String)
        ensures
            r@ == "{\"count\":"@ + dec_str(self.count as int) + "}"@,
    {
        let mut out: Vec<char> = Vec::new();
        push_str_chars(&mut out, "{\"count\":");
        let mut digits = u64_to_dec_chars(self.count as u64);
        out.append(&mut digits);
        push_str_chars(&mut out, "}");
        assert(out@ =~= "{\"count\":"@ + dec_str(self.count as int) + "}"@);
        chars_to_string(&out)
    }
}

} // verus!
