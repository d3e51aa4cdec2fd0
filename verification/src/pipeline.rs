//! The pipeline entity: validation of descriptions at construction,
//! classification of parse failures, the shutdown latch, the state-change
//! discipline, selection of topology-dump detail, and the translation of
//! bus messages into lifecycle events.
//!
//! The element graph itself, its message bus and the blocking bus-pop loop
//! belong to the media framework and live outside the library; this module
//! holds every decision those loops make, as functions from plain values
//! to plain values.

use vstd::prelude::*;
use vstd::string::StringSliceAdditionalSpecFns;

use crate::classify::{has_media_pattern, is_media_not_supported_error, lower_of};
use crate::error::GpopError;
use crate::event::PipelineEvent;
use crate::state::{state_name, PipelineState};
use crate::text::{
    chars_to_string, dec_str, is_blank, push_str_chars, str_eq, str_is_blank, u64_to_dec_chars,
};

verus! {

/// Maximum byte length of a pipeline description, to prevent memory
/// exhaustion.
pub const MAX_PIPELINE_DESCRIPTION_LENGTH: usize = 64 * 1024;

/// Timeout for state changes, in seconds.
pub const STATE_CHANGE_TIMEOUT_SECS: u64 = 30;

/// What the media framework said when asked to parse a description.
/// Produced outside the library, consumed by [`Pipeline::new`], which is
/// specified for every possible outcome.
#[derive(Debug, Clone, PartialEq)]
pub enum ParseOutcome {
    /// The description parsed into a composite element graph.
    Parsed,
    /// The parser rejected the description; carries its message.
    ParseFailed(String),
    /// The description parsed, but into a leaf element rather than a
    /// composite graph.
    NotComposite,
}

/// What the framework answered to a state-change request: the immediate
/// refusal text, or the result of waiting out the transition.
#[derive(Debug, Clone, PartialEq)]
pub enum StateChangeOutcome {
    /// The request itself was refused; carries the framework's message.
    Refused(String),
    /// The transition completed.
    Success,
    /// The transition was accepted and is still in progress.
    Async,
    /// The transition completed, without preroll.
    NoPreroll,
    /// Waiting for the transition ended in failure or timed out.
    Failure,
}

/// The detail selections for a topology dump in DOT form.
#[derive(Debug, Clone, Copy, PartialEq, Eq, Structural)]
pub enum DotDetails {
    MediaType,
    CapsDetails,
    NonDefaultParams,
    States,
    All,
}

/// The detail set selected by a client-supplied detail name: one of
/// `media`, `caps`, `non-default` and `states`; anything else, or no
/// name at all, selects everything.
pub open spec fn dot_details_of(details: Option<Seq<char>>) -> DotDetails {
    match details {
        Some(d) => if d == "media"@ {
            DotDetails::MediaType
        } else if d == "caps"@ {
            DotDetails::CapsDetails
        } else if d == "non-default"@ {
            DotDetails::NonDefaultParams
        } else if d == "states"@ {
            DotDetails::States
        } else {
            DotDetails::All
        },
        None => DotDetails::All,
    }
}

/// Selects the topology-dump detail set for a client-supplied name.
pub fn dot_details_for(details: Option<&str>) -> (r: DotDetails)
    ensures
        r == dot_details_of(match details {
            Some(d) => Some(d@),
            None => None,
        }),
{
    match details {
        Some(d) => {
            if str_eq(d, "media") {
                DotDetails::MediaType
            } else if str_eq(d, "caps") {
                DotDetails::CapsDetails
            } else if str_eq(d, "non-default") {
                DotDetails::NonDefaultParams
            } else if str_eq(d, "states") {
                DotDetails::States
            } else {
                DotDetails::All
            }
        },
        None => DotDetails::All,
    }
}

/// One managed pipeline: its stable id, the description that produced its
/// graph, the shutdown latch its bus watcher polls, and the last state
/// the framework accepted for it.
#[derive(Debug, Clone, PartialEq)]
pub struct Pipeline {
    /// Opaque unique id, assigned by the manager; stable for the life of
    /// the pipeline.
    pub id: String,
    /// The launch text that produced the graph; immutable (updates create
    /// a new `Pipeline` under the same id).
    pub description: String,
    /// The shutdown latch: transitions false to true at most once.
    pub shutdown_flag: bool,
    /// The last state the framework accepted; a fresh graph starts null.
    pub state: PipelineState,
}

/// Exactly when [`Pipeline::new`] rejects its inputs: a blank or
/// over-length description, or a parse that did not yield a composite
/// graph.
pub open spec fn new_rejects(description: &str, parse: ParseOutcome) -> bool {
    ||| is_blank(description@)
    ||| description.spec_bytes().len() as usize > MAX_PIPELINE_DESCRIPTION_LENGTH
    ||| !(parse is Parsed)
}

/// Exactly when [`Pipeline::new`] rejects its inputs with error `e`:
/// blank descriptions, over-length descriptions, classified parse
/// failures, and non-composite parses, each with its message.
pub open spec fn new_rejects_with(description: &str, parse: ParseOutcome, e: GpopError) -> bool {
    if is_blank(description@) {
        e matches GpopError::InvalidPipeline(m) && m@ == "Pipeline description cannot be empty"@
    } else if description.spec_bytes().len() as usize > MAX_PIPELINE_DESCRIPTION_LENGTH {
        e matches GpopError::InvalidPipeline(m) && m@ == "Pipeline description too long: "@
            + dec_str(description.spec_bytes().len() as usize as int) + " bytes (max: 65536 bytes)"@
    } else {
        match parse {
            ParseOutcome::Parsed => false,
            ParseOutcome::ParseFailed(pm) => if has_media_pattern(lower_of(pm@)) {
                e matches GpopError::MediaNotSupported(m) && m@ == pm@
            } else {
                e matches GpopError::InvalidPipeline(m) && m@ == pm@
            },
            ParseOutcome::NotComposite => e matches GpopError::InvalidPipeline(m) && m@
                == "Not a pipeline"@,
        }
    }
}

impl Pipeline {
    /// Builds a pipeline from an id, a description and the framework's
    /// parse outcome for that description. Rejects descriptions that are
    /// empty after trimming or longer than 64 KiB, surfaces classified
    /// parse failures as `MediaNotSupported`, other parse failures and
    /// non-composite parses as `InvalidPipeline`. A fresh pipeline has a
    /// cleared shutdown latch, a null state, and no watcher yet attached.
    pub fn new(id: String, description: &str, parse: ParseOutcome) -> (r: Result<
        Pipeline,
        GpopError,
    >)
        ensures
            match r {
                Ok(p) => {
                    &&& !is_blank(description@)
                    &&& description.spec_bytes().len() as usize <= MAX_PIPELINE_DESCRIPTION_LENGTH
                    &&& parse == ParseOutcome::Parsed
                    &&& p.id@ == id@
                    &&& p.description@ == description@
                    &&& p.shutdown_flag == false
                    &&& p.state == PipelineState::Null
                },
                Err(e) => new_rejects_with(description, parse, e),
            },
    {
        if str_is_blank(description) {
            return Err(
                GpopError::InvalidPipeline(
                    String::from_str("Pipeline description cannot be empty"),
                ),
            );
        }
        if description.len() > MAX_PIPELINE_DESCRIPTION_LENGTH {
            let mut m: Vec<char> = Vec::new();
            push_str_chars(&mut m, "Pipeline description too long: ");
            let mut digits = u64_to_dec_chars(description.len() as u64);
            m.append(&mut digits);
            push_str_chars(&mut m, " bytes (max: 65536 bytes)");
            assert(m@ =~= "Pipeline description too long: "@ + dec_str(
                description.spec_bytes().len() as usize as int,
            ) + " bytes (max: 65536 bytes)"@);
            return Err(GpopError::InvalidPipeline(chars_to_string(&m)));
        }
        match parse {
            ParseOutcome::Parsed => Ok(
                Pipeline {
                    id,
                    description: description.to_owned(),
                    shutdown_flag: false,
                    state: PipelineState::Null,
                },
            ),
            ParseOutcome::ParseFailed(pm) => {
                match is_media_not_supported_error(pm.as_str()) {
                    Some(original) => Err(GpopError::MediaNotSupported(original)),
                    None => Err(GpopError::InvalidPipeline(pm)),
                }
            },
            ParseOutcome::NotComposite => Err(
                GpopError::InvalidPipeline(String::from_str("Not a pipeline")),
            ),
        }
    }

    /// The pipeline's id.
    pub fn id(&self) -> (r: &str)
        ensures
            r@ == self.id@,
    {
        self.id.as_str()
    }

    /// The launch text that produced the graph.
    pub fn description(&self) -> (r: &str)
        ensures
            r@ == self.description@,
    {
        self.description.as_str()
    }

    /// The last state the framework accepted.
    pub fn state(&self) -> (r: PipelineState)
        ensures
            r == self.state,
    {
        self.state
    }

    /// True exactly when the pipeline is playing.
    pub fn is_streaming(&self) -> (r: bool)
        ensures
            r == (self.state == PipelineState::Playing),
    {
        match self.state {
            PipelineState::Playing => true,
            _ => false,
        }
    }

    /// Latches the shutdown flag; idempotent, and never cleared again.
    pub fn signal_shutdown(&mut self)
        ensures
            *final(self) == (Pipeline { shutdown_flag: true, ..*old(self) }),
    {
        self.shutdown_flag = true;
    }

    /// Whether shutdown has been signalled.
    pub fn shutdown_requested(&self) -> (r: bool)
        ensures
            r == self.shutdown_flag,
    {
        self.shutdown_flag
    }

    /// Records the result of asking the framework to move this pipeline
    /// to `state`. An immediate refusal and a failed or timed-out wait
    /// surface as `StateChangeFailed`; a completed or accepted-and-still-
    /// asynchronous transition succeeds and records `state` as accepted.
    pub fn set_state(&mut self, state: PipelineState, outcome: StateChangeOutcome) -> (r: Result<
        (),
        GpopError,
    >)
        ensures
            match r {
                Ok(()) => {
                    &&& outcome != StateChangeOutcome::Failure
                    &&& !(outcome is Refused)
                    &&& *final(self) == (Pipeline { state, ..*old(self) })
                },
                Err(e) => {
                    &&& *final(self) == *old(self)
                    &&& match outcome {
                        StateChangeOutcome::Refused(fm) => e matches GpopError::StateChangeFailed(
                            m,
                        ) && m@ == fm@,
                        StateChangeOutcome::Failure => e matches GpopError::StateChangeFailed(m)
                            && m@ == "Failed to change state to "@ + state_name(state)
                            + " for pipeline '"@ + old(self).id@ + "'"@,
                        _ => false,
                    }
                },
            },
    {
        match outcome {
            StateChangeOutcome::Refused(fm) => Err(GpopError::StateChangeFailed(fm)),
            StateChangeOutcome::Success | StateChangeOutcome::Async
                | StateChangeOutcome::NoPreroll => {
                self.state = state;
                Ok(())
            },
            StateChangeOutcome::Failure => {
                let mut m: Vec<char> = Vec::new();
                push_str_chars(&mut m, "Failed to change state to ");
                push_str_chars(&mut m, state.as_str());
                push_str_chars(&mut m, " for pipeline '");
                push_str_chars(&mut m, self.id.as_str());
                push_str_chars(&mut m, "'");
                Err(GpopError::StateChangeFailed(chars_to_string(&m)))
            },
        }
    }
}

/// The relation between a bus message seen on the bus of pipeline `id`
/// and the event `r` that the watcher publishes for it (`None`: nothing).
pub open spec fn bus_dispatch_spec(id: Seq<char>, msg: BusMessage, r: Option<PipelineEvent>) -> bool {
    match msg {
        BusMessage::Error { error, debug } => if has_media_pattern(lower_of(error@)) {
            r matches Some(PipelineEvent::Unsupported { pipeline_id, message })
                && pipeline_id@ == id && message@ == error@ + ": "@ + debug@
        } else {
            r matches Some(PipelineEvent::Error { pipeline_id, message }) && pipeline_id@ == id
                && message@ == error@ + ": "@ + debug@
        },
        BusMessage::Warning { .. } => r is None,
        BusMessage::Eos => r matches Some(PipelineEvent::Eos { pipeline_id }) && pipeline_id@
            == id,
        BusMessage::StateChanged { old, current, source_is_pipeline } => if source_is_pipeline {
            r matches Some(PipelineEvent::StateChanged { pipeline_id, old_state, new_state })
                && pipeline_id@ == id && old_state == old && new_state == current
        } else {
            r is None
        },
        BusMessage::Other => r is None,
    }
}

/// A message drained from a pipeline's bus, reduced to what dispatch
/// reads: the error and debug texts, the state transition and whether its
/// source is the pipeline root.
#[derive(Debug, Clone, PartialEq)]
pub enum BusMessage {
    /// An error message; `error` is the error text, `debug` its debug
    /// details (empty when the bus supplied none).
    Error { error: String, debug: String },
    /// A warning; logged only, never published.
    Warning { debug: String },
    /// End of stream.
    Eos,
    /// A state-change message; `source_is_pipeline` says whether it came
    /// from the pipeline root rather than a descendant element.
    StateChanged { old: PipelineState, current: PipelineState, source_is_pipeline: bool },
    /// Any other message; ignored.
    Other,
}

/// Translates one bus message into the event to publish, if any: errors
/// become `error` or, when the error text matches the media-capability
/// patterns, `unsupported`, both carrying `"{error}: {debug}"`; end of
/// stream becomes `eos`; state changes are published only when their
/// source is the pipeline root; warnings and everything else are dropped.
pub fn dispatch_bus_message(pipeline_id: &str, msg: BusMessage) -> (r: Option<PipelineEvent>)
    ensures
        bus_dispatch_spec(pipeline_id@, msg, r),
{
    match msg {
        BusMessage::Error { error, debug } => {
            let mut m: Vec<char> = Vec::new();
            push_str_chars(&mut m, error.as_str());
            push_str_chars(&mut m, ": ");
            push_str_chars(&mut m, debug.as_str());
            let message = chars_to_string(&m);
            if is_media_not_supported_error(error.as_str()).is_some() {
                Some(
                    PipelineEvent::Unsupported { pipeline_id: pipeline_id.to_owned(), message },
                )
            } else {
                Some(PipelineEvent::Error { pipeline_id: pipeline_id.to_owned(), message })
            }
        },
        BusMessage::Warning { .. } => None,
        BusMessage::Eos => Some(PipelineEvent::Eos { pipeline_id: pipeline_id.to_owned() }),
        BusMessage::StateChanged { old, current, source_is_pipeline } => {
            if source_is_pipeline {
                Some(
                    PipelineEvent::StateChanged {
                        pipeline_id: pipeline_id.to_owned(),
                        old_state: old,
                        new_state: current,
                    },
                )
            } else {
                None
            }
        },
        BusMessage::Other => None,
    }
}

} // verus!
