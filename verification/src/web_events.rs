//! The daemon events as the job service sees them over its client
//! connection: the same tags, with states carried as plain strings.

use vstd::prelude::*;

verus! {

/// An event received from the daemon by a client.
#[derive(Debug, Clone, PartialEq)]
pub enum GpopEvent {
    StateChanged { pipeline_id: String, old_state: String, new_state: String },
    Error { pipeline_id: String, message: String },
    Eos { pipeline_id: String },
    PipelineAdded { pipeline_id: String, description: String },
    PipelineRemoved { pipeline_id: String },
}

} // verus!
