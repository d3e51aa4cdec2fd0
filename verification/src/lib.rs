//! Core of a daemon that manages a dynamic collection of media pipelines on
//! behalf of remote clients: the pipeline registry and its lifecycle rules,
//! the event vocabulary and its JSON wire form, the unsupported-media
//! classifier, the playback-completion tracker, and the JSON-RPC response
//! shapes. Everything here is verified; the asynchronous shell (sockets,
//! the media framework, the runtime) lives outside the library and calls
//! into these decisions.

pub mod classify;
pub mod error;
pub mod error_codes;
pub mod event;
pub mod handshake;
pub mod job_pipelines;
pub mod jobs;
pub mod json;
pub mod manager;
pub mod pipeline;
pub mod playback;
pub mod protocol;
pub mod session_bus;
pub mod state;
pub mod storage;
pub mod text;
pub mod web_config;
pub mod web_error;
pub mod web_events;

pub use classify::is_media_not_supported_error;
pub use error::GpopError;
pub use event::PipelineEvent;
pub use manager::{PipelineInfo, PipelineManager};
pub use pipeline::Pipeline;
pub use state::PipelineState;

use vstd::prelude::*;

verus! {

/// Maximum number of pipelines that can be created, to prevent resource
/// exhaustion.
pub const MAX_PIPELINES: usize = 100;

/// Grace period in milliseconds granted to a bus watcher to observe the
/// shutdown flag before its pipeline is driven to null.
pub const SHUTDOWN_GRACE_PERIOD_MS: u64 = 150;

} // verus!
