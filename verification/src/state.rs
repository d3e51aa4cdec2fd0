//! The closed set of pipeline states, their canonical string form, and the
//! case-insensitive parser for client-supplied state names.

use vstd::prelude::*;

use crate::text::{ascii_ieq, eq_ignore_ascii_case};

verus! {

/// The state of a pipeline, ordered as the media framework orders them:
/// `VoidPending < Null < Ready < Paused < Playing`.
#[derive(Debug, Clone, Copy, PartialEq, Eq, Hash, Structural)]
pub enum PipelineState {
    /// Pipeline is in void/pending state (transitioning).
    VoidPending,
    Null,
    Ready,
    Paused,
    Playing,
}

/// The canonical string form of a state: lowercase with underscore.
pub open spec fn state_name(s: PipelineState) -> Seq<char> {
    match s {
        PipelineState::VoidPending => "void_pending"@,
        PipelineState::Null => "null"@,
        PipelineState::Ready => "ready"@,
        PipelineState::Paused => "paused"@,
        PipelineState::Playing => "playing"@,
    }
}

/// The state a name denotes, compared case-insensitively; `voidpending`
/// is accepted as an alias of `void_pending`. Everything else is rejected.
pub open spec fn state_from_name(s: Seq<char>) -> Option<PipelineState> {
    if ascii_ieq(s, "void_pending"@) || ascii_ieq(s, "voidpending"@) {
        Some(PipelineState::VoidPending)
    } else if ascii_ieq(s, "null"@) {
        Some(PipelineState::Null)
    } else if ascii_ieq(s, "ready"@) {
        Some(PipelineState::Ready)
    } else if ascii_ieq(s, "paused"@) {
        Some(PipelineState::Paused)
    } else if ascii_ieq(s, "playing"@) {
        Some(PipelineState::Playing)
    } else {
        None
    }
}

impl PipelineState {
    /// The canonical string form: lowercase with underscore.
    pub fn as_str(&self) -> (r: &'static str)
        ensures
            r@ == state_name(*self),
    {
        match self {
            PipelineState::VoidPending => "void_pending",
            PipelineState::Null => "null",
            PipelineState::Ready => "ready",
            PipelineState::Paused => "paused",
            PipelineState::Playing => "playing",
        }
    }

    /// Parses a state name case-insensitively; accepts exactly
    /// `null`, `ready`, `paused`, `playing`, `void_pending` and
    /// `voidpending`, and rejects everything else.
    pub fn parse(s: &str) -> (r: Result<PipelineState, String>)
        ensures
            match state_from_name(s@) {
                Some(st) => r == Ok::<PipelineState, String>(st),
                None => r is Err && r->Err_0@
                    == "Invalid state. Valid values: null, ready, paused, playing"@,
            },
    {
        if eq_ignore_ascii_case(s, "void_pending") || eq_ignore_ascii_case(s, "voidpending") {
            Ok(PipelineState::VoidPending)
        } else if eq_ignore_ascii_case(s, "null") {
            Ok(PipelineState::Null)
        } else if eq_ignore_ascii_case(s, "ready") {
            Ok(PipelineState::Ready)
        } else if eq_ignore_ascii_case(s, "paused") {
            Ok(PipelineState::Paused)
        } else if eq_ignore_ascii_case(s, "playing") {
            Ok(PipelineState::Playing)
        } else {
            Err(String::from_str("Invalid state. Valid values: null, ready, paused, playing"))
        }
    }
}

impl core::str::FromStr for PipelineState {
    type Err = String;

    fn from_str(s: &str) -> Result<PipelineState, String> {
        PipelineState::parse(s)
    }
}

} // verus!
