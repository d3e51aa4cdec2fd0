//! The pipeline registry and lifecycle coordinator: creation with a
//! configured limit, removal, atomic update, lookups, bulk shutdown, and
//! the journal of published lifecycle events.
//!
//! Ids are allocated from a monotonically increasing 64-bit counter and
//! rendered as decimal strings; lookups parse a client-supplied id
//! strictly, so only ids the manager itself issued can resolve. The
//! journal records every published event in order; its well-formedness
//! carries the ordering guarantee that a pipeline's `pipeline_added`
//! precedes every other event for that id.

use vstd::prelude::*;

use crate::error::GpopError;
use crate::event::{event_pipeline_id, PipelineEvent};
use crate::pipeline::{
    dot_details_for, dot_details_of, new_rejects, new_rejects_with, DotDetails, ParseOutcome,
    Pipeline, StateChangeOutcome,
};
use crate::state::PipelineState;
use crate::text::{
    dec_str, dec_val, is_canonical_dec, lemma_dec_str_val, parse_dec_u64, u64_to_dec_string,
};
use crate::MAX_PIPELINES;

verus! {

/// A snapshot of one pipeline for listings and info queries.
#[derive(Debug, Clone, PartialEq)]
pub struct PipelineInfo {
    pub id: String,
    pub description: String,
    pub state: PipelineState,
    pub streaming: bool,
}

/// One registry slot: the numeric key a pipeline was issued, and the
/// pipeline registered under it.
#[derive(Debug, Clone, PartialEq)]
pub struct Entry {
    pub key: u64,
    pub pipeline: Pipeline,
}

/// The numeric key a client-supplied id denotes: the id must be the
/// canonical decimal rendering of a value that fits the counter. Ids the
/// manager never issued denote no key.
pub open spec fn id_key(id: Seq<char>) -> Option<u64> {
    if is_canonical_dec(id) && dec_val(id) <= u64::MAX {
        Some(dec_val(id) as u64)
    } else {
        None
    }
}

/// A `pipeline_added` event for `id` stands somewhere in the journal.
pub open spec fn added_in_journal(events: Seq<PipelineEvent>, id: Seq<char>) -> bool {
    exists|q: int|
        0 <= q < events.len() && #[trigger] events[q] is PipelineAdded && event_pipeline_id(
            events[q],
        ) == id
}

/// A `pipeline_added` event for the id of `events[p]` stands strictly
/// before position `p`.
pub open spec fn added_before(events: Seq<PipelineEvent>, p: int) -> bool {
    exists|q: int|
        0 <= q < p && #[trigger] events[q] is PipelineAdded && event_pipeline_id(events[q])
            == event_pipeline_id(events[p])
}

/// The journal is causally ordered: the first event for any id is that
/// pipeline's `pipeline_added`.
pub open spec fn journal_ordered(events: Seq<PipelineEvent>) -> bool {
    forall|p: int|
        0 <= p < events.len() && !(#[trigger] events[p] is PipelineAdded) ==> added_before(
            events,
            p,
        )
}

/// Appending leaves an existing `pipeline_added` in place.
pub proof fn lemma_push_preserves_added_in_journal(
    events: Seq<PipelineEvent>,
    e: PipelineEvent,
    id: Seq<char>,
)
    requires
        added_in_journal(events, id),
    ensures
        added_in_journal(events.push(e), id),
{
    let q = choose|q: int|
        0 <= q < events.len() && #[trigger] events[q] is PipelineAdded && event_pipeline_id(
            events[q],
        ) == id;
    assert(events.push(e)[q] == events[q]);
}

/// Appending a `pipeline_added` event puts it in the journal.
pub proof fn lemma_push_added(events: Seq<PipelineEvent>, e: PipelineEvent)
    requires
        e is PipelineAdded,
    ensures
        added_in_journal(events.push(e), event_pipeline_id(e)),
{
    assert(events.push(e)[events.len() as int] == e);
}

/// Appending an event preserves causal order, provided the event is a
/// `pipeline_added` itself or its pipeline already has one in the journal.
pub proof fn lemma_push_preserves_ordered(events: Seq<PipelineEvent>, e: PipelineEvent)
    requires
        journal_ordered(events),
        e is PipelineAdded || added_in_journal(events, event_pipeline_id(e)),
    ensures
        journal_ordered(events.push(e)),
{
    let xs = events.push(e);
    assert forall|p: int| 0 <= p < xs.len() && !(#[trigger] xs[p] is PipelineAdded) implies
        added_before(xs, p) by {
        if p < events.len() {
            assert(xs[p] == events[p]);
            assert(added_before(events, p));
            let q = choose|q: int|
                0 <= q < p && #[trigger] events[q] is PipelineAdded && event_pipeline_id(
                    events[q],
                ) == event_pipeline_id(events[p]);
            assert(xs[q] == events[q]);
        } else {
            assert(xs[p] == e);
            let q = choose|q: int|
                0 <= q < events.len() && #[trigger] events[q] is PipelineAdded
                    && event_pipeline_id(events[q]) == event_pipeline_id(e);
            assert(xs[q] == events[q]);
        }
    }
}

/// The registry and lifecycle coordinator.
pub struct PipelineManager {
    /// The registered pipelines; keys are pairwise distinct.
    pub entries: Vec<Entry>,
    /// The id counter: incremented on every creation attempt that reaches
    /// the allocation point, so gaps are permitted.
    pub next_id: u64,
    /// The journal of published lifecycle events, in publication order.
    pub events: Vec<PipelineEvent>,
}

impl PipelineManager {
    /// Number of registered pipelines.
    pub open spec fn count(self) -> nat {
        self.entries@.len()
    }

    /// Whether some pipeline is registered under numeric key `k`.
    pub open spec fn has_key(self, k: u64) -> bool {
        exists|i: int| 0 <= i < self.entries@.len() && #[trigger] self.entries@[i].key == k
    }

    /// The slot index of key `k`, when registered.
    pub open spec fn key_index(self, k: u64) -> int {
        choose|i: int| 0 <= i < self.entries@.len() && #[trigger] self.entries@[i].key == k
    }

    /// The pipeline registered under key `k`.
    pub open spec fn pipeline_of(self, k: u64) -> Pipeline {
        self.entries@[self.key_index(k)].pipeline
    }

    /// Whether a client-supplied id resolves to a registered pipeline.
    pub open spec fn registered(self, id: Seq<char>) -> bool {
        match id_key(id) {
            Some(k) => self.has_key(k),
            None => false,
        }
    }

    /// Well-formedness: keys are pairwise distinct and below the counter,
    /// the count respects the limit, every registered pipeline's id is the
    /// canonical rendering of its key, and the journal is causally
    /// ordered: the first event for any id is its `pipeline_added`, and
    /// every registered pipeline has one in the journal.
    pub open spec fn wf(self) -> bool {
        &&& forall|i: int, j: int|
            0 <= i < j < self.entries@.len() ==> #[trigger] self.entries@[i].key
                != #[trigger] self.entries@[j].key
        &&& forall|i: int|
            0 <= i < self.entries@.len() ==> #[trigger] self.entries@[i].key < self.next_id
        &&& self.entries@.len() <= MAX_PIPELINES
        &&& forall|i: int|
            0 <= i < self.entries@.len() ==> #[trigger] self.entries@[i].pipeline.id@ == dec_str(
                self.entries@[i].key as int,
            )
        &&& journal_ordered(self.events@)
        &&& forall|i: int|
            0 <= i < self.entries@.len() ==> added_in_journal(
                self.events@,
                #[trigger] self.entries@[i].pipeline.id@,
            )
    }

    /// A fresh manager: empty registry, counter at zero, empty journal.
    pub fn new() -> (m: PipelineManager)
        ensures
            m.wf(),
            m.count() == 0,
            m.next_id == 0,
            m.events@.len() == 0,
    {
        PipelineManager { entries: Vec::new(), next_id: 0, events: Vec::new() }
    }

    /// The slot index registered under `k`, if any.
    fn find_index(&self, k: u64) -> (r: Option<usize>)
        ensures
            match r {
                Some(i) => i < self.entries@.len() && self.entries@[i as int].key == k,
                None => !self.has_key(k),
            },
    {
        let n = self.entries.len();
        let mut i: usize = 0;
        while i < n
            invariant
                i <= n,
                n == self.entries@.len(),
                forall|j: int| 0 <= j < i ==> #[trigger] self.entries@[j].key != k,
            decreases n - i,
        {
            if self.entries[i].key == k {
                return Some(i);
            }
            i += 1;
        }
        None
    }

    /// Creates a pipeline from `description` and the framework's parse
    /// outcome for it. Fails with the limit message when the registry is
    /// full, without touching the counter; otherwise allocates the next
    /// id (the counter advances even when construction then fails, so
    /// gaps are permitted), registers the pipeline, publishes
    /// `pipeline_added`, and returns the id.
    pub fn add_pipeline(&mut self, description: &str, parse: ParseOutcome) -> (r: Result<
        String,
        GpopError,
    >)
        requires
            old(self).wf(),
            old(self).next_id < u64::MAX,
        ensures
            final(self).wf(),
            match r {
                Ok(id) => add_ok(*old(self), *final(self), description@, id@),
                Err(e) => {
                    &&& final(self).entries@ == old(self).entries@
                    &&& final(self).events@ == old(self).events@
                    &&& if old(self).count() >= MAX_PIPELINES {
                        &&& final(self).next_id == old(self).next_id
                        &&& e matches GpopError::InvalidPipeline(m) && m@
                            == "Maximum number of pipelines (100) reached"@
                    } else {
                        &&& final(self).next_id == old(self).next_id + 1
                        &&& new_rejects_with(description, parse, e)
                    }
                },
            },
    {
        if self.entries.len() >= MAX_PIPELINES {
            return Err(
                GpopError::InvalidPipeline(
                    String::from_str("Maximum number of pipelines (100) reached"),
                ),
            );
        }
        let id_num = self.next_id;
        self.next_id = self.next_id + 1;
        let id = u64_to_dec_string(id_num);
        let pipeline = match Pipeline::new(id.clone(), description, parse) {
            Ok(p) => p,
            Err(e) => return Err(e),
        };
        self.entries.push(Entry { key: id_num, pipeline });
        self.events.push(
            PipelineEvent::PipelineAdded {
                pipeline_id: id.clone(),
                description: description.to_owned(),
            },
        );
        proof {
            assert(self.entries@.take(old(self).entries@.len() as int) =~= old(self).entries@);
            assert(self.events@.take(old(self).events@.len() as int) =~= old(self).events@);
            let events0 = old(self).events@;
            let e = self.events@.last();
            assert(self.events@ == events0.push(e));
            lemma_push_added(events0, e);
            lemma_push_preserves_ordered(events0, e);
            assert forall|i: int| 0 <= i < self.entries@.len() implies added_in_journal(
                self.events@,
                #[trigger] self.entries@[i].pipeline.id@,
            ) by {
                if i < old(self).entries@.len() {
                    assert(self.entries@[i] == old(self).entries@[i]);
                    lemma_push_preserves_added_in_journal(
                        events0,
                        e,
                        self.entries@[i].pipeline.id@,
                    );
                } else {
                    assert(event_pipeline_id(e) == self.entries@[i].pipeline.id@);
                }
            }
        }
        Ok(id)
    }

    /// Removes the pipeline registered under `id`, drives it out of the
    /// registry (removal is authoritative: the graph is driven to null
    /// and state-change failures are ignored), and publishes
    /// `pipeline_removed`. Unknown ids fail with `PipelineNotFound`.
    pub fn remove_pipeline(&mut self, id: &str) -> (r: Result<(), GpopError>)
        requires
            old(self).wf(),
        ensures
            final(self).wf(),
            match r {
                Ok(()) => remove_ok(*old(self), *final(self), id@),
                Err(e) => {
                    &&& *final(self) == *old(self)
                    &&& !old(self).registered(id@)
                    &&& e matches GpopError::PipelineNotFound(m) && m@ == id@
                },
            },
    {
        match self.resolve_index(id) {
            Some(i) => {
                proof {
                    lemma_key_index_is(*old(self), i as int);
                }
                self.entries.remove(i);
                self.events.push(
                    PipelineEvent::PipelineRemoved { pipeline_id: id.to_owned() },
                );
                proof {
                    let m0 = *old(self);
                    let k = m0.entries@[i as int].key;
                    let events0 = m0.events@;
                    let e = self.events@.last();
                    assert(self.events@ == events0.push(e));
                    assert(self.events@.take(events0.len() as int) =~= events0);
                    lemma_id_key_dec_str(id@, k);
                    assert(m0.entries@[i as int].pipeline.id@ == id@);
                    assert(added_in_journal(events0, id@));
                    lemma_push_preserves_ordered(events0, e);
                    assert(self.entries@ == m0.entries@.remove(i as int));
                    assert forall|j: int| 0 <= j < self.entries@.len() implies added_in_journal(
                        self.events@,
                        #[trigger] self.entries@[j].pipeline.id@,
                    ) by {
                        if j < i {
                            assert(self.entries@[j] == m0.entries@[j]);
                        } else {
                            assert(self.entries@[j] == m0.entries@[j + 1]);
                        }
                        lemma_push_preserves_added_in_journal(
                            events0,
                            e,
                            self.entries@[j].pipeline.id@,
                        );
                    }
                }
                Ok(())
            },
            None => Err(GpopError::PipelineNotFound(id.to_owned())),
        }
    }

    /// Atomically replaces the pipeline under `id` with one built from
    /// `description` and its parse outcome. The replacement is validated
    /// first, so a rejected description never touches the registry; then
    /// the swap keeps the id and publishes `pipeline_updated`. An unknown
    /// id fails with `PipelineNotFound` after validation.
    pub fn update_pipeline(&mut self, id: &str, description: &str, parse: ParseOutcome) -> (r:
        Result<(), GpopError>)
        requires
            old(self).wf(),
        ensures
            final(self).wf(),
            match r {
                Ok(()) => update_ok(*old(self), *final(self), id@, description@),
                Err(e) => {
                    &&& *final(self) == *old(self)
                    &&& if new_rejects(description, parse) {
                        new_rejects_with(description, parse, e)
                    } else {
                        &&& !old(self).registered(id@)
                        &&& e matches GpopError::PipelineNotFound(m) && m@ == id@
                    }
                },
            },
    {
        let new_pipeline = match Pipeline::new(id.to_owned(), description, parse) {
            Ok(p) => p,
            Err(e) => return Err(e),
        };
        match self.resolve_index(id) {
            Some(i) => {
                proof {
                    lemma_key_index_is(*old(self), i as int);
                }
                let k = self.entries[i].key;
                self.entries.remove(i);
                self.entries.insert(i, Entry { key: k, pipeline: new_pipeline });
                self.events.push(
                    PipelineEvent::PipelineUpdated {
                        pipeline_id: id.to_owned(),
                        description: description.to_owned(),
                    },
                );
                proof {
                    let m0 = *old(self);
                    let events0 = m0.events@;
                    let e = self.events@.last();
                    assert(self.events@ == events0.push(e));
                    assert(self.events@.take(events0.len() as int) =~= events0);
                    lemma_id_key_dec_str(id@, k);
                    assert(m0.entries@[i as int].pipeline.id@ == id@);
                    assert(added_in_journal(events0, id@));
                    lemma_push_preserves_ordered(events0, e);
                    assert forall|j: int|
                        0 <= j < self.entries@.len() && j != i implies #[trigger] self.entries@[j]
                        == m0.entries@[j] by {
                        assert(self.entries@[j] == m0.entries@.remove(i as int).insert(
                            i as int,
                            self.entries@[i as int],
                        )[j]);
                    }
                    assert forall|j: int| 0 <= j < self.entries@.len() implies added_in_journal(
                        self.events@,
                        #[trigger] self.entries@[j].pipeline.id@,
                    ) by {
                        lemma_push_preserves_added_in_journal(
                            events0,
                            e,
                            self.entries@[j].pipeline.id@,
                        );
                    }
                }
                Ok(())
            },
            None => Err(GpopError::PipelineNotFound(id.to_owned())),
        }
    }

    /// Resolves an id, succeeding exactly when a pipeline is registered
    /// under it and failing with `PipelineNotFound` otherwise.
    pub fn resolve_pipeline(&self, id: &str) -> (r: Result<(), GpopError>)
        ensures
            match r {
                Ok(()) => self.registered(id@),
                Err(e) => {
                    &&& !self.registered(id@)
                    &&& e matches GpopError::PipelineNotFound(m) && m@ == id@
                },
            },
    {
        match self.resolve_index(id) {
            Some(_) => Ok(()),
            None => Err(GpopError::PipelineNotFound(id.to_owned())),
        }
    }

    /// The description of the pipeline registered under `id`.
    pub fn get_pipeline_description(&self, id: &str) -> (r: Result<String, GpopError>)
        requires
            self.wf(),
        ensures
            match r {
                Ok(d) => {
                    &&& self.registered(id@)
                    &&& id_key(id@) matches Some(k) && d@ == self.pipeline_of(k).description@
                },
                Err(e) => {
                    &&& !self.registered(id@)
                    &&& e matches GpopError::PipelineNotFound(m) && m@ == id@
                },
            },
    {
        match self.resolve_index(id) {
            Some(i) => {
                proof {
                    lemma_key_index_is(*self, i as int);
                }
                Ok(self.entries[i].pipeline.description.clone())
            },
            None => Err(GpopError::PipelineNotFound(id.to_owned())),
        }
    }

    /// A snapshot of the pipeline registered under `id`: its id,
    /// description, current state, and whether it is streaming (playing).
    pub fn get_pipeline_info(&self, id: &str) -> (r: Result<PipelineInfo, GpopError>)
        requires
            self.wf(),
        ensures
            match r {
                Ok(info) => {
                    &&& self.registered(id@)
                    &&& id_key(id@) matches Some(k) && {
                        let p = self.pipeline_of(k);
                        &&& info.id@ == p.id@
                        &&& info.description@ == p.description@
                        &&& info.state == p.state
                        &&& info.streaming == (p.state == PipelineState::Playing)
                    }
                },
                Err(e) => {
                    &&& !self.registered(id@)
                    &&& e matches GpopError::PipelineNotFound(m) && m@ == id@
                },
            },
    {
        match self.resolve_index(id) {
            Some(i) => {
                proof {
                    lemma_key_index_is(*self, i as int);
                }
                let p = &self.entries[i].pipeline;
                Ok(
                    PipelineInfo {
                        id: p.id.clone(),
                        description: p.description.clone(),
                        state: p.state(),
                        streaming: p.is_streaming(),
                    },
                )
            },
            None => Err(GpopError::PipelineNotFound(id.to_owned())),
        }
    }

    /// Snapshots of every registered pipeline, in registry order.
    pub fn list_pipelines(&self) -> (r: Vec<PipelineInfo>)
        ensures
            r@.len() == self.count(),
            forall|i: int|
                0 <= i < r@.len() ==> {
                    let p = self.entries@[i].pipeline;
                    &&& (#[trigger] r@[i]).id@ == p.id@
                    &&& r@[i].description@ == p.description@
                    &&& r@[i].state == p.state
                    &&& r@[i].streaming == (p.state == PipelineState::Playing)
                },
    {
        let n = self.entries.len();
        let mut infos: Vec<PipelineInfo> = Vec::new();
        let mut i: usize = 0;
        while i < n
            invariant
                i <= n,
                n == self.entries@.len(),
                infos@.len() == i,
                forall|j: int|
                    0 <= j < i ==> {
                        let p = self.entries@[j].pipeline;
                        &&& (#[trigger] infos@[j]).id@ == p.id@
                        &&& infos@[j].description@ == p.description@
                        &&& infos@[j].state == p.state
                        &&& infos@[j].streaming == (p.state == PipelineState::Playing)
                    },
            decreases n - i,
        {
            let p = &self.entries[i].pipeline;
            infos.push(
                PipelineInfo {
                    id: p.id.clone(),
                    description: p.description.clone(),
                    state: p.state(),
                    streaming: p.is_streaming(),
                },
            );
            i += 1;
        }
        infos
    }

    /// Number of registered pipelines.
    pub fn pipeline_count(&self) -> (r: usize)
        ensures
            r == self.count(),
    {
        self.entries.len()
    }

    /// Records the framework's answer to moving the pipeline under `id`
    /// to `state`.
    pub fn set_state(&mut self, id: &str, state: PipelineState, outcome: StateChangeOutcome) -> (r:
        Result<(), GpopError>)
        requires
            old(self).wf(),
        ensures
            final(self).wf(),
            set_state_result(*old(self), *final(self), id@, state, outcome, r),
    {
        match self.resolve_index(id) {
            Some(i) => {
                proof {
                    lemma_key_index_is(*old(self), i as int);
                }
                let mut entry = self.entries.remove(i);
                let result = entry.pipeline.set_state(state, outcome);
                let k = entry.key;
                proof {
                    lemma_id_key_dec_str(id@, k);
                }
                self.entries.insert(i, entry);
                proof {
                    let m0 = *old(self);
                    assert forall|j: int|
                        0 <= j < self.entries@.len() && j != i implies #[trigger] self.entries@[j]
                        == m0.entries@[j] by {
                        assert(self.entries@[j] == m0.entries@.remove(i as int).insert(
                            i as int,
                            self.entries@[i as int],
                        )[j]);
                    }
                    if result is Err {
                        assert(self.entries@ =~= m0.entries@);
                    }
                }
                result
            },
            None => Err(GpopError::PipelineNotFound(id.to_owned())),
        }
    }

    /// Asks the pipeline under `id` to play.
    pub fn play(&mut self, id: &str, outcome: StateChangeOutcome) -> (r: Result<(), GpopError>)
        requires
            old(self).wf(),
        ensures
            final(self).wf(),
            set_state_result(
                *old(self),
                *final(self),
                id@,
                PipelineState::Playing,
                outcome,
                r,
            ),
    {
        self.set_state(id, PipelineState::Playing, outcome)
    }

    /// Asks the pipeline under `id` to pause.
    pub fn pause(&mut self, id: &str, outcome: StateChangeOutcome) -> (r: Result<(), GpopError>)
        requires
            old(self).wf(),
        ensures
            final(self).wf(),
            set_state_result(*old(self), *final(self), id@, PipelineState::Paused, outcome, r),
    {
        self.set_state(id, PipelineState::Paused, outcome)
    }

    /// Asks the pipeline under `id` to stop (driving it to null).
    pub fn stop(&mut self, id: &str, outcome: StateChangeOutcome) -> (r: Result<(), GpopError>)
        requires
            old(self).wf(),
        ensures
            final(self).wf(),
            set_state_result(*old(self), *final(self), id@, PipelineState::Null, outcome, r),
    {
        self.set_state(id, PipelineState::Null, outcome)
    }

    /// Selects the topology-dump detail set for the pipeline under `id`;
    /// the shell renders the DOT text from the graph with it.
    pub fn get_dot(&self, id: &str, details: Option<&str>) -> (r: Result<DotDetails, GpopError>)
        ensures
            match r {
                Ok(d) => self.registered(id@) && d == dot_details_of(match details {
                    Some(s) => Some(s@),
                    None => None,
                }),
                Err(e) => {
                    &&& !self.registered(id@)
                    &&& e matches GpopError::PipelineNotFound(m) && m@ == id@
                },
            },
    {
        match self.resolve_index(id) {
            Some(_) => Ok(dot_details_for(details)),
            None => Err(GpopError::PipelineNotFound(id.to_owned())),
        }
    }

    /// Drains the whole registry: every pipeline is signalled, granted
    /// the grace period to observe the flag, driven to null, and dropped.
    /// Publishes nothing.
    pub fn shutdown(&mut self)
        requires
            old(self).wf(),
        ensures
            final(self).wf(),
            final(self).count() == 0,
            final(self).events@ == old(self).events@,
            final(self).next_id == old(self).next_id,
    {
        self.entries = Vec::new();
    }

    /// Publishes a watcher-originated event into the journal. Events of
    /// the manager's own kinds, and events for ids with no registered
    /// pipeline, are dropped; returns whether the event was published.
    pub fn publish_watcher_event(&mut self, event: PipelineEvent) -> (r: bool)
        requires
            old(self).wf(),
        ensures
            final(self).wf(),
            r == (is_watcher_event(event) && old(self).registered(event_pipeline_id(event))),
            final(self).entries@ == old(self).entries@,
            final(self).next_id == old(self).next_id,
            r ==> final(self).events@ == old(self).events@.push(event),
            !r ==> final(self).events@ == old(self).events@,
    {
        let resolved = match &event {
            PipelineEvent::StateChanged { pipeline_id, .. } => self.resolve_index(
                pipeline_id.as_str(),
            ),
            PipelineEvent::Error { pipeline_id, .. } => self.resolve_index(pipeline_id.as_str()),
            PipelineEvent::Unsupported { pipeline_id, .. } => self.resolve_index(
                pipeline_id.as_str(),
            ),
            PipelineEvent::Eos { pipeline_id } => self.resolve_index(pipeline_id.as_str()),
            _ => None,
        };
        match resolved {
            Some(i) => {
                proof {
                    let m0 = *old(self);
                    let events0 = m0.events@;
                    assert(m0.entries@[i as int].pipeline.id@ == dec_str(
                        m0.entries@[i as int].key as int,
                    ));
                    lemma_id_key_dec_str(event_pipeline_id(event), m0.entries@[i as int].key);
                    assert(added_in_journal(events0, event_pipeline_id(event)));
                    lemma_push_preserves_ordered(events0, event);
                    assert forall|j: int| 0 <= j < m0.entries@.len() implies added_in_journal(
                        events0.push(event),
                        #[trigger] m0.entries@[j].pipeline.id@,
                    ) by {
                        lemma_push_preserves_added_in_journal(
                            events0,
                            event,
                            m0.entries@[j].pipeline.id@,
                        );
                    }
                }
                self.events.push(event);
                true
            },
            None => false,
        }
    }

    /// The slot index a client-supplied id resolves to, if any.
    fn resolve_index(&self, id: &str) -> (r: Option<usize>)
        ensures
            match r {
                Some(i) => {
                    &&& self.registered(id@)
                    &&& i < self.entries@.len()
                    &&& id_key(id@) matches Some(k) && self.entries@[i as int].key == k
                },
                None => !self.registered(id@),
            },
    {
        match parse_dec_u64(id) {
            Some(k) => self.find_index(k),
            None => None,
        }
    }
}

/// A resolvable id is the canonical rendering of its key.
pub proof fn lemma_id_key_dec_str(id: Seq<char>, k: u64)
    requires
        id_key(id) == Some(k),
    ensures
        id == dec_str(k as int),
{
    crate::text::lemma_canonical_dec_str(id);
}

/// The canonical rendering of a key resolves back to it.
pub proof fn lemma_dec_str_id_key(n: u64)
    ensures
        id_key(dec_str(n as int)) == Some(n),
{
    lemma_dec_str_val(n as int);
}

/// In a well-formed registry, the slot of a key is the slot it was found
/// at: keys are unique.
proof fn lemma_key_index_is(m: PipelineManager, i: int)
    requires
        m.wf(),
        0 <= i < m.entries@.len(),
    ensures
        m.has_key(m.entries@[i].key),
        m.key_index(m.entries@[i].key) == i,
{
    let k = m.entries@[i].key;
    assert(m.has_key(k));
    let j = m.key_index(k);
    assert(0 <= j < m.entries@.len() && m.entries@[j].key == k);
    if j < i {
        assert(m.entries@[j].key != m.entries@[i].key);
    } else if i < j {
        assert(m.entries@[i].key != m.entries@[j].key);
    }
}

/// The watcher-originated event kinds: everything but the add, update and
/// remove events the manager itself publishes.
pub open spec fn is_watcher_event(e: PipelineEvent) -> bool {
    ||| e is StateChanged
    ||| e is Error
    ||| e is Unsupported
    ||| e is Eos
}

/// What `set_state` (and its `play`/`pause`/`stop` sugar) guarantees, for
/// target state `st` and framework outcome `outcome`: an unknown id fails
/// untouched with `PipelineNotFound`; a refusal or failed wait fails with
/// `StateChangeFailed` and its message; success records the accepted
/// state. No events are published (state-change events come from the bus
/// watcher).
pub open spec fn set_state_result(
    m0: PipelineManager,
    m1: PipelineManager,
    id: Seq<char>,
    st: PipelineState,
    outcome: StateChangeOutcome,
    r: Result<(), GpopError>,
) -> bool {
    &&& m1.events@ == m0.events@
    &&& m1.next_id == m0.next_id
    &&& if !m0.registered(id) {
        &&& m1.entries@ == m0.entries@
        &&& r matches Err(GpopError::PipelineNotFound(m)) && m@ == id
    } else {
        match r {
            Ok(()) => {
                &&& !(outcome is Refused)
                &&& !(outcome is Failure)
                &&& m1.entries@.len() == m0.entries@.len()
                &&& id_key(id) matches Some(k) && {
                    let idx = m0.key_index(k);
                    &&& forall|i: int|
                        0 <= i < m0.entries@.len() && i != idx ==> #[trigger] m1.entries@[i]
                            == m0.entries@[i]
                    &&& m1.entries@[idx].key == m0.entries@[idx].key
                    &&& m1.entries@[idx].pipeline == (Pipeline {
                        state: st,
                        ..m0.entries@[idx].pipeline
                    })
                }
            },
            Err(e) => {
                &&& m1.entries@ == m0.entries@
                &&& match outcome {
                    StateChangeOutcome::Refused(fm) => e matches GpopError::StateChangeFailed(m)
                        && m@ == fm@,
                    StateChangeOutcome::Failure => e matches GpopError::StateChangeFailed(m) && m@
                        == "Failed to change state to "@ + crate::state::state_name(st)
                        + " for pipeline '"@ + id + "'"@,
                    _ => false,
                }
            },
        }
    }
}

/// The journal `new` extends `old` by exactly one event, which satisfies
/// predicate-shaped fields given by the caller through the remaining
/// arguments of the concrete relations below.
pub open spec fn journal_extended(old: Seq<PipelineEvent>, new: Seq<PipelineEvent>) -> bool {
    new.len() == old.len() + 1 && new.take(old.len() as int) == old
}

/// The successful-addition relation: what `add_pipeline` guarantees when
/// it returns an id.
pub open spec fn add_ok(
    m0: PipelineManager,
    m1: PipelineManager,
    description: Seq<char>,
    id: Seq<char>,
) -> bool {
    &&& m0.count() < MAX_PIPELINES
    &&& id == dec_str(m0.next_id as int)
    &&& m1.next_id == m0.next_id + 1
    &&& m1.entries@.len() == m0.entries@.len() + 1
    &&& m1.entries@.take(m0.entries@.len() as int) == m0.entries@
    &&& m1.entries@.last().key == m0.next_id
    &&& m1.entries@.last().pipeline.id@ == id
    &&& m1.entries@.last().pipeline.description@ == description
    &&& m1.entries@.last().pipeline.shutdown_flag == false
    &&& m1.entries@.last().pipeline.state == PipelineState::Null
    &&& journal_extended(m0.events@, m1.events@)
    &&& m1.events@.last() matches PipelineEvent::PipelineAdded {
        pipeline_id,
        description: d,
    } && pipeline_id@ == id && d@ == description
}

/// The successful-removal relation: what `remove_pipeline` guarantees
/// when it succeeds.
pub open spec fn remove_ok(m0: PipelineManager, m1: PipelineManager, id: Seq<char>) -> bool {
    &&& m0.registered(id)
    &&& id_key(id) matches Some(k) && m1.entries@ == m0.entries@.remove(m0.key_index(k))
    &&& m1.next_id == m0.next_id
    &&& journal_extended(m0.events@, m1.events@)
    &&& m1.events@.last() matches PipelineEvent::PipelineRemoved { pipeline_id } && pipeline_id@
        == id
}

/// The successful-update relation: what `update_pipeline` guarantees when
/// it succeeds. The pipeline under `id` is atomically replaced: same key,
/// same id, new description, fresh shutdown latch and null state; every
/// other slot is untouched.
pub open spec fn update_ok(
    m0: PipelineManager,
    m1: PipelineManager,
    id: Seq<char>,
    description: Seq<char>,
) -> bool {
    &&& m0.registered(id)
    &&& m1.entries@.len() == m0.entries@.len()
    &&& m1.next_id == m0.next_id
    &&& id_key(id) matches Some(k) && {
        let idx = m0.key_index(k);
        &&& forall|i: int|
            0 <= i < m0.entries@.len() && i != idx ==> #[trigger] m1.entries@[i] == m0.entries@[i]
        &&& m1.entries@[idx].key == k
        &&& m1.entries@[idx].pipeline.id@ == id
        &&& m1.entries@[idx].pipeline.description@ == description
        &&& m1.entries@[idx].pipeline.shutdown_flag == false
        &&& m1.entries@[idx].pipeline.state == PipelineState::Null
    }
    &&& journal_extended(m0.events@, m1.events@)
    &&& m1.events@.last() matches PipelineEvent::PipelineUpdated {
        pipeline_id,
        description: d,
    } && pipeline_id@ == id && d@ == description
}

/// Law: a successful `add_pipeline` registers the id it returned, and
/// that id is a canonical decimal string.
pub proof fn lemma_add_registers(
    m0: PipelineManager,
    m1: PipelineManager,
    description: Seq<char>,
    id: Seq<char>,
)
    requires
        add_ok(m0, m1, description, id),
    ensures
        m1.registered(id),
        is_canonical_dec(id),
{
    lemma_dec_str_id_key(m0.next_id);
    lemma_dec_str_val(m0.next_id as int);
    assert(m1.entries@[m1.entries@.len() - 1].key == m0.next_id);
    assert(m1.has_key(m0.next_id));
}

/// Law: an `add_pipeline` followed by a `remove_pipeline` of the returned
/// id leaves the registry size unchanged from its starting value.
pub proof fn lemma_add_remove_restores_count(
    m0: PipelineManager,
    m1: PipelineManager,
    m2: PipelineManager,
    description: Seq<char>,
    id: Seq<char>,
)
    requires
        add_ok(m0, m1, description, id),
        remove_ok(m1, m2, id),
    ensures
        m2.count() == m0.count(),
{
    let k = id_key(id)->Some_0;
    assert(m1.has_key(k));
    assert(0 <= m1.key_index(k) < m1.entries@.len());
}

/// Law: an `add_pipeline`, an `update_pipeline` of the returned id and a
/// `remove_pipeline` of it leave the registry size unchanged from its
/// starting value.
pub proof fn lemma_add_update_remove_restores_count(
    m0: PipelineManager,
    m1: PipelineManager,
    m2: PipelineManager,
    m3: PipelineManager,
    description: Seq<char>,
    id: Seq<char>,
    new_description: Seq<char>,
)
    requires
        add_ok(m0, m1, description, id),
        update_ok(m1, m2, id, new_description),
        remove_ok(m2, m3, id),
    ensures
        m3.count() == m0.count(),
{
    let k = id_key(id)->Some_0;
    assert(m2.has_key(k));
    assert(0 <= m2.key_index(k) < m2.entries@.len());
}

/// Law: the ids returned by successful additions are unique among all
/// ids ever returned. The counter never decreases across operations, so
/// for any earlier addition returning `id1` and any later one returning
/// `id2`, the two ids differ (and each is a valid decimal string).
pub proof fn lemma_issued_ids_unique(
    m0: PipelineManager,
    m1: PipelineManager,
    ma: PipelineManager,
    mb: PipelineManager,
    d1: Seq<char>,
    d2: Seq<char>,
    id1: Seq<char>,
    id2: Seq<char>,
)
    requires
        add_ok(m0, m1, d1, id1),
        add_ok(ma, mb, d2, id2),
        m1.next_id <= ma.next_id,
    ensures
        id1 != id2,
        is_canonical_dec(id1),
        is_canonical_dec(id2),
{
    lemma_dec_str_val(m0.next_id as int);
    lemma_dec_str_val(ma.next_id as int);
    assert(m0.next_id < ma.next_id);
    if id1 == id2 {
        assert(dec_val(dec_str(m0.next_id as int)) == dec_val(dec_str(ma.next_id as int)));
    }
}

/// Law: after a successful `update_pipeline`, the pipeline is still
/// registered under its id, its description is the new one, and the
/// registry size is unchanged.
pub proof fn lemma_update_description(
    m0: PipelineManager,
    m1: PipelineManager,
    id: Seq<char>,
    description: Seq<char>,
)
    requires
        m0.wf(),
        update_ok(m0, m1, id, description),
    ensures
        m1.registered(id),
        m1.count() == m0.count(),
        id_key(id) matches Some(k) && m1.pipeline_of(k).description@ == description,
{
    let k = id_key(id)->Some_0;
    let idx = m0.key_index(k);
    assert(m0.has_key(k));
    assert(0 <= idx < m0.entries@.len() && m0.entries@[idx].key == k);
    assert(m1.entries@[idx].key == k);
    assert(m1.has_key(k));
    let j = m1.key_index(k);
    assert(0 <= j < m1.entries@.len() && m1.entries@[j].key == k);
    if j != idx {
        assert(m1.entries@[j] == m0.entries@[j]);
        assert(m0.entries@[j].key != m0.entries@[idx].key);
    }
}

/// Law: after a successful `remove_pipeline`, the id no longer resolves,
/// so every subsequent operation on it fails with `PipelineNotFound`.
pub proof fn lemma_removed_not_registered(
    m0: PipelineManager,
    m1: PipelineManager,
    id: Seq<char>,
)
    requires
        m0.wf(),
        remove_ok(m0, m1, id),
    ensures
        !m1.registered(id),
{
    let k = id_key(id)->Some_0;
    let idx = m0.key_index(k);
    assert(m0.has_key(k));
    assert(0 <= idx < m0.entries@.len() && m0.entries@[idx].key == k);
    if m1.has_key(k) {
        let j = choose|j: int|
            0 <= j < m1.entries@.len() && #[trigger] m1.entries@[j].key == k;
        if j < idx {
            assert(m1.entries@[j] == m0.entries@[j]);
            assert(m0.entries@[j].key != m0.entries@[idx].key);
        } else {
            assert(m1.entries@[j] == m0.entries@[j + 1]);
            assert(m0.entries@[idx].key != m0.entries@[j + 1].key);
        }
    }
}

/// Law: in a well-formed manager, a subscriber that reads the journal in
/// order sees `pipeline_added` for an id before any other event for that
/// id.
pub proof fn lemma_added_precedes(m: PipelineManager, p: int)
    requires
        m.wf(),
        0 <= p < m.events@.len(),
        !(m.events@[p] is PipelineAdded),
    ensures
        added_before(m.events@, p),
{
}

} // verus!
