//! Playback-mode completion tracking: given the initially started
//! pipelines, consume lifecycle events until none is pending, remembering
//! whether any pipeline failed or hit unsupported media, and emit the
//! conventional completion code.

use vstd::prelude::*;

use crate::event::PipelineEvent;
use crate::manager::PipelineManager;
use crate::text::str_eq;

verus! {

/// Completion code for a playback run in which some pipeline failed, was
/// removed while tracked, or vanished during a broadcast lag.
pub const EXIT_CODE_ERROR: i32 = 1;

/// Completion code for a playback run whose only incidents were
/// unsupported-media classifications.
pub const EXIT_CODE_UNSUPPORTED: i32 = 69;

/// How one lifecycle event moves the tracker from `t0` to `t1`: `eos`
/// retires its pipeline; `error` and an external `pipeline_removed`
/// retire it and mark an error; `unsupported` retires it and marks
/// unsupported media; everything else is ignored. Flags move only when
/// the event's pipeline was actually tracked.
pub open spec fn tracker_step(t0: PlaybackTracker, t1: PlaybackTracker, e: PipelineEvent) -> bool {
    match e {
        PipelineEvent::Eos { pipeline_id } => {
            &&& retires(t0, t1, pipeline_id@)
            &&& t1.had_error == t0.had_error
            &&& t1.had_unsupported == t0.had_unsupported
        },
        PipelineEvent::Error { pipeline_id, .. } => {
            &&& retires(t0, t1, pipeline_id@)
            &&& t1.had_error == (t0.had_error || t0.pends(pipeline_id@))
            &&& t1.had_unsupported == t0.had_unsupported
        },
        PipelineEvent::Unsupported { pipeline_id, .. } => {
            &&& retires(t0, t1, pipeline_id@)
            &&& t1.had_error == t0.had_error
            &&& t1.had_unsupported == (t0.had_unsupported || t0.pends(pipeline_id@))
        },
        PipelineEvent::PipelineRemoved { pipeline_id } => {
            &&& retires(t0, t1, pipeline_id@)
            &&& t1.had_error == (t0.had_error || t0.pends(pipeline_id@))
            &&& t1.had_unsupported == t0.had_unsupported
        },
        _ => t1 == t0,
    }
}

/// `id` is no longer pending, and no other id's pending status moved.
pub open spec fn retires(t0: PlaybackTracker, t1: PlaybackTracker, id: Seq<char>) -> bool {
    &&& !t1.pends(id)
    &&& forall|x: Seq<char>| x != id ==> #[trigger] t1.pends(x) == t0.pends(x)
}

/// Pending status depends on the pending list alone.
proof fn lemma_pends_frame(t1: PlaybackTracker, t2: PlaybackTracker)
    requires
        t1.pending@ == t2.pending@,
    ensures
        forall|x: Seq<char>| #[trigger] t2.pends(x) == t1.pends(x),
{
    assert forall|x: Seq<char>| #[trigger] t2.pends(x) == t1.pends(x) by {
        if t1.pends(x) {
            let q = choose|q: int|
                0 <= q < t1.pending@.len() && #[trigger] t1.pending@[q]@ == x;
            assert(t2.pending@[q]@ == x);
        }
        if t2.pends(x) {
            let q = choose|q: int|
                0 <= q < t2.pending@.len() && #[trigger] t2.pending@[q]@ == x;
            assert(t1.pending@[q]@ == x);
        }
    }
}

/// Tracks a fixed set of auto-played pipelines to completion.
pub struct PlaybackTracker {
    /// Ids still awaited; pairwise distinct.
    pub pending: Vec<String>,
    /// A tracked pipeline errored, was removed, or vanished.
    pub had_error: bool,
    /// A tracked pipeline hit unsupported media.
    pub had_unsupported: bool,
}

impl PlaybackTracker {
    /// Whether `id` is still awaited.
    pub open spec fn pends(self, id: Seq<char>) -> bool {
        exists|i: int| 0 <= i < self.pending@.len() && #[trigger] self.pending@[i]@ == id
    }

    /// The pending ids are pairwise distinct.
    pub open spec fn wf(self) -> bool {
        forall|i: int, j: int|
            0 <= i < j < self.pending@.len() ==> #[trigger] self.pending@[i]@
                != #[trigger] self.pending@[j]@
    }

    /// Starts tracking `ids` (the pipelines that were started), with
    /// `had_error_initially` true when some initial pipeline already
    /// failed to start.
    pub fn new(ids: Vec<String>, had_error_initially: bool) -> (t: PlaybackTracker)
        requires
            forall|i: int, j: int|
                0 <= i < j < ids@.len() ==> #[trigger] ids@[i]@ != #[trigger] ids@[j]@,
        ensures
            t.wf(),
            t.pending@ == ids@,
            t.had_error == had_error_initially,
            t.had_unsupported == false,
    {
        PlaybackTracker { pending: ids, had_error: had_error_initially, had_unsupported: false }
    }

    /// Drops `id` from the pending set if it is there; reports whether it
    /// was.
    fn remove_pending(&mut self, id: &str) -> (r: bool)
        requires
            old(self).wf(),
        ensures
            final(self).wf(),
            r == old(self).pends(id@),
            !final(self).pends(id@),
            forall|x: Seq<char>|
                x != id@ ==> #[trigger] final(self).pends(x) == old(self).pends(x),
            final(self).had_error == old(self).had_error,
            final(self).had_unsupported == old(self).had_unsupported,
            final(self).pending@.len() <= old(self).pending@.len(),
            old(self).pends(id@) ==> final(self).pending@.len() < old(self).pending@.len(),
    {
        let n = self.pending.len();
        let mut i: usize = 0;
        while i < n
            invariant
                i <= n,
                *self == *old(self),
                n == self.pending@.len(),
                old(self).wf(),
                forall|j: int| 0 <= j < i ==> #[trigger] self.pending@[j]@ != id@,
            decreases n - i,
        {
            if str_eq(self.pending[i].as_str(), id) {
                let ghost m0 = *old(self);
                self.pending.remove(i);
                proof {
                    assert(self.pending@ == m0.pending@.remove(i as int));
                    assert forall|a: int, b: int|
                        0 <= a < b < self.pending@.len() implies (#[trigger] self.pending@[a]@)
                        != (#[trigger] self.pending@[b]@) by {
                        let a0 = if a < i { a } else { a + 1 };
                        let b0 = if b < i { b } else { b + 1 };
                        assert(self.pending@[a] == m0.pending@[a0]);
                        assert(self.pending@[b] == m0.pending@[b0]);
                        assert(m0.pending@[a0]@ != m0.pending@[b0]@);
                    }
                    assert forall|x: Seq<char>| x != id@ implies #[trigger] self.pends(x)
                        == m0.pends(x) by {
                        if m0.pends(x) {
                            let q = choose|q: int|
                                0 <= q < m0.pending@.len() && #[trigger] m0.pending@[q]@ == x;
                            if q < i {
                                assert(self.pending@[q]@ == x);
                            } else {
                                assert(q != i);
                                assert(self.pending@[q - 1]@ == x);
                            }
                        }
                        if self.pends(x) {
                            let q = choose|q: int|
                                0 <= q < self.pending@.len() && #[trigger] self.pending@[q]@ == x;
                            if q < i {
                                assert(m0.pending@[q]@ == x);
                            } else {
                                assert(m0.pending@[q + 1]@ == x);
                            }
                        }
                    }
                    assert(!self.pends(id@)) by {
                        if self.pends(id@) {
                            let q = choose|q: int|
                                0 <= q < self.pending@.len() && #[trigger] self.pending@[q]@
                                    == id@;
                            if q < i {
                                assert(m0.pending@[q]@ != m0.pending@[i as int]@);
                            } else {
                                assert(m0.pending@[i as int]@ != m0.pending@[q + 1]@);
                            }
                        }
                    }
                }
                return true;
            }
            i += 1;
        }
        assert(!self.pends(id@));
        false
    }

    /// Consumes one lifecycle event: `eos` retires its pipeline; `error`
    /// and an external `pipeline_removed` retire it and mark an error;
    /// `unsupported` retires it and marks unsupported media; everything
    /// else (additions, updates, state changes) is ignored. Flags move
    /// only when the event's pipeline was actually tracked.
    pub fn on_event(&mut self, event: &PipelineEvent)
        requires
            old(self).wf(),
        ensures
            final(self).wf(),
            tracker_step(*old(self), *final(self), *event),
    {
        match event {
            PipelineEvent::Eos { pipeline_id } => {
                self.remove_pending(pipeline_id.as_str());
            },
            PipelineEvent::Error { pipeline_id, .. } => {
                let was_pending = self.remove_pending(pipeline_id.as_str());
                let ghost mid = *self;
                if was_pending {
                    self.had_error = true;
                }
                proof {
                    lemma_pends_frame(mid, *self);
                }
            },
            PipelineEvent::Unsupported { pipeline_id, .. } => {
                let was_pending = self.remove_pending(pipeline_id.as_str());
                let ghost mid = *self;
                if was_pending {
                    self.had_unsupported = true;
                }
                proof {
                    lemma_pends_frame(mid, *self);
                }
            },
            PipelineEvent::PipelineRemoved { pipeline_id } => {
                let was_pending = self.remove_pending(pipeline_id.as_str());
                let ghost mid = *self;
                if was_pending {
                    self.had_error = true;
                }
                proof {
                    lemma_pends_frame(mid, *self);
                }
            },
            _ => {},
        }
    }

    /// Reconciliation after a broadcast-lag signal: every pending id that
    /// is no longer present in the manager is dropped and counted as an
    /// error (its terminal event may have been missed).
    #[verifier::rlimit(100)]
    pub fn reconcile(&mut self, manager: &PipelineManager)
        requires
            old(self).wf(),
        ensures
            final(self).wf(),
            forall|x: Seq<char>|
                #[trigger] final(self).pends(x) == (old(self).pends(x) && manager.registered(x)),
            final(self).had_error == (old(self).had_error || exists|x: Seq<char>|
                #[trigger] old(self).pends(x) && !manager.registered(x)),
            final(self).had_unsupported == old(self).had_unsupported,
    {
        let n = self.pending.len();
        let mut kept: Vec<String> = Vec::new();
        let mut dropped_any = false;
        let mut i: usize = 0;
        while i < n
            invariant
                i <= n,
                n == old(self).pending@.len(),
                self.pending@ == old(self).pending@,
                self.had_error == old(self).had_error,
                self.had_unsupported == old(self).had_unsupported,
                old(self).wf(),
                kept@.len() <= i,
                forall|q: int|
                    0 <= q < kept@.len() ==> manager.registered(#[trigger] kept@[q]@),
                forall|q: int|
                    0 <= q < kept@.len() ==> exists|p: int|
                        0 <= p < i && #[trigger] kept@[q]@ == old(self).pending@[p]@,
                forall|p: int|
                    0 <= p < i && manager.registered(#[trigger] old(self).pending@[p]@)
                        ==> exists|q: int|
                        0 <= q < kept@.len() && #[trigger] kept@[q]@ == old(self).pending@[p]@,
                forall|a: int, b: int|
                    0 <= a < b < kept@.len() ==> #[trigger] kept@[a]@ != #[trigger] kept@[b]@,
                dropped_any == exists|q: int|
                    0 <= q < i && !manager.registered(#[trigger] old(self).pending@[q]@),
            decreases n - i,
        {
            let id = self.pending[i].clone();
            let ghost kept0 = kept@;
            if manager.resolve_pipeline(id.as_str()).is_ok() {
                proof {
                    assert forall|a: int, b: int|
                        0 <= a < b < kept@.len() + 1 implies (#[trigger] kept@.push(id)[a]@)
                        != (#[trigger] kept@.push(id)[b]@) by {
                        if b == kept@.len() {
                            let p = choose|p: int|
                                0 <= p < i && #[trigger] kept@[a]@ == old(self).pending@[p]@;
                            assert(old(self).pending@[p]@ != old(self).pending@[i as int]@);
                        }
                    }
                }
                kept.push(id);
                proof {
                    assert(kept@ == kept0.push(id));
                    assert(kept@[kept0.len() as int]@ == old(self).pending@[i as int]@);
                    assert forall|p: int|
                        0 <= p < i + 1 && manager.registered(
                            #[trigger] old(self).pending@[p]@,
                        ) implies exists|q: int|
                        0 <= q < kept@.len() && #[trigger] kept@[q]@ == old(self).pending@[p]@ by {
                        if p == i {
                            assert(kept@[kept0.len() as int]@ == old(self).pending@[p]@);
                        } else {
                            let q = choose|q: int|
                                0 <= q < kept0.len() && #[trigger] kept0[q]@ == old(
                                    self,
                                ).pending@[p]@;
                            assert(kept@[q]@ == old(self).pending@[p]@);
                        }
                    }
                }
            } else {
                dropped_any = true;
                proof {
                    assert(!manager.registered(old(self).pending@[i as int]@));
                }
            }
            i += 1;
        }
        let ghost keptv = kept@;
        self.pending = kept;
        if dropped_any {
            self.had_error = true;
        }
        proof {
            assert(self.pending@ == keptv);
            assert forall|x: Seq<char>|
                #[trigger] self.pends(x) == (old(self).pends(x) && manager.registered(x)) by {
                if old(self).pends(x) && manager.registered(x) {
                    let p = choose|p: int|
                        0 <= p < old(self).pending@.len() && #[trigger] old(self).pending@[p]@
                            == x;
                    let q = choose|q: int|
                        0 <= q < keptv.len() && #[trigger] keptv[q]@ == old(self).pending@[p]@;
                    assert(self.pending@[q]@ == x);
                }
                if self.pends(x) {
                    let q = choose|q: int|
                        0 <= q < self.pending@.len() && #[trigger] self.pending@[q]@ == x;
                    assert(keptv[q]@ == x);
                    assert(manager.registered(keptv[q]@));
                    let p = choose|p: int|
                        0 <= p < n && #[trigger] keptv[q]@ == old(self).pending@[p]@;
                    assert(old(self).pending@[p]@ == x);
                }
            }
            if old(self).had_error || exists|x: Seq<char>|
                #[trigger] old(self).pends(x) && !manager.registered(x) {
                if !old(self).had_error {
                    let x = choose|x: Seq<char>|
                        #[trigger] old(self).pends(x) && !manager.registered(x);
                    let p = choose|p: int|
                        0 <= p < old(self).pending@.len() && #[trigger] old(self).pending@[p]@
                            == x;
                    assert(!manager.registered(old(self).pending@[p]@));
                }
            } else {
                assert(!dropped_any) by {
                    if dropped_any {
                        let q = choose|q: int|
                            0 <= q < n && !manager.registered(
                                #[trigger] old(self).pending@[q]@,
                            );
                        assert(old(self).pends(old(self).pending@[q]@));
                    }
                }
            }
        }
    }

    /// The broadcast closed under the tracker: nothing more can arrive,
    /// so every still-pending pipeline is abandoned and counted as an
    /// error.
    pub fn on_closed(&mut self)
        requires
            old(self).wf(),
        ensures
            final(self).wf(),
            final(self).pending@.len() == 0,
            final(self).had_error == true,
            final(self).had_unsupported == old(self).had_unsupported,
    {
        self.had_error = true;
        self.pending = Vec::new();
    }

    /// Whether every tracked pipeline has reached a terminal condition.
    pub fn is_done(&self) -> (r: bool)
        ensures
            r == (self.pending@.len() == 0),
    {
        self.pending.len() == 0
    }

    /// The playback completion code: errors take priority over
    /// unsupported media; a clean run exits zero.
    pub fn exit_code(&self) -> (r: i32)
        ensures
            r == if self.had_error {
                EXIT_CODE_ERROR
            } else if self.had_unsupported {
                EXIT_CODE_UNSUPPORTED
            } else {
                0
            },
    {
        if self.had_error {
            EXIT_CODE_ERROR
        } else if self.had_unsupported {
            EXIT_CODE_UNSUPPORTED
        } else {
            0
        }
    }
}

} // verus!
