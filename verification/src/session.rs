//! The bounded consume session, driven as a state machine.
//!
//! The session owns no network handle.  The caller fetches watermarks,
//! commits seed offsets, polls and commits progress through the broker
//! gateway, asking `next_action` what to do and feeding every outcome
//! back through the `on_*` methods.  The session keeps, as ghost state,
//! the full history of polled batches; its central invariant is that the
//! accumulated records are exactly the concatenation of that history.

use vstd::prelude::*;

use crate::resolver::resolve;
use crate::resolver::resolved_targets;
use crate::resolver::spec_watermark_kind;
use crate::resolver::watermark_kind;
use crate::types::BrokerError;
use crate::types::ConsumeRequest;
use crate::types::FetchedRecord;
use crate::types::PartitionOffsetPoint;
use crate::types::StartPolicy;
use crate::types::WatermarkKind;

verus! {

/// The stage a consume session is in.  `Checkpointing` is the tail of
/// the polling stage: the target count was reached and the consumed
/// position is being committed before the session finishes.
#[derive(Clone, Copy, PartialEq, Eq, Structural, Debug)]
pub enum SessionPhase {
    Idle,
    Resolving,
    Committing,
    Polling,
    Checkpointing,
    Done,
    Failed,
}

/// The broker round-trip the caller must perform next on behalf of the
/// session.  Seed commits address the transient, tool-owned work group
/// that seeds the read position; the progress commit checkpoints the
/// position actually consumed.
#[derive(Clone, Copy, PartialEq, Eq, Structural, Debug)]
pub enum GatewayAction {
    FetchWatermarks(WatermarkKind),
    CommitSeedOffset(PartitionOffsetPoint),
    Poll,
    CommitProgress,
}

/// The mathematical state of a session.
pub ghost struct SessionView {
    pub topic: Seq<char>,
    pub policy: StartPolicy,
    pub target_count: int,
    pub phase: SessionPhase,
    pub targets: Seq<PartitionOffsetPoint>,
    pub commits_applied: int,
    pub records: Seq<FetchedRecord>,
    pub polled: Seq<Seq<FetchedRecord>>,
    pub error: Option<BrokerError>,
}

/// Well-formedness of a session: the accumulated records are exactly
/// the polled batches laid end to end; before any polling happens both
/// are empty; the seed-commit cursor stays inside the resolved targets;
/// polling begins only once every partition's seed commit succeeded;
/// the progress checkpoint runs only once the target count is reached;
/// an error is held exactly in the failed phase.
pub open spec fn wf(v: SessionView) -> bool {
    &&& v.records == v.polled.flatten()
    &&& 0 <= v.commits_applied <= v.targets.len()
    &&& (v.phase is Committing ==> v.commits_applied < v.targets.len())
    &&& ((v.phase is Idle || v.phase is Resolving || v.phase is Committing) ==> v.polled.len()
        == 0 && v.records.len() == 0)
    &&& ((v.phase is Polling || v.phase is Checkpointing || v.phase is Done)
        ==> v.commits_applied == v.targets.len())
    &&& (v.phase is Checkpointing ==> v.records.len() >= v.target_count)
    &&& (v.error is Some <==> v.phase is Failed)
}

/// What the caller must do next, given the session's state.
pub open spec fn spec_next_action(v: SessionView) -> Option<GatewayAction> {
    match v.phase {
        SessionPhase::Idle => None,
        SessionPhase::Resolving => Some(
            GatewayAction::FetchWatermarks(spec_watermark_kind(v.policy)),
        ),
        SessionPhase::Committing => Some(
            GatewayAction::CommitSeedOffset(v.targets[v.commits_applied]),
        ),
        SessionPhase::Polling => Some(GatewayAction::Poll),
        SessionPhase::Checkpointing => Some(GatewayAction::CommitProgress),
        SessionPhase::Done => None,
        SessionPhase::Failed => None,
    }
}

/// A bounded pull of records from one topic.
pub struct ConsumeSession {
    topic: String,
    policy: StartPolicy,
    target_count: usize,
    phase: SessionPhase,
    targets: Vec<PartitionOffsetPoint>,
    commits_applied: usize,
    records: Vec<FetchedRecord>,
    error: Option<BrokerError>,
    polled: Ghost<Seq<Seq<FetchedRecord>>>,
}

impl View for ConsumeSession {
    type V = SessionView;

    closed spec fn view(&self) -> SessionView {
        SessionView {
            topic: self.topic@,
            policy: self.policy,
            target_count: self.target_count as int,
            phase: self.phase,
            targets: self.targets@,
            commits_applied: self.commits_applied as int,
            records: self.records@,
            polled: self.polled@,
            error: self.error,
        }
    }
}

impl ConsumeSession {
    /// A fresh session for one request; nothing has been asked of the
    /// broker yet.
    pub fn new(request: ConsumeRequest) -> (s: ConsumeSession)
        ensures
            wf(s@),
            s@.phase is Idle,
            s@.topic == request.topic@,
            s@.policy == request.start_policy,
            s@.target_count == request.target_count as int,
            s@.records.len() == 0,
            s@.polled.len() == 0,
    {
        ConsumeSession {
            topic: request.topic,
            policy: request.start_policy,
            target_count: request.target_count,
            phase: SessionPhase::Idle,
            targets: Vec::new(),
            commits_applied: 0,
            records: Vec::new(),
            error: None,
            polled: Ghost(Seq::empty()),
        }
    }

    /// Begin the pull: the session now waits for fresh watermarks.
    pub fn start(&mut self)
        requires
            wf(old(self)@),
            old(self)@.phase is Idle,
        ensures
            wf(final(self)@),
            final(self)@ == (SessionView { phase: SessionPhase::Resolving, ..old(self)@ }),
    {
        self.phase = SessionPhase::Resolving;
    }

    /// The broker round-trip the caller must perform next; `None` once
    /// the session is terminal or not yet started.
    pub fn next_action(&self) -> (a: Option<GatewayAction>)
        requires
            wf(self@),
        ensures
            a == spec_next_action(self@),
    {
        match self.phase {
            SessionPhase::Idle => None,
            SessionPhase::Resolving => Some(
                GatewayAction::FetchWatermarks(watermark_kind(self.policy)),
            ),
            SessionPhase::Committing => Some(
                GatewayAction::CommitSeedOffset(self.targets[self.commits_applied]),
            ),
            SessionPhase::Polling => Some(GatewayAction::Poll),
            SessionPhase::Checkpointing => Some(GatewayAction::CommitProgress),
            SessionPhase::Done => None,
            SessionPhase::Failed => None,
        }
    }

    /// Feed in the watermark fetch's outcome.  On success the starting
    /// offsets are resolved and the seed commits begin (or, with no
    /// partitions, polling begins at once); on failure the session
    /// fails with the underlying error.
    pub fn on_watermarks(&mut self, result: Result<Vec<PartitionOffsetPoint>, BrokerError>)
        requires
            wf(old(self)@),
            old(self)@.phase is Resolving,
            result matches Ok(w) ==> forall|i: int| 0 <= i < w@.len() ==> w@[i].offset >= 0,
        ensures
            wf(final(self)@),
            match result {
                Ok(w) => final(self)@ == (SessionView {
                    phase: if resolved_targets(old(self)@.policy, w@).len() == 0 {
                        SessionPhase::Polling
                    } else {
                        SessionPhase::Committing
                    },
                    targets: resolved_targets(old(self)@.policy, w@),
                    commits_applied: 0,
                    ..old(self)@
                }),
                Err(e) => final(self)@ == (SessionView {
                    phase: SessionPhase::Failed,
                    error: Some(e),
                    ..old(self)@
                }),
            },
    {
        match result {
            Ok(watermarks) => {
                let targets = resolve(self.policy, &watermarks);
                self.commits_applied = 0;
                self.phase = if targets.len() == 0 {
                    SessionPhase::Polling
                } else {
                    SessionPhase::Committing
                };
                self.targets = targets;
            },
            Err(e) => {
                self.phase = SessionPhase::Failed;
                self.error = Some(e);
            },
        }
    }

    /// Feed in the outcome of one seed commit.  Commits are applied one
    /// partition at a time; once the last one succeeds, polling begins.
    /// A failure aborts the pull; seed commits already applied are not
    /// rolled back (a known limitation, the work group is transient).
    pub fn on_seed_commit(&mut self, result: Result<(), BrokerError>)
        requires
            wf(old(self)@),
            old(self)@.phase is Committing,
        ensures
            wf(final(self)@),
            match result {
                Ok(()) => final(self)@ == (SessionView {
                    phase: if old(self)@.commits_applied + 1 == old(self)@.targets.len() {
                        SessionPhase::Polling
                    } else {
                        SessionPhase::Committing
                    },
                    commits_applied: old(self)@.commits_applied + 1,
                    ..old(self)@
                }),
                Err(e) => final(self)@ == (SessionView {
                    phase: SessionPhase::Failed,
                    error: Some(e),
                    ..old(self)@
                }),
            },
    {
        match result {
            Ok(()) => {
                let total = self.targets.len();
                self.commits_applied = self.commits_applied + 1;
                self.phase = if self.commits_applied == total {
                    SessionPhase::Polling
                } else {
                    SessionPhase::Committing
                };
            },
            Err(e) => {
                self.phase = SessionPhase::Failed;
                self.error = Some(e);
            },
        }
    }

    /// Feed in one polled batch.  An empty batch means the topic is
    /// exhausted and ends the session at once.  A non-empty batch is
    /// accumulated whole, even past the target count, so the consumed
    /// position matches what was actually read; reaching the target
    /// moves the session on to the progress checkpoint.  A poll failure
    /// fails the session.
    pub fn on_batch(&mut self, result: Result<Vec<FetchedRecord>, BrokerError>)
        requires
            wf(old(self)@),
            old(self)@.phase is Polling,
        ensures
            wf(final(self)@),
            match result {
                Ok(batch) => final(self)@ == (SessionView {
                    phase: if batch@.len() == 0 {
                        SessionPhase::Done
                    } else if old(self)@.records.len() + batch@.len() >= old(
                        self,
                    )@.target_count {
                        SessionPhase::Checkpointing
                    } else {
                        SessionPhase::Polling
                    },
                    records: old(self)@.records + batch@,
                    polled: old(self)@.polled.push(batch@),
                    ..old(self)@
                }),
                Err(e) => final(self)@ == (SessionView {
                    phase: SessionPhase::Failed,
                    error: Some(e),
                    ..old(self)@
                }),
            },
    {
        match result {
            Ok(mut batch) => {
                let ghost b: Seq<FetchedRecord> = batch@;
                let ghost previous: Seq<Seq<FetchedRecord>> = self.polled@;
                proof {
                    previous.lemma_flatten_push(b);
                }
                let batch_len = batch.len();
                self.records.append(&mut batch);
                self.polled = Ghost(previous.push(b));
                self.phase = if batch_len == 0 {
                    SessionPhase::Done
                } else if self.records.len() >= self.target_count {
                    SessionPhase::Checkpointing
                } else {
                    SessionPhase::Polling
                };
                proof {
                    if b.len() == 0 {
                        assert(self@.records =~= previous.flatten());
                    }
                }
            },
            Err(e) => {
                self.phase = SessionPhase::Failed;
                self.error = Some(e);
            },
        }
    }

    /// Feed in the progress checkpoint's outcome: success finishes the
    /// session, failure fails it.
    pub fn on_checkpoint(&mut self, result: Result<(), BrokerError>)
        requires
            wf(old(self)@),
            old(self)@.phase is Checkpointing,
        ensures
            wf(final(self)@),
            match result {
                Ok(()) => final(self)@ == (SessionView {
                    phase: SessionPhase::Done,
                    ..old(self)@
                }),
                Err(e) => final(self)@ == (SessionView {
                    phase: SessionPhase::Failed,
                    error: Some(e),
                    ..old(self)@
                }),
            },
    {
        match result {
            Ok(()) => {
                self.phase = SessionPhase::Done;
            },
            Err(e) => {
                self.phase = SessionPhase::Failed;
                self.error = Some(e);
            },
        }
    }

    /// The stage the session is in.
    pub fn phase(&self) -> (p: SessionPhase)
        ensures
            p == self@.phase,
    {
        self.phase
    }

    /// The records accumulated so far, in gateway delivery order.
    pub fn records(&self) -> (r: &Vec<FetchedRecord>)
        ensures
            r@ == self@.records,
    {
        &self.records
    }

    /// How many records were actually retrieved; may be fewer than the
    /// target when the topic was exhausted.
    pub fn retrieved_count(&self) -> (n: usize)
        ensures
            n as int == self@.records.len(),
    {
        self.records.len()
    }

    /// The error a failed session holds.
    pub fn error(&self) -> (e: Option<&BrokerError>)
        ensures
            e is Some <==> self@.error is Some,
            e matches Some(err) ==> *err == self@.error->0,
    {
        self.error.as_ref()
    }

    /// Whether the session has finished, successfully or not.
    pub fn is_terminal(&self) -> (r: bool)
        ensures
            r == (self@.phase is Done || self@.phase is Failed),
    {
        match self.phase {
            SessionPhase::Done => true,
            SessionPhase::Failed => true,
            _ => false,
        }
    }

    /// Surrender the accumulated records.
    pub fn into_records(self) -> (r: Vec<FetchedRecord>)
        ensures
            r@ == self@.records,
    {
        self.records
    }
}

/// A well-formed session holds exactly the records of its polled
/// batches laid end to end: it can never accumulate more records than
/// exist in the union of the batches the broker returned.
pub proof fn lemma_accumulation_bounded_by_polls(v: SessionView)
    requires
        wf(v),
    ensures
        v.records == v.polled.flatten(),
        v.records.len() <= v.polled.flatten().len(),
{
}

/// A terminal session demands no further broker round-trip.  Together
/// with `on_batch`'s contract (an empty batch makes the session Done)
/// this bounds the poll loop: as soon as the broker returns an empty
/// batch, no poll is ever asked for again.
pub proof fn lemma_terminal_session_demands_nothing(v: SessionView)
    requires
        v.phase is Done || v.phase is Failed,
    ensures
        spec_next_action(v) is None,
{
}

} // verus!
