//! The operator's working state: which profile and topic are active,
//! and the records last retrieved for them.
//!
//! Connection-scoped state is invalidated explicitly: selecting another
//! profile drops the producer binding and the retrieved records;
//! selecting another topic drops the records.  Stale results never
//! survive a switch.

use vstd::prelude::*;

use crate::types::FetchedRecord;

verus! {

/// The active profile and topic, the records shown for them, and
/// whether a producer is bound to the active profile.
pub struct Workspace {
    profile_id: String,
    topic: String,
    records: Vec<FetchedRecord>,
    producer_bound: bool,
}

/// The mathematical state of a workspace.
pub ghost struct WorkspaceView {
    pub profile_id: Seq<char>,
    pub topic: Seq<char>,
    pub records: Seq<FetchedRecord>,
    pub producer_bound: bool,
}

impl View for Workspace {
    type V = WorkspaceView;

    closed spec fn view(&self) -> WorkspaceView {
        WorkspaceView {
            profile_id: self.profile_id@,
            topic: self.topic@,
            records: self.records@,
            producer_bound: self.producer_bound,
        }
    }
}

impl Workspace {
    /// An empty workspace: nothing selected, nothing retrieved.
    pub fn new() -> (w: Workspace)
        ensures
            w@.profile_id.len() == 0,
            w@.topic.len() == 0,
            w@.records.len() == 0,
            !w@.producer_bound,
    {
        Workspace {
            profile_id: String::new(),
            topic: String::new(),
            records: Vec::new(),
            producer_bound: false,
        }
    }

    /// Select a topic under a profile.  A change of profile discards
    /// the producer binding and the retrieved records; a change of
    /// topic discards the records; re-selecting the active pair keeps
    /// everything.  Discarding happens here, before any poll for the
    /// new selection can run, so no records leak across topics.
    pub fn select_topic(&mut self, profile_id: String, topic: String)
        ensures
            final(self)@.profile_id == profile_id@,
            final(self)@.topic == topic@,
            final(self)@.producer_bound == (old(self)@.producer_bound && profile_id@ == old(
                self,
            )@.profile_id),
            final(self)@.records == if profile_id@ == old(self)@.profile_id && topic@ == old(
                self,
            )@.topic {
                old(self)@.records
            } else {
                Seq::<FetchedRecord>::empty()
            },
    {
        if !self.profile_id.eq(&profile_id) {
            self.producer_bound = false;
            self.records = Vec::new();
        }
        if !self.topic.eq(&topic) {
            self.records = Vec::new();
        }
        self.profile_id = profile_id;
        self.topic = topic;
    }

    /// Store the records a finished consume session retrieved for the
    /// active topic.
    pub fn store_records(&mut self, records: Vec<FetchedRecord>)
        ensures
            final(self)@ == (WorkspaceView { records: records@, ..old(self)@ }),
    {
        self.records = records;
    }

    /// Record that a producer was created for the active profile.
    pub fn note_producer_bound(&mut self)
        ensures
            final(self)@ == (WorkspaceView { producer_bound: true, ..old(self)@ }),
    {
        self.producer_bound = true;
    }

    /// The records retrieved for the active selection.
    pub fn records(&self) -> (r: &Vec<FetchedRecord>)
        ensures
            r@ == self@.records,
    {
        &self.records
    }

    /// The active topic.
    pub fn topic(&self) -> (t: &String)
        ensures
            t@ == self@.topic,
    {
        &self.topic
    }

    /// The active profile.
    pub fn profile_id(&self) -> (p: &String)
        ensures
            p@ == self@.profile_id,
    {
        &self.profile_id
    }

    /// Whether a producer is bound to the active profile.
    pub fn producer_bound(&self) -> (b: bool)
        ensures
            b == self@.producer_bound,
    {
        self.producer_bound
    }
}

/// Switching the active topic discards the previously accumulated
/// records: whenever the selected pair differs from the active one, the
/// workspace holds no records afterwards, before any new poll runs.
pub proof fn lemma_switch_discards_records(
    before: WorkspaceView,
    after: WorkspaceView,
    profile_id: Seq<char>,
    topic: Seq<char>,
)
    requires
        after.profile_id == profile_id,
        after.topic == topic,
        after.records == if profile_id == before.profile_id && topic == before.topic {
            before.records
        } else {
            Seq::<FetchedRecord>::empty()
        },
        profile_id != before.profile_id || topic != before.topic,
    ensures
        after.records.len() == 0,
{
}

} // verus!
