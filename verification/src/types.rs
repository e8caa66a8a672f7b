//! Plain data carried between the broker gateway and the core logic.

use vstd::prelude::*;

verus! {

/// A watermark or commit target for one partition of one topic.
#[derive(Clone, Copy, PartialEq, Eq, Structural, Debug)]
pub struct PartitionOffsetPoint {
    pub partition: i32,
    pub offset: i64,
}

/// One record pulled from the broker.
#[derive(Clone, Debug)]
pub struct FetchedRecord {
    pub offset: i64,
    pub key: String,
    pub value: String,
}

/// Where a bounded pull starts: at the low watermark, or `n` records
/// before the high watermark, split evenly across partitions.
#[derive(Clone, Copy, PartialEq, Eq, Structural, Debug)]
pub enum StartPolicy {
    Earliest,
    LatestMinusN(u64),
}

/// Which watermark a `fetch_watermarks` round-trip asks the broker for.
#[derive(Clone, Copy, PartialEq, Eq, Structural, Debug)]
pub enum WatermarkKind {
    Earliest,
    Latest,
}

/// One bounded pull operation; immutable once issued.
#[derive(Clone, Debug)]
pub struct ConsumeRequest {
    pub topic: String,
    pub start_policy: StartPolicy,
    pub target_count: usize,
}

/// A manual commit of one consumer group's offset on one partition.
#[derive(Clone, Debug)]
pub struct CommitRequest {
    pub group_id: String,
    pub topic: String,
    pub partition: i32,
    pub target_offset: i64,
}

/// A broker round-trip that failed; the payload is the broker's own
/// message, surfaced verbatim for display.
#[derive(Clone, Debug)]
pub enum BrokerError {
    Connect(String),
    Metadata(String),
    Fetch(String),
    Commit(String),
    Poll(String),
    Publish(String),
}

/// Local rejection of a manual commit, found before any network call.
#[derive(Clone, Copy, PartialEq, Eq, Structural, Debug)]
pub enum OutOfRange {
    BelowLow,
    AboveHigh,
}

impl BrokerError {
    /// The broker's message, independent of which operation failed.
    pub fn message(&self) -> (r: &String)
        ensures
            r@ == self.text(),
    {
        match self {
            BrokerError::Connect(m) => m,
            BrokerError::Metadata(m) => m,
            BrokerError::Fetch(m) => m,
            BrokerError::Commit(m) => m,
            BrokerError::Poll(m) => m,
            BrokerError::Publish(m) => m,
        }
    }

    /// The message text an error carries.
    pub open spec fn text(&self) -> Seq<char> {
        match self {
            BrokerError::Connect(m) => m@,
            BrokerError::Metadata(m) => m@,
            BrokerError::Fetch(m) => m@,
            BrokerError::Commit(m) => m@,
            BrokerError::Poll(m) => m@,
            BrokerError::Publish(m) => m@,
        }
    }
}

} // verus!
