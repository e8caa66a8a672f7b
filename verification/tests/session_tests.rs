use kafka_tool_core::session::ConsumeSession;
use kafka_tool_core::session::GatewayAction;
use kafka_tool_core::session::SessionPhase;
use kafka_tool_core::types::BrokerError;
use kafka_tool_core::types::ConsumeRequest;
use kafka_tool_core::types::FetchedRecord;
use kafka_tool_core::types::PartitionOffsetPoint;
use kafka_tool_core::types::StartPolicy;
use kafka_tool_core::types::WatermarkKind;

fn point(partition: i32, offset: i64) -> PartitionOffsetPoint {
    PartitionOffsetPoint { partition, offset }
}

fn record(offset: i64) -> FetchedRecord {
    FetchedRecord { offset, key: "k".to_owned(), value: "v".to_owned() }
}

fn started(policy: StartPolicy, target_count: usize) -> ConsumeSession {
    let mut session = ConsumeSession::new(ConsumeRequest {
        topic: "events".to_owned(),
        start_policy: policy,
        target_count,
    });
    assert_eq!(session.phase(), SessionPhase::Idle);
    session.start();
    session
}

#[test]
fn earliest_single_partition_pull_of_ten() {
    // 1 partition, watermarks low=0/high=100, Earliest, target 10.
    let mut session = started(StartPolicy::Earliest, 10);
    assert_eq!(
        session.next_action(),
        Some(GatewayAction::FetchWatermarks(WatermarkKind::Earliest))
    );
    session.on_watermarks(Ok(vec![point(0, 0)]));
    // The session seeds the work group at offset 0.
    assert_eq!(session.phase(), SessionPhase::Committing);
    assert_eq!(session.next_action(), Some(GatewayAction::CommitSeedOffset(point(0, 0))));
    session.on_seed_commit(Ok(()));
    assert_eq!(session.phase(), SessionPhase::Polling);
    assert_eq!(session.next_action(), Some(GatewayAction::Poll));
    // Polls until 10 records are accumulated.
    session.on_batch(Ok((0..4).map(record).collect()));
    assert_eq!(session.phase(), SessionPhase::Polling);
    session.on_batch(Ok((4..10).map(record).collect()));
    assert_eq!(session.phase(), SessionPhase::Checkpointing);
    assert_eq!(session.next_action(), Some(GatewayAction::CommitProgress));
    session.on_checkpoint(Ok(()));
    assert_eq!(session.phase(), SessionPhase::Done);
    assert_eq!(session.next_action(), None);
    // Done with exactly 10 records, offsets 0..9.
    assert_eq!(session.retrieved_count(), 10);
    let offsets: Vec<i64> = session.records().iter().map(|r| r.offset).collect();
    assert_eq!(offsets, (0..10).collect::<Vec<i64>>());
}

#[test]
fn latest_minus_n_two_partitions_exhausts_early() {
    // 2 partitions, high=[50,70], LatestMinusN(20), target 1000:
    // per-partition back = 10, commit targets [40, 60].
    let mut session = started(StartPolicy::LatestMinusN(20), 1000);
    assert_eq!(
        session.next_action(),
        Some(GatewayAction::FetchWatermarks(WatermarkKind::Latest))
    );
    session.on_watermarks(Ok(vec![point(0, 50), point(1, 70)]));
    assert_eq!(session.next_action(), Some(GatewayAction::CommitSeedOffset(point(0, 40))));
    session.on_seed_commit(Ok(()));
    assert_eq!(session.next_action(), Some(GatewayAction::CommitSeedOffset(point(1, 60))));
    session.on_seed_commit(Ok(()));
    assert_eq!(session.phase(), SessionPhase::Polling);
    // Both partitions exhaust after 20 records: an empty poll ends the
    // session as Done, not as an error.
    session.on_batch(Ok((40..50).map(record).collect()));
    session.on_batch(Ok((60..70).map(record).collect()));
    assert_eq!(session.phase(), SessionPhase::Polling);
    session.on_batch(Ok(Vec::new()));
    assert_eq!(session.phase(), SessionPhase::Done);
    assert!(session.retrieved_count() < 1000);
    assert_eq!(session.retrieved_count(), 20);
    assert!(session.error().is_none());
}

#[test]
fn empty_first_poll_ends_immediately() {
    let mut session = started(StartPolicy::Earliest, 5);
    session.on_watermarks(Ok(vec![point(0, 0)]));
    session.on_seed_commit(Ok(()));
    session.on_batch(Ok(Vec::new()));
    assert_eq!(session.phase(), SessionPhase::Done);
    assert_eq!(session.retrieved_count(), 0);
}

#[test]
fn records_past_target_are_kept_whole() {
    // A batch that overshoots the target is accumulated whole: no
    // sub-batch truncation, so bookkeeping matches what was read.
    let mut session = started(StartPolicy::Earliest, 2);
    session.on_watermarks(Ok(vec![point(0, 0)]));
    session.on_seed_commit(Ok(()));
    session.on_batch(Ok((0..5).map(record).collect()));
    assert_eq!(session.phase(), SessionPhase::Checkpointing);
    session.on_checkpoint(Ok(()));
    assert_eq!(session.retrieved_count(), 5);
}

#[test]
fn accumulation_never_exceeds_union_of_batches() {
    let mut session = started(StartPolicy::Earliest, 100);
    session.on_watermarks(Ok(vec![point(0, 0)]));
    session.on_seed_commit(Ok(()));
    let mut union_len = 0usize;
    for size in [3i64, 0, 0] {
        if session.is_terminal() {
            break;
        }
        union_len += size as usize;
        session.on_batch(Ok((0..size).map(record).collect()));
        assert!(session.retrieved_count() <= union_len);
    }
    assert!(session.is_terminal());
}

#[test]
fn no_partitions_skips_seed_commits() {
    let mut session = started(StartPolicy::Earliest, 3);
    session.on_watermarks(Ok(Vec::new()));
    assert_eq!(session.phase(), SessionPhase::Polling);
}

#[test]
fn watermark_failure_fails_the_session() {
    let mut session = started(StartPolicy::Earliest, 3);
    session.on_watermarks(Err(BrokerError::Metadata("topic metadata not loaded".to_owned())));
    assert_eq!(session.phase(), SessionPhase::Failed);
    assert_eq!(session.next_action(), None);
    let error = session.error().expect("a failed session holds its error");
    assert_eq!(error.message().as_str(), "topic metadata not loaded");
}

#[test]
fn seed_commit_failure_fails_the_session() {
    let mut session = started(StartPolicy::Earliest, 3);
    session.on_watermarks(Ok(vec![point(0, 0), point(1, 4)]));
    session.on_seed_commit(Ok(()));
    session.on_seed_commit(Err(BrokerError::Commit("offset commit rejected".to_owned())));
    assert_eq!(session.phase(), SessionPhase::Failed);
    assert_eq!(session.error().expect("error kept").message().as_str(), "offset commit rejected");
}

#[test]
fn poll_failure_fails_the_session() {
    let mut session = started(StartPolicy::Earliest, 3);
    session.on_watermarks(Ok(vec![point(0, 0)]));
    session.on_seed_commit(Ok(()));
    session.on_batch(Err(BrokerError::Poll("fetch failed".to_owned())));
    assert_eq!(session.phase(), SessionPhase::Failed);
}

#[test]
fn checkpoint_failure_fails_the_session() {
    let mut session = started(StartPolicy::Earliest, 1);
    session.on_watermarks(Ok(vec![point(0, 0)]));
    session.on_seed_commit(Ok(()));
    session.on_batch(Ok(vec![record(0)]));
    assert_eq!(session.phase(), SessionPhase::Checkpointing);
    session.on_checkpoint(Err(BrokerError::Commit("progress commit rejected".to_owned())));
    assert_eq!(session.phase(), SessionPhase::Failed);
}

#[test]
fn into_records_surrenders_the_accumulation() {
    let mut session = started(StartPolicy::Earliest, 2);
    session.on_watermarks(Ok(vec![point(0, 0)]));
    session.on_seed_commit(Ok(()));
    session.on_batch(Ok(vec![record(7), record(8)]));
    session.on_checkpoint(Ok(()));
    let records = session.into_records();
    assert_eq!(records.len(), 2);
    assert_eq!(records[0].offset, 7);
    assert_eq!(records[1].offset, 8);
}

#[test]
fn connect_error_message_is_surfaced() {
    let error = BrokerError::Connect("all brokers unreachable".to_owned());
    assert_eq!(error.message().as_str(), "all brokers unreachable");
    let error = BrokerError::Fetch("watermark fetch failed".to_owned());
    assert_eq!(error.message().as_str(), "watermark fetch failed");
    let error = BrokerError::Publish("broker timeout".to_owned());
    assert_eq!(error.message().as_str(), "broker timeout");
}
