use kafka_tool_core::publish::PublishSession;
use kafka_tool_core::types::BrokerError;
use kafka_tool_core::types::FetchedRecord;
use kafka_tool_core::workspace::Workspace;

fn record(offset: i64) -> FetchedRecord {
    FetchedRecord { offset, key: "k".to_owned(), value: "v".to_owned() }
}

#[test]
fn producer_is_created_lazily_once_per_profile() {
    let mut session = PublishSession::new("profile-1".to_owned());
    assert!(session.needs_producer());
    session.note_producer_bound();
    assert!(!session.needs_producer());
    // Re-selecting the same profile keeps the producer.
    session.select_profile("profile-1".to_owned());
    assert!(!session.needs_producer());
    // Selecting another profile discards it.
    session.select_profile("profile-2".to_owned());
    assert!(session.needs_producer());
}

#[test]
fn successful_send_clears_the_pending_message() {
    let mut session = PublishSession::new("profile-1".to_owned());
    session.set_pending("hello".to_owned());
    session.note_producer_bound();
    session.on_send_result(Ok(()));
    assert_eq!(session.pending_value().as_str(), "");
    assert!(session.last_error().is_none());
}

#[test]
fn failed_send_preserves_message_and_producer() {
    // A broker timeout surfaces the error, keeps the pending text for a
    // retry without retyping, and retains the producer handle.
    let mut session = PublishSession::new("profile-1".to_owned());
    session.set_pending("important payload".to_owned());
    session.note_producer_bound();
    session.on_send_result(Err(BrokerError::Publish("broker timeout".to_owned())));
    assert_eq!(session.pending_value().as_str(), "important payload");
    assert_eq!(session.last_error().map(|e| e.as_str()), Some("broker timeout"));
    assert!(!session.needs_producer());
}

#[test]
fn send_after_failure_can_succeed_and_clear_the_error() {
    let mut session = PublishSession::new("profile-1".to_owned());
    session.set_pending("payload".to_owned());
    session.note_producer_bound();
    session.on_send_result(Err(BrokerError::Publish("broker timeout".to_owned())));
    session.on_send_result(Ok(()));
    assert_eq!(session.pending_value().as_str(), "");
    assert!(session.last_error().is_none());
}

#[test]
fn switching_topic_discards_prior_records() {
    let mut workspace = Workspace::new();
    workspace.select_topic("profile-1".to_owned(), "orders".to_owned());
    workspace.store_records(vec![record(0), record(1)]);
    assert_eq!(workspace.records().len(), 2);
    // A new topic under the same profile: records are gone before any
    // poll for the new topic can run.
    workspace.select_topic("profile-1".to_owned(), "payments".to_owned());
    assert_eq!(workspace.records().len(), 0);
    assert_eq!(workspace.topic().as_str(), "payments");
}

#[test]
fn reselecting_the_same_topic_keeps_records() {
    let mut workspace = Workspace::new();
    workspace.select_topic("profile-1".to_owned(), "orders".to_owned());
    workspace.store_records(vec![record(0)]);
    workspace.select_topic("profile-1".to_owned(), "orders".to_owned());
    assert_eq!(workspace.records().len(), 1);
}

#[test]
fn switching_profile_discards_records_and_producer() {
    let mut workspace = Workspace::new();
    workspace.select_topic("profile-1".to_owned(), "orders".to_owned());
    workspace.store_records(vec![record(0)]);
    workspace.note_producer_bound();
    workspace.select_topic("profile-2".to_owned(), "orders".to_owned());
    assert_eq!(workspace.records().len(), 0);
    assert!(!workspace.producer_bound());
    assert_eq!(workspace.profile_id().as_str(), "profile-2");
}
