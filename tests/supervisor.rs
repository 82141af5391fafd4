use wasol_consumer::dispatch::classify_outgoing;
use wasol_consumer::supervisor::{
    connect_step, consumer_step, group_outcome, ConnectAction, ConnectEvent, ConnectState, queue_branch, queue_names, ConsumerAction, ConsumerEvent, ConsumerState, FatalError,
    GroupAction, QueueBranch,
};

#[test]
fn queues_map_to_branches() {
    assert_eq!(queue_branch("outgoing_requests"), Some(QueueBranch::Outgoing));
    assert_eq!(queue_branch("incoming_requests"), Some(QueueBranch::Incoming));
    assert_eq!(queue_branch("evolution.messages.upsert"), Some(QueueBranch::Incoming));
    assert_eq!(queue_branch("evolution.send.message"), Some(QueueBranch::Incoming));
    assert_eq!(queue_branch("other"), None);
    assert_eq!(queue_names().len(), 4);
    for name in queue_names() {
        assert!(queue_branch(name).is_some());
    }
}

#[test]
fn connection_failures_are_retried_after_five_seconds() {
    let (s, a) = consumer_step(ConsumerState::Connecting, QueueBranch::Incoming, ConsumerEvent::ConnectFailed);
    assert_eq!(s, ConsumerState::Connecting);
    assert_eq!(a, ConsumerAction::RetryAfter(5));
    let (s, a) = consumer_step(s, QueueBranch::Incoming, ConsumerEvent::Connected);
    assert_eq!(s, ConsumerState::Consuming);
    assert_eq!(a, ConsumerAction::AwaitDelivery);
}

#[test]
fn stream_end_and_error_are_fatal_and_shutdown_is_success() {
    let c = ConsumerState::Consuming;
    let b = QueueBranch::Outgoing;
    assert_eq!(consumer_step(c, b, ConsumerEvent::StreamFailed), (ConsumerState::Finished, ConsumerAction::Fail(FatalError::StreamFailed)));
    assert_eq!(consumer_step(c, b, ConsumerEvent::StreamClosed), (ConsumerState::Finished, ConsumerAction::Fail(FatalError::StreamClosed)));
    assert_eq!(consumer_step(c, b, ConsumerEvent::ShutdownRequested), (ConsumerState::Finished, ConsumerAction::Finish));
    assert_eq!(consumer_step(ConsumerState::Finished, b, ConsumerEvent::Delivered), (ConsumerState::Finished, ConsumerAction::Ignore));
}

#[test]
fn malformed_outgoing_delivery_is_acknowledged_and_writes_nothing() {
    let branch = queue_branch("outgoing_requests").unwrap_or_else(|| panic!("queue not consumed"));
    let (state, action) = consumer_step(ConsumerState::Consuming, branch, ConsumerEvent::Delivered);
    assert_eq!(state, ConsumerState::Consuming);
    assert_eq!(action, ConsumerAction::SpawnThenAck(QueueBranch::Outgoing));
    assert_eq!(classify_outgoing(b"{\"id\": 1, oops"), None);
}

#[test]
fn any_failed_consumer_restarts_the_group() {
    assert_eq!(group_outcome(&vec![Ok(()), Err(FatalError::StreamClosed), Ok(())]), GroupAction::RestartAfter(5));
    assert_eq!(group_outcome(&vec![Ok(()), Ok(()), Ok(()), Ok(())]), GroupAction::Exit);
    assert_eq!(group_outcome(&vec![]), GroupAction::Exit);
}

#[test]
fn stores_are_retried_every_thirty_seconds() {
    assert_eq!(connect_step(ConnectState::Cache, ConnectEvent::Failed), (ConnectState::Cache, ConnectAction::RetryAfter(30)));
    assert_eq!(connect_step(ConnectState::Cache, ConnectEvent::Connected), (ConnectState::Store, ConnectAction::ConnectStore));
    assert_eq!(connect_step(ConnectState::Store, ConnectEvent::Failed), (ConnectState::Store, ConnectAction::RetryAfter(30)));
    assert_eq!(connect_step(ConnectState::Store, ConnectEvent::Connected), (ConnectState::Ready, ConnectAction::StartConsumers));
}
