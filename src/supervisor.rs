//! The queue supervisor's decisions. One consumer runs per queue; the caller
//! performs each action and reports what happened as the next event.
use vstd::prelude::*;
use crate::text::same_text;

verus! {

/// Seconds to wait before connecting again after a failed connection.
pub const RECONNECT_DELAY_SECS: u64 = 5;

/// Seconds to wait before restarting every consumer after one has failed.
pub const GROUP_RESTART_DELAY_SECS: u64 = 5;

/// Seconds to wait before reaching the cache or the relational store again.
pub const STORE_RETRY_DELAY_SECS: u64 = 30;

/// Deliveries the broker hands a consumer before it acknowledges one.
pub const PREFETCH_COUNT: u16 = 1;

/// The two ways a payload is processed.
#[derive(Debug, Clone, Copy, PartialEq, Eq, Structural)]
pub enum QueueBranch {
    /// Commands to classify and route to the store or an HTTP endpoint.
    Outgoing,
    /// Webhook payloads to normalize into the cache.
    Incoming,
}

/// The branch of each queue the hub consumes.
pub open spec fn branch_of(name: Seq<char>) -> Option<QueueBranch> {
    if name == "outgoing_requests"@ {
        Some(QueueBranch::Outgoing)
    } else if name == "incoming_requests"@ || name == "evolution.messages.upsert"@ || name
        == "evolution.send.message"@ {
        Some(QueueBranch::Incoming)
    } else {
        None
    }
}

/// The branch that processes the payloads of a queue; none for a queue the
/// hub does not consume.
pub fn queue_branch(name: &str) -> (r: Option<QueueBranch>)
    ensures
        r == branch_of(name@),
{
    if same_text(name, "outgoing_requests") {
        Some(QueueBranch::Outgoing)
    } else if same_text(name, "incoming_requests") || same_text(name, "evolution.messages.upsert")
        || same_text(name, "evolution.send.message") {
        Some(QueueBranch::Incoming)
    } else {
        None
    }
}

/// The names of the queues the hub consumes, each with a branch.
pub fn queue_names() -> (r: Vec<&'static str>)
    ensures
        r@.len() == 4,
        r@[0]@ == "outgoing_requests"@,
        r@[1]@ == "incoming_requests"@,
        r@[2]@ == "evolution.messages.upsert"@,
        r@[3]@ == "evolution.send.message"@,
        forall|i: int| 0 <= i < r@.len() ==> branch_of(#[trigger] r@[i]@) is Some,
{
    vec!["outgoing_requests", "incoming_requests", "evolution.messages.upsert", "evolution.send.message"]
}

/// Where one consumer stands.
#[derive(Debug, Clone, Copy, PartialEq, Eq, Structural)]
pub enum ConsumerState {
    /// Connecting to the broker and setting up the consumer.
    Connecting,
    /// Waiting for the next delivery or for the shutdown signal.
    Consuming,
    /// The consumer has returned.
    Finished,
}

/// What happened, as the caller reports it.
#[derive(Debug, Clone, Copy, PartialEq, Eq, Structural)]
pub enum ConsumerEvent {
    /// Connecting or setting up the consumer failed.
    ConnectFailed,
    /// The consumer is set up.
    Connected,
    /// A delivery arrived.
    Delivered,
    /// The delivery stream reported an error.
    StreamFailed,
    /// The delivery stream ended.
    StreamClosed,
    /// The process was asked to shut down.
    ShutdownRequested,
}

/// Why a consumer gave up.
#[derive(Debug, Clone, Copy, PartialEq, Eq, Structural)]
pub enum FatalError {
    StreamFailed,
    StreamClosed,
}

/// What the caller does next.
#[derive(Debug, Clone, Copy, PartialEq, Eq, Structural)]
pub enum ConsumerAction {
    /// Wait this many seconds, then connect again.
    RetryAfter(u64),
    /// Wait for the next delivery, racing the shutdown signal.
    AwaitDelivery,
    /// Start the processing of a copy of the payload on this branch, detached,
    /// then acknowledge the delivery at once (whatever the processing does
    /// later), then wait for the next delivery.
    SpawnThenAck(QueueBranch),
    /// Return from the consumer with success.
    Finish,
    /// Return from the consumer with this fatal error.
    Fail(FatalError),
    /// Nothing: the event does not concern this state.
    Ignore,
}

/// The consumer's transitions: connection failures are retried without limit
/// after a fixed delay; each delivery is handed off and acknowledged; an error
/// or the end of the stream returns a fatal error; the shutdown signal while
/// consuming returns success.
pub open spec fn consumer_next(s: ConsumerState, b: QueueBranch, e: ConsumerEvent) -> (ConsumerState, ConsumerAction) {
    match (s, e) {
        (ConsumerState::Connecting, ConsumerEvent::ConnectFailed) => (ConsumerState::Connecting, ConsumerAction::RetryAfter(RECONNECT_DELAY_SECS)),
        (ConsumerState::Connecting, ConsumerEvent::Connected) => (ConsumerState::Consuming, ConsumerAction::AwaitDelivery),
        (ConsumerState::Consuming, ConsumerEvent::Delivered) => (ConsumerState::Consuming, ConsumerAction::SpawnThenAck(b)),
        (ConsumerState::Consuming, ConsumerEvent::StreamFailed) => (ConsumerState::Finished, ConsumerAction::Fail(FatalError::StreamFailed)),
        (ConsumerState::Consuming, ConsumerEvent::StreamClosed) => (ConsumerState::Finished, ConsumerAction::Fail(FatalError::StreamClosed)),
        (ConsumerState::Consuming, ConsumerEvent::ShutdownRequested) => (ConsumerState::Finished, ConsumerAction::Finish),
        _ => (s, ConsumerAction::Ignore),
    }
}

/// One step of the consumer of a queue of branch `branch`.
pub fn consumer_step(state: ConsumerState, branch: QueueBranch, event: ConsumerEvent) -> (r: (ConsumerState, ConsumerAction))
    ensures
        r == consumer_next(state, branch, event),
{
    match (state, event) {
        (ConsumerState::Connecting, ConsumerEvent::ConnectFailed) => (ConsumerState::Connecting, ConsumerAction::RetryAfter(RECONNECT_DELAY_SECS)),
        (ConsumerState::Connecting, ConsumerEvent::Connected) => (ConsumerState::Consuming, ConsumerAction::AwaitDelivery),
        (ConsumerState::Consuming, ConsumerEvent::Delivered) => (ConsumerState::Consuming, ConsumerAction::SpawnThenAck(branch)),
        (ConsumerState::Consuming, ConsumerEvent::StreamFailed) => (ConsumerState::Finished, ConsumerAction::Fail(FatalError::StreamFailed)),
        (ConsumerState::Consuming, ConsumerEvent::StreamClosed) => (ConsumerState::Finished, ConsumerAction::Fail(FatalError::StreamClosed)),
        (ConsumerState::Consuming, ConsumerEvent::ShutdownRequested) => (ConsumerState::Finished, ConsumerAction::Finish),
        _ => (state, ConsumerAction::Ignore),
    }
}

/// What the process does once its consumers have returned.
#[derive(Debug, Clone, Copy, PartialEq, Eq, Structural)]
pub enum GroupAction {
    /// Reconnect the stores and restart every consumer after this many seconds.
    RestartAfter(u64),
    /// Shut down.
    Exit,
}

/// After the consumers of the group: restart them all when any failed, else
/// shut down.
pub fn group_outcome(outcomes: &Vec<Result<(), FatalError>>) -> (r: GroupAction)
    ensures
        (exists|i: int| 0 <= i < outcomes@.len() && outcomes@[i] is Err) ==> r == GroupAction::RestartAfter(GROUP_RESTART_DELAY_SECS),
        (forall|i: int| 0 <= i < outcomes@.len() ==> outcomes@[i] is Ok) ==> r == GroupAction::Exit,
{
    let mut i: usize = 0;
    while i < outcomes.len()
        invariant
            i <= outcomes@.len(),
            forall|j: int| 0 <= j < i ==> outcomes@[j] is Ok,
        decreases outcomes@.len() - i,
    {
        if outcomes[i].is_err() {
            return GroupAction::RestartAfter(GROUP_RESTART_DELAY_SECS);
        }
        i += 1;
    }
    GroupAction::Exit
}

/// Which connection the process is making before it starts its consumers.
#[derive(Debug, Clone, Copy, PartialEq, Eq, Structural)]
pub enum ConnectState {
    /// Connecting to the cache.
    Cache,
    /// Connecting to the relational store (the cache is connected).
    Store,
    /// Both are connected.
    Ready,
}

/// The outcome of one connection attempt.
#[derive(Debug, Clone, Copy, PartialEq, Eq, Structural)]
pub enum ConnectEvent {
    Connected,
    Failed,
}

/// What the process does next while connecting.
#[derive(Debug, Clone, Copy, PartialEq, Eq, Structural)]
pub enum ConnectAction {
    /// Connect to the relational store.
    ConnectStore,
    /// Wait this many seconds, then try the same connection again.
    RetryAfter(u64),
    /// Start every consumer with the two connections.
    StartConsumers,
}

/// The connection steps of each (re)start: the cache, then the relational
/// store, each retried without limit after a fixed delay; once both are
/// connected, the consumers start.
pub open spec fn connect_next(s: ConnectState, e: ConnectEvent) -> (ConnectState, ConnectAction) {
    match (s, e) {
        (ConnectState::Cache, ConnectEvent::Connected) => (ConnectState::Store, ConnectAction::ConnectStore),
        (ConnectState::Cache, ConnectEvent::Failed) => (ConnectState::Cache, ConnectAction::RetryAfter(STORE_RETRY_DELAY_SECS)),
        (ConnectState::Store, ConnectEvent::Connected) => (ConnectState::Ready, ConnectAction::StartConsumers),
        (ConnectState::Store, ConnectEvent::Failed) => (ConnectState::Store, ConnectAction::RetryAfter(STORE_RETRY_DELAY_SECS)),
        (ConnectState::Ready, _) => (ConnectState::Ready, ConnectAction::StartConsumers),
    }
}

/// One connection step of a (re)start.
pub fn connect_step(state: ConnectState, event: ConnectEvent) -> (r: (ConnectState, ConnectAction))
    ensures
        r == connect_next(state, event),
{
    match (state, event) {
        (ConnectState::Cache, ConnectEvent::Connected) => (ConnectState::Store, ConnectAction::ConnectStore),
        (ConnectState::Cache, ConnectEvent::Failed) => (ConnectState::Cache, ConnectAction::RetryAfter(STORE_RETRY_DELAY_SECS)),
        (ConnectState::Store, ConnectEvent::Connected) => (ConnectState::Ready, ConnectAction::StartConsumers),
        (ConnectState::Store, ConnectEvent::Failed) => (ConnectState::Store, ConnectAction::RetryAfter(STORE_RETRY_DELAY_SECS)),
        (ConnectState::Ready, _) => (ConnectState::Ready, ConnectAction::StartConsumers),
    }
}

/// Every delivery a consuming consumer receives is acknowledged, whatever
/// becomes of its processing, and the consumer goes on consuming.
pub proof fn lemma_delivery_always_acknowledged(b: QueueBranch)
    ensures
        consumer_next(ConsumerState::Consuming, b, ConsumerEvent::Delivered) == (
            ConsumerState::Consuming,
            ConsumerAction::SpawnThenAck(b),
        ),
{
}

} // verus!
