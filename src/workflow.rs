//! The decisions of a watch session, from connecting to teardown, as a state
//! machine: each event that the session's driver observes yields the next
//! phase and the one action the driver performs next.

use vstd::prelude::*;
use vstd::string::StringExecFns;
use crate::status::{BAD_NOT_CONNECTED, status_code_text, status_text};

verus! {

/// The timing and priority of the subscription a session creates.
#[derive(Clone, Copy, Debug, PartialEq, Eq, Structural)]
pub struct SubscriptionParams {
    pub publishing_interval_ms: u32,
    pub lifetime_count: u32,
    pub max_keep_alive_count: u32,
    pub max_notifications_per_publish: u32,
    pub priority: u8,
    pub publishing_enabled: bool,
}

/// The subscription every session asks for: published each second, a
/// lifetime of ten intervals, a keep-alive after thirty, no limit on the
/// notifications per publish, default priority, publishing on.
pub fn subscription_params() -> (r: SubscriptionParams)
    ensures
        r == (SubscriptionParams {
            publishing_interval_ms: 1000,
            lifetime_count: 10,
            max_keep_alive_count: 30,
            max_notifications_per_publish: 0,
            priority: 0,
            publishing_enabled: true,
        }),
{
    SubscriptionParams {
        publishing_interval_ms: 1000,
        lifetime_count: 10,
        max_keep_alive_count: 30,
        max_notifications_per_publish: 0,
        priority: 0,
        publishing_enabled: true,
    }
}

/// Why a session's setup failed.
#[derive(Clone, Copy, Debug, PartialEq, Eq, Structural)]
pub enum WorkflowError {
    /// The endpoint could not be reached or the handshake failed.
    Connection,
    /// A request was made on a session that is not connected.
    NotConnected,
    /// The server refused the subscription.
    SubscriptionCreation { status: u32 },
    /// The server refused the whole batch of monitored items.
    MonitoredItems { status: u32 },
}

/// The sentence that reports a failure.
pub open spec fn error_message(e: WorkflowError) -> Seq<char> {
    match e {
        WorkflowError::Connection => "could not connect to the endpoint"@,
        WorkflowError::NotConnected => "the session is not connected"@,
        WorkflowError::SubscriptionCreation { status } => "the server refused the subscription: "@
            + status_text(status),
        WorkflowError::MonitoredItems { status } => "the server refused the monitored items: "@
            + status_text(status),
    }
}

/// Describes a failure in words, with the name of the status code the
/// server refused with.
pub fn describe_error(e: WorkflowError) -> (r: String)
    ensures
        r@ == error_message(e),
{
    match e {
        WorkflowError::Connection => String::from_str("could not connect to the endpoint"),
        WorkflowError::NotConnected => String::from_str("the session is not connected"),
        WorkflowError::SubscriptionCreation { status } => {
            let text = status_code_text(status);
            String::from_str("the server refused the subscription: ").concat(text.as_str())
        },
        WorkflowError::MonitoredItems { status } => {
            let text = status_code_text(status);
            String::from_str("the server refused the monitored items: ").concat(text.as_str())
        },
    }
}

/// Where a session stands.
#[derive(Clone, Copy, Debug, PartialEq, Eq, Structural)]
pub enum Phase {
    /// Nothing has been attempted yet.
    Idle,
    /// The connection to the endpoint is being opened.
    Connecting,
    /// Connected; waiting until the session is ready for requests.
    AwaitingConnection,
    /// The subscription has been requested.
    Subscribing,
    /// The monitored items of this subscription have been requested.
    CreatingItems { subscription_id: u32 },
    /// Notifications flow for this many items of this subscription.
    Monitoring { subscription_id: u32, active_items: usize },
    /// The session is being closed, after this failure if any.
    Disconnecting { failure: Option<WorkflowError> },
    /// The session is over, after this failure if any.
    Closed { failure: Option<WorkflowError> },
}

/// What the driver observed.
#[derive(Clone, Copy, Debug, PartialEq, Eq, Structural)]
pub enum Event {
    Start,
    Connected,
    ConnectFailed,
    ConnectionReady,
    SubscriptionCreated { subscription_id: u32 },
    SubscriptionFailed { status: u32 },
    ItemsCreated { created: usize },
    ItemsFailed { status: u32 },
    DisconnectRequested,
    Disconnected,
    EventLoopEnded,
}

/// What the driver does next.
#[derive(Clone, Copy, Debug, PartialEq, Eq, Structural)]
pub enum Action {
    /// Open the connection to the endpoint.
    Connect,
    /// Wait until the session is ready.
    WaitForConnection,
    /// Create the subscription with `subscription_params`.
    CreateSubscription,
    /// Create the monitored items of the topics under this subscription.
    CreateMonitoredItems { subscription_id: u32 },
    /// Wait until the session's event loop ends.
    AwaitEventLoop,
    /// Close the session.
    Disconnect,
    /// Report this failure, then close the session.
    Abort { error: WorkflowError },
    /// Stop, with this failure if any.
    Finish { failure: Option<WorkflowError> },
    /// Nothing to do.
    Nothing,
}

/// The error a refused request stands for.
pub open spec fn request_error(status: u32, otherwise: WorkflowError) -> WorkflowError {
    if status == BAD_NOT_CONNECTED {
        WorkflowError::NotConnected
    } else {
        otherwise
    }
}

/// Whether the session holds a connection that a disconnect must release.
pub open spec fn holds_session(p: Phase) -> bool {
    match p {
        Phase::AwaitingConnection | Phase::Subscribing | Phase::CreatingItems { .. } | Phase::Monitoring { .. } => true,
        _ => false,
    }
}

/// Whether an action is a request on the session for subscriptions or items.
pub open spec fn is_request(a: Action) -> bool {
    a is CreateSubscription || a is CreateMonitoredItems
}

/// The next phase and action after an event; an event that does not fit the
/// phase changes nothing.
pub open spec fn next(p: Phase, e: Event) -> (Phase, Action) {
    match (p, e) {
        (Phase::Idle, Event::Start) => (Phase::Connecting, Action::Connect),
        (Phase::Connecting, Event::Connected) => (Phase::AwaitingConnection, Action::WaitForConnection),
        (Phase::Connecting, Event::ConnectFailed) => (
            Phase::Closed { failure: Some(WorkflowError::Connection) },
            Action::Finish { failure: Some(WorkflowError::Connection) },
        ),
        (Phase::AwaitingConnection, Event::ConnectionReady) => (Phase::Subscribing, Action::CreateSubscription),
        (Phase::Subscribing, Event::SubscriptionCreated { subscription_id }) => (
            Phase::CreatingItems { subscription_id },
            Action::CreateMonitoredItems { subscription_id },
        ),
        (Phase::Subscribing, Event::SubscriptionFailed { status }) => {
            let err = request_error(status, WorkflowError::SubscriptionCreation { status });
            (Phase::Disconnecting { failure: Some(err) }, Action::Abort { error: err })
        },
        (Phase::CreatingItems { subscription_id }, Event::ItemsCreated { created }) => (
            Phase::Monitoring { subscription_id, active_items: created },
            Action::AwaitEventLoop,
        ),
        (Phase::CreatingItems { .. }, Event::ItemsFailed { status }) => {
            let err = request_error(status, WorkflowError::MonitoredItems { status });
            (Phase::Disconnecting { failure: Some(err) }, Action::Abort { error: err })
        },
        (Phase::Disconnecting { failure }, Event::Disconnected) => (Phase::Closed { failure }, Action::AwaitEventLoop),
        (Phase::Monitoring { .. }, Event::EventLoopEnded) => (Phase::Closed { failure: None }, Action::Finish { failure: None }),
        (Phase::Disconnecting { failure }, Event::EventLoopEnded) => (Phase::Closed { failure }, Action::Finish { failure }),
        (Phase::Closed { failure }, Event::EventLoopEnded) => (Phase::Closed { failure }, Action::Finish { failure }),
        (_, Event::DisconnectRequested) => if holds_session(p) {
            (Phase::Disconnecting { failure: None }, Action::Disconnect)
        } else {
            (p, Action::Nothing)
        },
        _ => (p, Action::Nothing),
    }
}

/// The error a refused request stands for: a session that is not connected,
/// or else `otherwise`.
pub fn classify_refusal(status: u32, otherwise: WorkflowError) -> (r: WorkflowError)
    ensures
        r == request_error(status, otherwise),
{
    if status == BAD_NOT_CONNECTED {
        WorkflowError::NotConnected
    } else {
        otherwise
    }
}

/// A watch session's decisions.
pub struct Workflow {
    pub phase: Phase,
}

impl Workflow {
    /// A session that has attempted nothing yet.
    pub fn new() -> (r: Workflow)
        ensures
            r.phase == Phase::Idle,
    {
        Workflow { phase: Phase::Idle }
    }

    /// Where the session stands.
    pub fn phase(&self) -> (r: Phase)
        ensures
            r == self.phase,
    {
        self.phase
    }

    /// Takes in an event and returns the action to perform next.
    pub fn step(&mut self, event: Event) -> (r: Action)
        ensures
            (final(self).phase, r) == next(old(self).phase, event),
    {
        let p = self.phase;
        let (np, action) = match (p, event) {
            (Phase::Idle, Event::Start) => (Phase::Connecting, Action::Connect),
            (Phase::Connecting, Event::Connected) => (Phase::AwaitingConnection, Action::WaitForConnection),
            (Phase::Connecting, Event::ConnectFailed) => (
                Phase::Closed { failure: Some(WorkflowError::Connection) },
                Action::Finish { failure: Some(WorkflowError::Connection) },
            ),
            (Phase::AwaitingConnection, Event::ConnectionReady) => (Phase::Subscribing, Action::CreateSubscription),
            (Phase::Subscribing, Event::SubscriptionCreated { subscription_id }) => (
                Phase::CreatingItems { subscription_id },
                Action::CreateMonitoredItems { subscription_id },
            ),
            (Phase::Subscribing, Event::SubscriptionFailed { status }) => {
                let err = classify_refusal(status, WorkflowError::SubscriptionCreation { status });
                (Phase::Disconnecting { failure: Some(err) }, Action::Abort { error: err })
            },
            (Phase::CreatingItems { subscription_id }, Event::ItemsCreated { created }) => (
                Phase::Monitoring { subscription_id, active_items: created },
                Action::AwaitEventLoop,
            ),
            (Phase::CreatingItems { .. }, Event::ItemsFailed { status }) => {
                let err = classify_refusal(status, WorkflowError::MonitoredItems { status });
                (Phase::Disconnecting { failure: Some(err) }, Action::Abort { error: err })
            },
            (Phase::Disconnecting { failure }, Event::Disconnected) => (Phase::Closed { failure }, Action::AwaitEventLoop),
            (Phase::Monitoring { .. }, Event::EventLoopEnded) => (Phase::Closed { failure: None }, Action::Finish { failure: None }),
            (Phase::Disconnecting { failure }, Event::EventLoopEnded) => (Phase::Closed { failure }, Action::Finish { failure }),
            (Phase::Closed { failure }, Event::EventLoopEnded) => (Phase::Closed { failure }, Action::Finish { failure }),
            (_, Event::DisconnectRequested) => match p {
                Phase::AwaitingConnection | Phase::Subscribing | Phase::CreatingItems { .. } | Phase::Monitoring { .. } =>
                    (Phase::Disconnecting { failure: None }, Action::Disconnect),
                _ => (p, Action::Nothing),
            },
            _ => (p, Action::Nothing),
        };
        self.phase = np;
        action
    }
}

/// A second disconnect changes nothing and asks for nothing: the session is
/// released at most once, and no further error comes of it.
pub proof fn lemma_disconnect_idempotent(p: Phase)
    ensures
        next(next(p, Event::DisconnectRequested).0, Event::DisconnectRequested) == (
            next(p, Event::DisconnectRequested).0,
            Action::Nothing,
        ),
        next(p, Event::DisconnectRequested).1 == Action::Disconnect <==> holds_session(p),
{
}

/// A request for a subscription or for monitored items is only ever issued
/// on a session that is connected and ready.
pub proof fn lemma_requests_need_connection(p: Phase, e: Event)
    ensures
        is_request(next(p, e).1) ==> holds_session(p),
        next(p, e).1 == Action::CreateSubscription ==> p == Phase::AwaitingConnection && e
            == Event::ConnectionReady,
        next(p, e).1 is CreateMonitoredItems ==> p == Phase::Subscribing,
{
}

/// The actions a session performs for a sequence of events.
pub open spec fn run_actions(p: Phase, events: Seq<Event>) -> Seq<Action>
    decreases events.len(),
{
    if events.len() == 0 {
        Seq::empty()
    } else {
        let (np, a) = next(p, events[0]);
        seq![a] + run_actions(np, events.drop_first())
    }
}

/// Once a session is closed, whatever happens, it issues no further request
/// for a subscription or for monitored items; in particular none after a
/// failed connection.
pub proof fn lemma_closed_issues_no_request(failure: Option<WorkflowError>, events: Seq<Event>)
    ensures
        next(Phase::Connecting, Event::ConnectFailed) == (
            Phase::Closed { failure: Some(WorkflowError::Connection) },
            Action::Finish { failure: Some(WorkflowError::Connection) },
        ),
        run_actions(Phase::Closed { failure }, events).len() == events.len(),
        forall|i: int|
            0 <= i < events.len() ==> !is_request(
                #[trigger] run_actions(Phase::Closed { failure }, events)[i],
            ),
    decreases events.len(),
{
    if events.len() > 0 {
        lemma_closed_issues_no_request(failure, events.drop_first());
        let rest = run_actions(Phase::Closed { failure }, events.drop_first());
        assert(next(Phase::Closed { failure }, events[0]).0 == Phase::Closed { failure });
        assert(run_actions(Phase::Closed { failure }, events) == seq![
            next(Phase::Closed { failure }, events[0]).1,
        ] + rest);
        assert forall|i: int|
            0 <= i < events.len() implies !is_request(
                #[trigger] run_actions(Phase::Closed { failure }, events)[i],
            ) by {
            if i > 0 {
                assert(run_actions(Phase::Closed { failure }, events)[i] == rest[i - 1]);
            }
        }
    }
}

} // verus!
