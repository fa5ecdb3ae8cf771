use opcua_watch::workflow::{
    classify_refusal, describe_error, subscription_params, Action, Event, Phase, Workflow, WorkflowError,
};

const BAD_NOT_CONNECTED: u32 = 0x808A_0000;

#[test]
fn setup_runs_in_order() {
    let mut wf = Workflow::new();
    assert_eq!(wf.phase(), Phase::Idle);
    assert_eq!(wf.step(Event::Start), Action::Connect);
    assert_eq!(wf.step(Event::Connected), Action::WaitForConnection);
    assert_eq!(wf.step(Event::ConnectionReady), Action::CreateSubscription);
    assert_eq!(
        wf.step(Event::SubscriptionCreated { subscription_id: 4 }),
        Action::CreateMonitoredItems { subscription_id: 4 }
    );
    assert_eq!(wf.step(Event::ItemsCreated { created: 2 }), Action::AwaitEventLoop);
    assert_eq!(wf.phase(), Phase::Monitoring { subscription_id: 4, active_items: 2 });
    assert_eq!(wf.step(Event::EventLoopEnded), Action::Finish { failure: None });
    assert_eq!(wf.phase(), Phase::Closed { failure: None });
}

#[test]
fn unreachable_endpoint_fails_before_subscribing() {
    let mut wf = Workflow::new();
    assert_eq!(wf.step(Event::Start), Action::Connect);
    assert_eq!(
        wf.step(Event::ConnectFailed),
        Action::Finish { failure: Some(WorkflowError::Connection) }
    );
    for e in [
        Event::Connected,
        Event::ConnectionReady,
        Event::SubscriptionCreated { subscription_id: 1 },
        Event::ItemsCreated { created: 1 },
        Event::DisconnectRequested,
    ] {
        assert_eq!(wf.step(e), Action::Nothing);
    }
    assert_eq!(wf.phase(), Phase::Closed { failure: Some(WorkflowError::Connection) });
}

#[test]
fn disconnect_twice_releases_once() {
    let mut wf = Workflow::new();
    wf.step(Event::Start);
    wf.step(Event::Connected);
    wf.step(Event::ConnectionReady);
    wf.step(Event::SubscriptionCreated { subscription_id: 1 });
    wf.step(Event::ItemsCreated { created: 3 });
    assert_eq!(wf.step(Event::DisconnectRequested), Action::Disconnect);
    assert_eq!(wf.step(Event::DisconnectRequested), Action::Nothing);
    assert_eq!(wf.step(Event::Disconnected), Action::AwaitEventLoop);
    assert_eq!(wf.step(Event::DisconnectRequested), Action::Nothing);
    assert_eq!(wf.step(Event::EventLoopEnded), Action::Finish { failure: None });
}

#[test]
fn refused_subscription_aborts_and_disconnects() {
    let mut wf = Workflow::new();
    wf.step(Event::Start);
    wf.step(Event::Connected);
    wf.step(Event::ConnectionReady);
    let err = WorkflowError::SubscriptionCreation { status: 0x8000_0000 };
    assert_eq!(wf.step(Event::SubscriptionFailed { status: 0x8000_0000 }), Action::Abort { error: err });
    assert_eq!(wf.phase(), Phase::Disconnecting { failure: Some(err) });
    assert_eq!(wf.step(Event::Disconnected), Action::AwaitEventLoop);
    assert_eq!(wf.step(Event::EventLoopEnded), Action::Finish { failure: Some(err) });
}

#[test]
fn refused_items_abort() {
    let mut wf = Workflow::new();
    wf.step(Event::Start);
    wf.step(Event::Connected);
    wf.step(Event::ConnectionReady);
    wf.step(Event::SubscriptionCreated { subscription_id: 8 });
    assert_eq!(
        wf.step(Event::ItemsFailed { status: 0x800E_0000 }),
        Action::Abort { error: WorkflowError::MonitoredItems { status: 0x800E_0000 } }
    );
}

#[test]
fn not_connected_refusal() {
    let mut wf = Workflow::new();
    wf.step(Event::Start);
    wf.step(Event::Connected);
    wf.step(Event::ConnectionReady);
    assert_eq!(
        wf.step(Event::SubscriptionFailed { status: BAD_NOT_CONNECTED }),
        Action::Abort { error: WorkflowError::NotConnected }
    );
    assert_eq!(
        classify_refusal(BAD_NOT_CONNECTED, WorkflowError::MonitoredItems { status: BAD_NOT_CONNECTED }),
        WorkflowError::NotConnected
    );
    assert_eq!(
        classify_refusal(1, WorkflowError::MonitoredItems { status: 1 }),
        WorkflowError::MonitoredItems { status: 1 }
    );
}

#[test]
fn events_out_of_turn_change_nothing() {
    let mut wf = Workflow::new();
    assert_eq!(wf.step(Event::ConnectionReady), Action::Nothing);
    assert_eq!(wf.step(Event::DisconnectRequested), Action::Nothing);
    assert_eq!(wf.phase(), Phase::Idle);
}

#[test]
fn default_subscription_parameters() {
    let p = subscription_params();
    assert_eq!(p.publishing_interval_ms, 1000);
    assert_eq!(p.lifetime_count, 10);
    assert_eq!(p.max_keep_alive_count, 30);
    assert_eq!(p.max_notifications_per_publish, 0);
    assert_eq!(p.priority, 0);
    assert!(p.publishing_enabled);
}

#[test]
fn error_descriptions() {
    assert_eq!(describe_error(WorkflowError::Connection), "could not connect to the endpoint");
    assert_eq!(describe_error(WorkflowError::NotConnected), "the session is not connected");
    assert_eq!(
        describe_error(WorkflowError::SubscriptionCreation { status: 0x808A_0000 }),
        "the server refused the subscription: BadNotConnected"
    );
    assert_eq!(
        describe_error(WorkflowError::MonitoredItems { status: 0x8034_0000 }),
        "the server refused the monitored items: BadNodeIdUnknown"
    );
}
