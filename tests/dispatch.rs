use opcua_watch::dispatch::{Notification, NotificationQueue};
use opcua_watch::node::NodeId;
use opcua_watch::presentation::DataValue;

fn note(id: &str) -> Notification {
    Notification {
        node: NodeId { namespace: 1, identifier: id.to_string() },
        data_value: DataValue { value: Some(id.to_string()), status: None },
    }
}

#[test]
fn queue_is_first_in_first_out() {
    let mut q = NotificationQueue::new(4);
    assert!(!q.push(note("a")));
    assert!(!q.push(note("b")));
    assert_eq!(q.len(), 2);
    assert_eq!(q.pop().unwrap().node.identifier, "a");
    assert_eq!(q.pop().unwrap().node.identifier, "b");
    assert!(q.pop().is_none());
    assert_eq!(q.dropped(), 0);
}

#[test]
fn full_queue_drops_oldest() {
    let mut q = NotificationQueue::new(2);
    q.push(note("a"));
    q.push(note("b"));
    assert!(q.push(note("c")));
    assert_eq!(q.len(), 2);
    assert_eq!(q.capacity(), 2);
    assert_eq!(q.dropped(), 1);
    assert_eq!(q.pop().unwrap().node.identifier, "b");
    assert_eq!(q.pop().unwrap().node.identifier, "c");
}
