use a11y_events::delivery::dispatch_for;
use a11y_events::delivery::Dispatch;
use a11y_events::event::NotificationKind;
use a11y_events::event::Priority;
use a11y_events::event::QueuedEvent;
use a11y_events::node::NodeId;

#[test]
fn generic_descriptor_always_notifies() {
    let event = QueuedEvent::Generic {
        node_id: NodeId(1),
        notification: NotificationKind::TitleChanged,
    };
    assert_eq!(
        dispatch_for(&event, false, false),
        Some(Dispatch::Notify {
            node_id: NodeId(1),
            notification: NotificationKind::TitleChanged,
        })
    );
}

#[test]
fn destroyed_without_handle_skips_silently() {
    let event = QueuedEvent::NodeDestroyed(NodeId(2));
    assert_eq!(dispatch_for(&event, false, true), None);
}

#[test]
fn destroyed_with_handle_notifies() {
    let event = QueuedEvent::NodeDestroyed(NodeId(3));
    assert_eq!(
        dispatch_for(&event, true, false),
        Some(Dispatch::NotifyDestroyed { node_id: NodeId(3) })
    );
}

#[test]
fn announcement_needs_a_surface() {
    let event = QueuedEvent::Announcement {
        text: "Saved".to_string(),
        priority: Priority::Medium,
    };
    assert_eq!(dispatch_for(&event, true, false), None);
    assert_eq!(
        dispatch_for(&event, false, true),
        Some(Dispatch::Announce {
            text: "Saved".to_string(),
            priority: Priority::Medium,
        })
    );
}
