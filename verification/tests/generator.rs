use a11y_events::event::NotificationKind;
use a11y_events::event::Priority;
use a11y_events::event::QueuedEvent;
use a11y_events::generator::EventGenerator;
use a11y_events::node::FilterResult;
use a11y_events::node::Live;
use a11y_events::node::NodeId;
use a11y_events::node::NodeView;
use a11y_events::node::TextPosition;
use a11y_events::node::TextSelection;

fn plain_node(id: u64, filter: FilterResult) -> NodeView {
    NodeView {
        id: NodeId(id),
        name: None,
        live: Live::Off,
        title: None,
        value: None,
        supports_text_ranges: false,
        raw_text_selection: None,
        filter,
    }
}

fn selection(node: u64, anchor: usize, focus: usize) -> TextSelection {
    TextSelection {
        anchor: TextPosition {
            node: NodeId(node),
            character_index: anchor,
        },
        focus: TextPosition {
            node: NodeId(node),
            character_index: focus,
        },
    }
}

#[test]
fn added_excluded_produces_nothing() {
    let mut g = EventGenerator::new();
    let mut n = plain_node(1, FilterResult::ExcludeNode);
    n.name = Some("Save".to_string());
    n.live = Live::Assertive;
    g.node_added(&n);
    assert_eq!(g.into_result().into_events(), vec![]);
}

#[test]
fn added_assertive_announces_high() {
    let mut g = EventGenerator::new();
    let mut n = plain_node(1, FilterResult::Include);
    n.name = Some("Alert text".to_string());
    n.live = Live::Assertive;
    g.node_added(&n);
    assert_eq!(
        g.into_result().into_events(),
        vec![QueuedEvent::Announcement {
            text: "Alert text".to_string(),
            priority: Priority::High,
        }]
    );
}

#[test]
fn added_polite_announces_medium() {
    let mut g = EventGenerator::new();
    let mut n = plain_node(2, FilterResult::Include);
    n.name = Some("Status".to_string());
    n.live = Live::Polite;
    g.node_added(&n);
    assert_eq!(
        g.into_result().into_events(),
        vec![QueuedEvent::Announcement {
            text: "Status".to_string(),
            priority: Priority::Medium,
        }]
    );
}

#[test]
fn added_included_without_live_region_is_silent() {
    let mut g = EventGenerator::new();
    let mut n = plain_node(3, FilterResult::Include);
    n.name = Some("Button".to_string());
    g.node_added(&n);
    let mut unnamed = plain_node(4, FilterResult::Include);
    unnamed.live = Live::Polite;
    g.node_added(&unnamed);
    assert_eq!(g.into_result().into_events(), vec![]);
}

#[test]
fn updated_value_only_change() {
    let mut g = EventGenerator::new();
    let mut before = plain_node(5, FilterResult::Include);
    before.title = Some("Volume".to_string());
    before.value = Some("20".to_string());
    let mut after = before.clone();
    after.value = Some("30".to_string());
    g.node_updated(&before, &after);
    assert_eq!(
        g.into_result().into_events(),
        vec![QueuedEvent::Generic {
            node_id: NodeId(5),
            notification: NotificationKind::ValueChanged,
        }]
    );
}

#[test]
fn updated_title_change() {
    let mut g = EventGenerator::new();
    let mut before = plain_node(6, FilterResult::Include);
    before.title = Some("Old".to_string());
    let mut after = before.clone();
    after.title = Some("New".to_string());
    g.node_updated(&before, &after);
    assert_eq!(
        g.into_result().into_events(),
        vec![QueuedEvent::Generic {
            node_id: NodeId(6),
            notification: NotificationKind::TitleChanged,
        }]
    );
}

#[test]
fn updated_selection_change_needs_text_range_support() {
    let mut g = EventGenerator::new();
    let mut before = plain_node(7, FilterResult::Include);
    before.supports_text_ranges = true;
    before.raw_text_selection = Some(selection(7, 0, 2));
    let mut after = before.clone();
    after.raw_text_selection = Some(selection(7, 1, 4));
    g.node_updated(&before, &after);
    assert_eq!(
        g.into_result().into_events(),
        vec![QueuedEvent::Generic {
            node_id: NodeId(7),
            notification: NotificationKind::SelectionChanged,
        }]
    );

    // The same selection change without support on one side queues nothing.
    let mut g = EventGenerator::new();
    let mut unsupported_before = before.clone();
    unsupported_before.supports_text_ranges = false;
    g.node_updated(&unsupported_before, &after);
    assert_eq!(g.into_result().into_events(), vec![]);
}

#[test]
fn updated_excluded_new_view_suppresses_everything() {
    let mut g = EventGenerator::new();
    let mut before = plain_node(8, FilterResult::Include);
    before.title = Some("Old".to_string());
    before.value = Some("1".to_string());
    let mut after = before.clone();
    after.title = Some("New".to_string());
    after.value = Some("2".to_string());
    after.filter = FilterResult::ExcludeSubtree;
    g.node_updated(&before, &after);
    assert_eq!(g.into_result().into_events(), vec![]);
}

#[test]
fn updated_reinclusion_reannounces_live_region() {
    let mut g = EventGenerator::new();
    let mut before = plain_node(9, FilterResult::ExcludeNode);
    before.name = Some("Progress".to_string());
    before.live = Live::Polite;
    let mut after = before.clone();
    after.filter = FilterResult::Include;
    g.node_updated(&before, &after);
    assert_eq!(
        g.into_result().into_events(),
        vec![QueuedEvent::Announcement {
            text: "Progress".to_string(),
            priority: Priority::Medium,
        }]
    );
}

#[test]
fn updated_name_change_reannounces() {
    let mut g = EventGenerator::new();
    let mut before = plain_node(10, FilterResult::Include);
    before.name = Some("Loading".to_string());
    before.live = Live::Assertive;
    let mut after = before.clone();
    after.name = Some("Done".to_string());
    g.node_updated(&before, &after);
    assert_eq!(
        g.into_result().into_events(),
        vec![QueuedEvent::Announcement {
            text: "Done".to_string(),
            priority: Priority::High,
        }]
    );
}

#[test]
fn updated_unchanged_live_region_stays_silent() {
    let mut g = EventGenerator::new();
    let mut before = plain_node(11, FilterResult::Include);
    before.name = Some("Ready".to_string());
    before.live = Live::Polite;
    let after = before.clone();
    g.node_updated(&before, &after);
    assert_eq!(g.into_result().into_events(), vec![]);
}

#[test]
fn focus_moved_to_included_node() {
    let mut g = EventGenerator::new();
    let n = plain_node(12, FilterResult::Include);
    g.focus_moved(None, Some(&n));
    assert_eq!(
        g.into_result().into_events(),
        vec![QueuedEvent::Generic {
            node_id: NodeId(12),
            notification: NotificationKind::FocusChanged,
        }]
    );
}

#[test]
fn focus_moved_to_excluded_or_nothing_is_silent() {
    let mut g = EventGenerator::new();
    let excluded = plain_node(13, FilterResult::ExcludeNode);
    let lost = plain_node(14, FilterResult::Include);
    g.focus_moved(None, Some(&excluded));
    g.focus_moved(Some(&lost), None);
    assert_eq!(g.into_result().into_events(), vec![]);
}

#[test]
fn removed_always_queues_destroyed() {
    let mut g = EventGenerator::new();
    let excluded = plain_node(15, FilterResult::ExcludeSubtree);
    let included = plain_node(16, FilterResult::Include);
    g.node_removed(&excluded);
    g.node_removed(&included);
    assert_eq!(
        g.into_result().into_events(),
        vec![
            QueuedEvent::NodeDestroyed(NodeId(15)),
            QueuedEvent::NodeDestroyed(NodeId(16)),
        ]
    );
}

#[test]
fn descriptors_keep_callback_order() {
    let mut g = EventGenerator::new();
    let mut announcer = plain_node(20, FilterResult::Include);
    announcer.name = Some("First".to_string());
    announcer.live = Live::Assertive;
    g.node_added(&announcer);

    let mut before = plain_node(21, FilterResult::Include);
    before.value = Some("a".to_string());
    let mut after = before.clone();
    after.value = Some("b".to_string());
    g.node_updated(&before, &after);

    let focused = plain_node(22, FilterResult::Include);
    g.focus_moved(None, Some(&focused));

    let removed = plain_node(23, FilterResult::ExcludeNode);
    g.node_removed(&removed);

    assert_eq!(
        g.into_result().into_events(),
        vec![
            QueuedEvent::Announcement {
                text: "First".to_string(),
                priority: Priority::High,
            },
            QueuedEvent::Generic {
                node_id: NodeId(21),
                notification: NotificationKind::ValueChanged,
            },
            QueuedEvent::Generic {
                node_id: NodeId(22),
                notification: NotificationKind::FocusChanged,
            },
            QueuedEvent::NodeDestroyed(NodeId(23)),
        ]
    );
}

#[test]
fn live_region_announcement_picks_priority() {
    let mut assertive = plain_node(30, FilterResult::Include);
    assertive.name = Some("Now".to_string());
    assertive.live = Live::Assertive;
    assert_eq!(
        QueuedEvent::live_region_announcement(&assertive),
        QueuedEvent::Announcement {
            text: "Now".to_string(),
            priority: Priority::High,
        }
    );

    let mut polite = assertive.clone();
    polite.live = Live::Polite;
    assert_eq!(
        QueuedEvent::live_region_announcement(&polite),
        QueuedEvent::Announcement {
            text: "Now".to_string(),
            priority: Priority::Medium,
        }
    );
}
