//! Event descriptors: what must be announced, independent of delivery.
//!
//! A descriptor is immutable once created and carries all data needed for
//! delivery, so delivery never has to re-query possibly stale node state.

use vstd::prelude::*;

use crate::node::Live;
use crate::node::NodeId;
use crate::node::NodeSpec;
use crate::node::NodeView;

verus! {

/// The fixed set of simple per-node notification kinds.
#[derive(Clone, Copy, PartialEq, Eq, Structural, Debug)]
pub enum NotificationKind {
    TitleChanged,
    ValueChanged,
    SelectionChanged,
    FocusChanged,
}

/// Priority of a free-text announcement, derived from the live-region
/// setting: assertive maps to high, anything else to medium.
#[derive(Clone, Copy, PartialEq, Eq, Structural, Debug)]
pub enum Priority {
    Medium,
    High,
}

/// One queued event descriptor.
#[derive(Clone, PartialEq, Debug)]
pub enum QueuedEvent {
    /// A simple "this attribute changed" signal for one node.
    Generic { node_id: NodeId, notification: NotificationKind },
    /// The node left the tree.
    NodeDestroyed(NodeId),
    /// A free-text, non-node-scoped message.
    Announcement { text: String, priority: Priority },
}

/// Mathematical model of an event descriptor.
pub ghost enum EventSpec {
    Generic { node_id: NodeId, notification: NotificationKind },
    NodeDestroyed(NodeId),
    Announcement { text: Seq<char>, priority: Priority },
}

impl View for QueuedEvent {
    type V = EventSpec;

    open spec fn view(&self) -> EventSpec {
        match self {
            QueuedEvent::Generic { node_id, notification } => EventSpec::Generic {
                node_id: *node_id,
                notification: *notification,
            },
            QueuedEvent::NodeDestroyed(id) => EventSpec::NodeDestroyed(*id),
            QueuedEvent::Announcement { text, priority } => EventSpec::Announcement {
                text: text@,
                priority: *priority,
            },
        }
    }
}

/// The announcement a node with an active live region gives rise to: its
/// name as the text, with priority from the live-region setting.
pub open spec fn spec_live_region_announcement(n: NodeSpec) -> EventSpec {
    EventSpec::Announcement {
        text: n.name.unwrap(),
        priority: if n.live == Live::Assertive {
            Priority::High
        } else {
            Priority::Medium
        },
    }
}

impl QueuedEvent {
    /// Builds the live-region announcement for a node. The caller has already
    /// established that the node has a name.
    pub fn live_region_announcement(node: &NodeView) -> (r: Self)
        requires
            node@.name is Some,
        ensures
            r@ == spec_live_region_announcement(node@),
    {
        let text = match &node.name {
            Option::Some(n) => n.clone(),
            Option::None => vstd::pervasive::unreached(),
        };
        QueuedEvent::Announcement {
            text,
            priority: if node.live == Live::Assertive {
                Priority::High
            } else {
                Priority::Medium
            },
        }
    }
}

/// The model of a descriptor sequence: each descriptor by its view, in order.
pub open spec fn events_view(events: Seq<QueuedEvent>) -> Seq<EventSpec> {
    events.map_values(|e: QueuedEvent| e@)
}

/// Events generated by one tree-update pass, ready to be delivered.
///
/// The batch is move-only and consumed exactly once, so the same
/// notifications cannot be delivered twice.
#[must_use]
pub struct QueuedEvents {
    events: Vec<QueuedEvent>,
}

impl View for QueuedEvents {
    type V = Seq<EventSpec>;

    closed spec fn view(&self) -> Seq<EventSpec> {
        events_view(self.events@)
    }
}

impl QueuedEvents {
    /// Wraps a finished descriptor queue into a delivery-ready batch.
    pub(crate) fn from_events(events: Vec<QueuedEvent>) -> (r: Self)
        ensures
            r@ == events_view(events@),
    {
        QueuedEvents { events }
    }

    /// Detaches the descriptors, in generation order, for delivery.
    /// Consumes the batch: delivery happens at most once.
    pub fn into_events(self) -> (r: Vec<QueuedEvent>)
        ensures
            events_view(r@) == self@,
    {
        self.events
    }
}

} // verus!
