//! Delivery decisions: which platform call, if any, each descriptor causes.
//!
//! Delivery itself is a platform side effect performed by the embedder: it
//! resolves node ids to platform handles through the shared context
//! (creating them on demand, removing them on destruction) and posts the
//! notifications. This module holds the verified decision logic of that
//! pass: per descriptor, whether a call is made and with what data, given
//! whether a handle is registered and whether an active surface exists.

use vstd::prelude::*;

use crate::event::EventSpec;
use crate::event::NotificationKind;
use crate::event::Priority;
use crate::event::QueuedEvent;
use crate::node::NodeId;

verus! {

/// One platform call of a delivery pass, named abstractly: the embedder maps
/// each to the host accessibility API's dispatch primitive.
#[derive(Clone, PartialEq, Debug)]
pub enum Dispatch {
    /// Post the notification of the given kind for the node's handle,
    /// resolving the handle on demand.
    Notify { node_id: NodeId, notification: NotificationKind },
    /// Post a destruction notification for the handle the node held.
    NotifyDestroyed { node_id: NodeId },
    /// Post a free-text announcement against the active surface.
    Announce { text: String, priority: Priority },
}

/// Mathematical model of a platform call.
pub ghost enum DispatchSpec {
    Notify { node_id: NodeId, notification: NotificationKind },
    NotifyDestroyed { node_id: NodeId },
    Announce { text: Seq<char>, priority: Priority },
}

impl View for Dispatch {
    type V = DispatchSpec;

    open spec fn view(&self) -> DispatchSpec {
        match self {
            Dispatch::Notify { node_id, notification } => DispatchSpec::Notify {
                node_id: *node_id,
                notification: *notification,
            },
            Dispatch::NotifyDestroyed { node_id } => DispatchSpec::NotifyDestroyed {
                node_id: *node_id,
            },
            Dispatch::Announce { text, priority } => DispatchSpec::Announce {
                text: text@,
                priority: *priority,
            },
        }
    }
}

/// The model of an optional dispatch decision.
pub open spec fn opt_dispatch_view(d: Option<Dispatch>) -> Option<DispatchSpec> {
    match d {
        Option::Some(x) => Option::Some(x@),
        Option::None => Option::None,
    }
}

/// The platform calls one descriptor causes, given which node ids currently
/// hold a registered handle and whether an active surface exists: a generic
/// descriptor always notifies (its handle is created on demand); a
/// destruction descriptor notifies only if a handle was registered; an
/// announcement is posted only if a surface is available. A skip is silent.
pub open spec fn spec_dispatch_of(e: EventSpec, registered: Set<NodeId>, surface: bool) -> Seq<
    DispatchSpec,
> {
    match e {
        EventSpec::Generic { node_id, notification } => seq![
            DispatchSpec::Notify { node_id, notification },
        ],
        EventSpec::NodeDestroyed(id) => if registered.contains(id) {
            seq![DispatchSpec::NotifyDestroyed { node_id: id }]
        } else {
            Seq::empty()
        },
        EventSpec::Announcement { text, priority } => if surface {
            seq![DispatchSpec::Announce { text, priority }]
        } else {
            Seq::empty()
        },
    }
}

/// How delivering one descriptor changes which node ids hold a handle:
/// resolving for a generic notification creates the handle on demand, and
/// destruction removes it; announcements touch no handle.
pub open spec fn spec_registered_after(e: EventSpec, registered: Set<NodeId>) -> Set<NodeId> {
    match e {
        EventSpec::Generic { node_id, notification } => registered.insert(node_id),
        EventSpec::NodeDestroyed(id) => registered.remove(id),
        EventSpec::Announcement { text, priority } => registered,
    }
}

/// The full delivery pass: single-pass, in order, never aborted. Each
/// descriptor contributes its own calls and state change; a skipped
/// descriptor never affects the descriptors after it beyond the handle
/// state it would have changed.
pub open spec fn spec_delivery(
    events: Seq<EventSpec>,
    registered: Set<NodeId>,
    surface: bool,
) -> Seq<DispatchSpec>
    decreases events.len(),
{
    if events.len() == 0 {
        Seq::empty()
    } else {
        spec_dispatch_of(events[0], registered, surface) + spec_delivery(
            events.drop_first(),
            spec_registered_after(events[0], registered),
            surface,
        )
    }
}

/// Delivery decision for one descriptor. `handle_registered` reports whether
/// the shared context currently holds a platform handle for the descriptor's
/// node (meaningful only for destruction descriptors); `surface_available`
/// whether there is an active surface to announce against. Returns the
/// platform call to make, or nothing for a silent skip.
pub fn dispatch_for(event: &QueuedEvent, handle_registered: bool, surface_available: bool) -> (d:
    Option<Dispatch>)
    ensures
        opt_dispatch_view(d) == (match event@ {
            EventSpec::Generic { node_id, notification } => Option::Some(
                DispatchSpec::Notify { node_id, notification },
            ),
            EventSpec::NodeDestroyed(id) => if handle_registered {
                Option::Some(DispatchSpec::NotifyDestroyed { node_id: id })
            } else {
                Option::None
            },
            EventSpec::Announcement { text, priority } => if surface_available {
                Option::Some(DispatchSpec::Announce { text, priority })
            } else {
                Option::None
            },
        }),
{
    match event {
        QueuedEvent::Generic { node_id, notification } => Option::Some(Dispatch::Notify {
            node_id: *node_id,
            notification: *notification,
        }),
        QueuedEvent::NodeDestroyed(id) => if handle_registered {
            Option::Some(Dispatch::NotifyDestroyed { node_id: *id })
        } else {
            Option::None
        },
        QueuedEvent::Announcement { text, priority } => if surface_available {
            Option::Some(Dispatch::Announce { text: text.clone(), priority: *priority })
        } else {
            Option::None
        },
    }
}

/// Skipping is silent and local: when the next descriptor to deliver is a
/// destruction descriptor for an id with no registered handle, it causes no
/// platform call, and the rest of the pass proceeds exactly as it would
/// have without that descriptor.
pub proof fn lemma_destroyed_without_handle_skips(
    events: Seq<EventSpec>,
    registered: Set<NodeId>,
    surface: bool,
    id: NodeId,
)
    requires
        events.len() > 0,
        events[0] == EventSpec::NodeDestroyed(id),
        !registered.contains(id),
    ensures
        spec_dispatch_of(events[0], registered, surface) == Seq::<DispatchSpec>::empty(),
        spec_delivery(events, registered, surface) == spec_delivery(
            events.drop_first(),
            registered,
            surface,
        ),
{
    assert(registered.remove(id) =~= registered);
    assert(spec_delivery(events, registered, surface) =~= spec_delivery(
        events.drop_first(),
        registered,
        surface,
    ));
}

} // verus!
