//! The event generator: reacts to tree-diff callbacks and queues descriptors.
//!
//! The external diff engine invokes one reaction per detected change, in
//! traversal order, within a single pass. Each reaction only ever appends to
//! the queue; the contracts state the exact descriptors appended, so the
//! queue after a pass is the concatenation of every callback's descriptors
//! in callback order.

use vstd::prelude::*;

use crate::event::spec_live_region_announcement;
use crate::event::events_view;
use crate::event::EventSpec;
use crate::event::NotificationKind;
use crate::event::Priority;
use crate::event::QueuedEvent;
use crate::event::QueuedEvents;
use crate::node::FilterResult;
use crate::node::Live;
use crate::node::NodeSpec;
use crate::node::NodeView;
use crate::node::opt_selection_eq;
use crate::node::opt_string_eq;

verus! {

/// Descriptors appended when a node is added: nothing if the node is
/// excluded; one live-region announcement if it has a name and an active
/// live region; nothing otherwise.
pub open spec fn spec_node_added(n: NodeSpec) -> Seq<EventSpec> {
    if n.filter == FilterResult::Include && n.name is Some && n.live != Live::Off {
        seq![spec_live_region_announcement(n)]
    } else {
        Seq::empty()
    }
}

/// Title part of the update reaction: one descriptor if the title changed.
pub open spec fn spec_title_delta(before: NodeSpec, after: NodeSpec) -> Seq<EventSpec> {
    if before.title != after.title {
        seq![EventSpec::Generic { node_id: after.id, notification: NotificationKind::TitleChanged }]
    } else {
        Seq::empty()
    }
}

/// Value part of the update reaction: one descriptor if the value changed.
pub open spec fn spec_value_delta(before: NodeSpec, after: NodeSpec) -> Seq<EventSpec> {
    if before.value != after.value {
        seq![EventSpec::Generic { node_id: after.id, notification: NotificationKind::ValueChanged }]
    } else {
        Seq::empty()
    }
}

/// Selection part of the update reaction: one descriptor if both views
/// support text ranges and the raw selection changed.
pub open spec fn spec_selection_delta(before: NodeSpec, after: NodeSpec) -> Seq<EventSpec> {
    if before.supports_text_ranges && after.supports_text_ranges
        && before.raw_text_selection != after.raw_text_selection {
        seq![
            EventSpec::Generic {
                node_id: after.id,
                notification: NotificationKind::SelectionChanged,
            },
        ]
    } else {
        Seq::empty()
    }
}

/// Live-region part of the update reaction: the new view announces itself if
/// it has a name and an active live region, and either the name changed, the
/// live-region setting changed, or the old view was excluded by the filter —
/// the last so that a node transitioning into inclusion re-announces even
/// with unchanged attributes.
pub open spec fn spec_live_delta(before: NodeSpec, after: NodeSpec) -> Seq<EventSpec> {
    if after.name is Some && after.live != Live::Off
        && (after.name != before.name || after.live != before.live
            || before.filter != FilterResult::Include) {
        seq![spec_live_region_announcement(after)]
    } else {
        Seq::empty()
    }
}

/// Descriptors appended when a node is updated: nothing if the new view is
/// excluded; otherwise the title, value, selection and live-region parts,
/// in that order.
pub open spec fn spec_node_updated(before: NodeSpec, after: NodeSpec) -> Seq<EventSpec> {
    if after.filter != FilterResult::Include {
        Seq::empty()
    } else {
        spec_title_delta(before, after) + spec_value_delta(before, after)
            + spec_selection_delta(before, after) + spec_live_delta(before, after)
    }
}

/// Descriptors appended when focus moves: one focus-changed descriptor for
/// the newly focused node if there is one and it is included; focus loss
/// alone is not announced.
pub open spec fn spec_focus_moved(new: Option<NodeSpec>) -> Seq<EventSpec> {
    match new {
        Option::Some(n) => if n.filter == FilterResult::Include {
            seq![EventSpec::Generic { node_id: n.id, notification: NotificationKind::FocusChanged }]
        } else {
            Seq::empty()
        },
        Option::None => Seq::empty(),
    }
}

/// Descriptors appended when a node is removed: always exactly one
/// destruction descriptor, with no filter check.
pub open spec fn spec_node_removed(n: NodeSpec) -> Seq<EventSpec> {
    seq![EventSpec::NodeDestroyed(n.id)]
}

/// The model of an optional borrowed node view.
pub open spec fn opt_node_view(n: Option<&NodeView>) -> Option<NodeSpec> {
    match n {
        Option::Some(x) => Option::Some(x@),
        Option::None => Option::None,
    }
}

/// A node excluded by the filter produces no descriptors at all when added.
pub proof fn lemma_added_excluded_is_silent(n: NodeSpec)
    requires
        n.filter != FilterResult::Include,
    ensures
        spec_node_added(n) == Seq::<EventSpec>::empty(),
{
}

/// An included node with a non-empty name and an assertive live region
/// produces, on addition, exactly one descriptor: an announcement with high
/// priority whose text is the node's name.
pub proof fn lemma_added_assertive_announces(n: NodeSpec)
    requires
        n.filter == FilterResult::Include,
        n.name is Some,
        n.name.unwrap().len() > 0,
        n.live == Live::Assertive,
    ensures
        spec_node_added(n) == seq![
            EventSpec::Announcement { text: n.name.unwrap(), priority: Priority::High },
        ],
{
}

/// An update that changes only the value attribute — title, selection, name,
/// live setting and filter outcomes unchanged, the node included both before
/// and after — produces exactly one value-changed descriptor and no others.
pub proof fn lemma_updated_value_only(before: NodeSpec, after: NodeSpec)
    requires
        before.id == after.id,
        before.filter == FilterResult::Include,
        after.filter == FilterResult::Include,
        before.title == after.title,
        before.name == after.name,
        before.live == after.live,
        before.supports_text_ranges == after.supports_text_ranges,
        before.raw_text_selection == after.raw_text_selection,
        before.value != after.value,
    ensures
        spec_node_updated(before, after) == seq![
            EventSpec::Generic { node_id: after.id, notification: NotificationKind::ValueChanged },
        ],
{
    assert(spec_node_updated(before, after) =~= seq![
        EventSpec::Generic { node_id: after.id, notification: NotificationKind::ValueChanged },
    ]);
}

/// A node transitioning from excluded to included re-announces its live
/// region on update, even when its name and live setting are unchanged: the
/// assistive client never saw the prior state. With a polite live region the
/// announcement has medium priority, and it comes last in the reaction.
pub proof fn lemma_updated_reinclusion_announces(before: NodeSpec, after: NodeSpec)
    requires
        after.filter == FilterResult::Include,
        before.filter != FilterResult::Include,
        after.name is Some,
        after.name.unwrap().len() > 0,
        after.live == Live::Polite,
    ensures
        spec_node_updated(before, after).len() > 0,
        spec_node_updated(before, after).last() == (EventSpec::Announcement {
            text: after.name.unwrap(),
            priority: Priority::Medium,
        }),
{
    assert(spec_live_delta(before, after) == seq![spec_live_region_announcement(after)]);
}

/// Every removal produces exactly one destruction descriptor, and nothing
/// but the node's identifier matters — in particular not its filter status
/// in the tree state after the removal.
pub proof fn lemma_removed_exactly_one(a: NodeSpec, b: NodeSpec)
    requires
        a.id == b.id,
    ensures
        spec_node_removed(a) == seq![EventSpec::NodeDestroyed(a.id)],
        spec_node_removed(a) == spec_node_removed(b),
{
}

/// One callback of the external diff engine, with the node views it hands
/// over.
pub ghost enum CallbackSpec {
    NodeAdded(NodeSpec),
    NodeUpdated(NodeSpec, NodeSpec),
    FocusMoved(Option<NodeSpec>, Option<NodeSpec>),
    NodeRemoved(NodeSpec),
}

/// The descriptors one callback appends to the queue.
pub open spec fn spec_callback_events(c: CallbackSpec) -> Seq<EventSpec> {
    match c {
        CallbackSpec::NodeAdded(n) => spec_node_added(n),
        CallbackSpec::NodeUpdated(before, after) => spec_node_updated(before, after),
        CallbackSpec::FocusMoved(prev, next) => spec_focus_moved(next),
        CallbackSpec::NodeRemoved(n) => spec_node_removed(n),
    }
}

/// The queue after running a sequence of callbacks against an initial queue,
/// as the reaction contracts describe it: each callback appends its own
/// descriptors.
pub open spec fn spec_run(q: Seq<EventSpec>, cs: Seq<CallbackSpec>) -> Seq<EventSpec>
    decreases cs.len(),
{
    if cs.len() == 0 {
        q
    } else {
        spec_run(q + spec_callback_events(cs[0]), cs.drop_first())
    }
}

/// The descriptors of a sequence of callbacks, concatenated in callback
/// order.
pub open spec fn spec_all_events(cs: Seq<CallbackSpec>) -> Seq<EventSpec>
    decreases cs.len(),
{
    if cs.len() == 0 {
        Seq::empty()
    } else {
        spec_callback_events(cs[0]) + spec_all_events(cs.drop_first())
    }
}

/// Ordering of delivery: after any sequence of callbacks, the queue holds
/// the initial descriptors followed by each callback's descriptors,
/// contiguously and in exactly the order the callbacks ran.
pub proof fn lemma_descriptors_in_callback_order(q: Seq<EventSpec>, cs: Seq<CallbackSpec>)
    ensures
        spec_run(q, cs) == q + spec_all_events(cs),
    decreases cs.len(),
{
    if cs.len() == 0 {
        assert(spec_run(q, cs) =~= q + spec_all_events(cs));
    } else {
        lemma_descriptors_in_callback_order(q + spec_callback_events(cs[0]), cs.drop_first());
        assert(spec_run(q, cs) =~= q + spec_all_events(cs));
    }
}

/// Accumulates event descriptors over one tree-diff pass.
///
/// Created fresh per pass, filled by the reaction methods, then converted
/// destructively into a [`QueuedEvents`] batch for delivery.
pub struct EventGenerator {
    events: Vec<QueuedEvent>,
}

impl View for EventGenerator {
    type V = Seq<EventSpec>;

    closed spec fn view(&self) -> Seq<EventSpec> {
        events_view(self.events@)
    }
}

impl EventGenerator {
    /// A fresh generator with an empty queue.
    pub fn new() -> (r: Self)
        ensures
            r@ == Seq::<EventSpec>::empty(),
    {
        let events: Vec<QueuedEvent> = Vec::new();
        proof {
            assert(events_view(events@) =~= Seq::<EventSpec>::empty());
        }
        EventGenerator { events }
    }

    /// Detaches the accumulated queue into a delivery-ready batch, in
    /// generation order. Consumes the generator.
    pub fn into_result(self) -> (r: QueuedEvents)
        ensures
            r@ == self@,
    {
        QueuedEvents::from_events(self.events)
    }

    /// Appends one descriptor to the queue.
    fn push_event(&mut self, e: QueuedEvent)
        ensures
            final(self)@ == old(self)@ + seq![e@],
    {
        let ghost pre = self.events@;
        self.events.push(e);
        proof {
            assert(self.events@ == pre.push(e));
            assert(events_view(pre.push(e)) =~= events_view(pre) + seq![e@]);
        }
    }

    /// Reaction to a node having been added to the tree: an excluded node
    /// produces nothing; an included node with a name and an active live
    /// region announces itself.
    pub fn node_added(&mut self, node: &NodeView)
        ensures
            final(self)@ == old(self)@ + spec_node_added(node@),
    {
        if node.filter != FilterResult::Include {
            proof {
                assert(self@ =~= old(self)@ + spec_node_added(node@));
            }
            return;
        }
        if node.name.is_some() && node.live != Live::Off {
            self.push_event(QueuedEvent::live_region_announcement(node));
        }
        proof {
            assert(self@ =~= old(self)@ + spec_node_added(node@));
        }
    }

    /// Reaction to a node having been updated; both views carry the same
    /// identifier. An excluded new view suppresses every comparison;
    /// otherwise the title, value and text selection are compared by value
    /// and each change queues its descriptor, and the live region announces
    /// itself again on a name change, a live-setting change, or a
    /// transition of the node into inclusion.
    pub fn node_updated(&mut self, old_node: &NodeView, new_node: &NodeView)
        requires
            old_node@.id == new_node@.id,
        ensures
            final(self)@ == old(self)@ + spec_node_updated(old_node@, new_node@),
    {
        if new_node.filter != FilterResult::Include {
            proof {
                assert(self@ =~= old(self)@ + spec_node_updated(old_node@, new_node@));
            }
            return;
        }
        let node_id = new_node.id;
        let ghost g0 = self@;
        if !opt_string_eq(&old_node.title, &new_node.title) {
            self.push_event(
                QueuedEvent::Generic { node_id, notification: NotificationKind::TitleChanged },
            );
        }
        proof {
            assert(self@ =~= g0 + spec_title_delta(old_node@, new_node@));
        }
        let ghost g1 = self@;
        if !opt_string_eq(&old_node.value, &new_node.value) {
            self.push_event(
                QueuedEvent::Generic { node_id, notification: NotificationKind::ValueChanged },
            );
        }
        proof {
            assert(self@ =~= g1 + spec_value_delta(old_node@, new_node@));
        }
        let ghost g2 = self@;
        if old_node.supports_text_ranges && new_node.supports_text_ranges
            && !opt_selection_eq(&old_node.raw_text_selection, &new_node.raw_text_selection) {
            self.push_event(
                QueuedEvent::Generic { node_id, notification: NotificationKind::SelectionChanged },
            );
        }
        proof {
            assert(self@ =~= g2 + spec_selection_delta(old_node@, new_node@));
        }
        let ghost g3 = self@;
        if new_node.name.is_some() && new_node.live != Live::Off
            && (!opt_string_eq(&new_node.name, &old_node.name) || new_node.live != old_node.live
                || old_node.filter != FilterResult::Include) {
            self.push_event(QueuedEvent::live_region_announcement(new_node));
        }
        proof {
            assert(self@ =~= g3 + spec_live_delta(old_node@, new_node@));
            assert(self@ =~= old(self)@ + spec_node_updated(old_node@, new_node@));
        }
    }

    /// Reaction to the focus having moved: queues one focus-changed
    /// descriptor for the newly focused node if there is one and it passes
    /// the filter; focus loss alone is not announced.
    pub fn focus_moved(&mut self, _old_node: Option<&NodeView>, new_node: Option<&NodeView>)
        ensures
            final(self)@ == old(self)@ + spec_focus_moved(opt_node_view(new_node)),
    {
        match new_node {
            Option::Some(n) => {
                if n.filter != FilterResult::Include {
                    proof {
                        assert(self@ =~= old(self)@ + spec_focus_moved(opt_node_view(new_node)));
                    }
                    return;
                }
                self.push_event(
                    QueuedEvent::Generic {
                        node_id: n.id,
                        notification: NotificationKind::FocusChanged,
                    },
                );
                proof {
                    assert(self@ =~= old(self)@ + spec_focus_moved(opt_node_view(new_node)));
                }
            },
            Option::None => {
                proof {
                    assert(self@ =~= old(self)@ + spec_focus_moved(opt_node_view(new_node)));
                }
            },
        }
    }

    /// Reaction to a node having been removed from the tree: always queues
    /// exactly one destruction descriptor, whatever the node's filter status,
    /// so a client never keeps a dangling reference to a vanished node.
    pub fn node_removed(&mut self, node: &NodeView)
        ensures
            final(self)@ == old(self)@ + spec_node_removed(node@),
    {
        self.push_event(QueuedEvent::NodeDestroyed(node.id));
    }
}

} // verus!
