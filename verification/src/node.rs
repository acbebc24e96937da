//! Plain-value model of the node attributes the event generator reads.
//!
//! The external tree engine owns the real node representations (live nodes
//! and detached snapshots). The generator only ever reads a fixed set of
//! semantic attributes from them, plus the outcome of the inclusion filter,
//! so a node is presented to this library as a [`NodeView`]: one plain value
//! per attribute, computed identically from a live node or a snapshot.

use vstd::prelude::*;

verus! {

/// Stable identifier of a node, unique within a tree snapshot.
#[derive(Clone, Copy, PartialEq, Eq, Structural, Debug, Hash)]
pub struct NodeId(pub u64);

/// Live-region setting of a node: whether changes to its text should be
/// proactively announced, and how urgently.
#[derive(Clone, Copy, PartialEq, Eq, Structural, Debug)]
pub enum Live {
    Off,
    Polite,
    Assertive,
}

/// Outcome of the inclusion filter: whether a node is exposed to assistive
/// technology at all.
#[derive(Clone, Copy, PartialEq, Eq, Structural, Debug)]
pub enum FilterResult {
    Include,
    ExcludeNode,
    ExcludeSubtree,
}

/// One endpoint of a text selection: a node and a character offset in it.
#[derive(Clone, Copy, PartialEq, Eq, Structural, Debug)]
pub struct TextPosition {
    pub node: NodeId,
    pub character_index: usize,
}

/// A raw text selection, as a pair of endpoints.
#[derive(Clone, Copy, PartialEq, Eq, Structural, Debug)]
pub struct TextSelection {
    pub anchor: TextPosition,
    pub focus: TextPosition,
}

/// Snapshot of everything the event generator reads from one node: the
/// semantic attributes it compares, and the inclusion-filter outcome the
/// external predicate computed for this view.
///
/// The raw text selection is only meaningful when [`Self::supports_text_ranges`]
/// holds.
#[derive(Clone, Debug)]
pub struct NodeView {
    pub id: NodeId,
    pub name: Option<String>,
    pub live: Live,
    pub title: Option<String>,
    pub value: Option<String>,
    pub supports_text_ranges: bool,
    pub raw_text_selection: Option<TextSelection>,
    pub filter: FilterResult,
}

/// Mathematical model of a node view: text attributes as character sequences.
pub ghost struct NodeSpec {
    pub id: NodeId,
    pub name: Option<Seq<char>>,
    pub live: Live,
    pub title: Option<Seq<char>>,
    pub value: Option<Seq<char>>,
    pub supports_text_ranges: bool,
    pub raw_text_selection: Option<TextSelection>,
    pub filter: FilterResult,
}

impl View for NodeView {
    type V = NodeSpec;

    open spec fn view(&self) -> NodeSpec {
        NodeSpec {
            id: self.id,
            name: self.name.deep_view(),
            live: self.live,
            title: self.title.deep_view(),
            value: self.value.deep_view(),
            supports_text_ranges: self.supports_text_ranges,
            raw_text_selection: self.raw_text_selection,
            filter: self.filter,
        }
    }
}

/// Value equality of two optional strings.
pub fn opt_string_eq(a: &Option<String>, b: &Option<String>) -> (r: bool)
    ensures
        r == (a.deep_view() == b.deep_view()),
{
    match (a, b) {
        (Option::None, Option::None) => true,
        (Option::Some(x), Option::Some(y)) => *x == *y,
        _ => false,
    }
}

/// Value equality of two optional text selections.
pub fn opt_selection_eq(a: &Option<TextSelection>, b: &Option<TextSelection>) -> (r: bool)
    ensures
        r == (*a == *b),
{
    match (a, b) {
        (Option::None, Option::None) => true,
        (Option::Some(x), Option::Some(y)) => *x == *y,
        _ => false,
    }
}

} // verus!
