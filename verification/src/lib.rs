//! Translates accessibility-tree diffs into platform notification events.
//!
//! An external diff engine walks a pair of tree snapshots and reports each
//! change to the [`generator::EventGenerator`], which applies the inclusion
//! filter, compares node attributes, and appends event descriptors to an
//! ordered queue. The finished queue is detached as a batch of
//! [`event::QueuedEvents`] and later consumed exactly once to drive
//! platform delivery; the delivery decisions are modelled in [`delivery`].

pub mod delivery;
pub mod event;
pub mod generator;
pub mod node;
