//! A pointer-driven XY control surface for a pair of independent parameters.
//!
//! The crate models the logic of a two-dimensional control bound to two
//! parameters: hit-testing and the drag-gesture state machine, the mapping
//! from pointer coordinates to normalized axis values, the transactional
//! begin/set/end write protocol with redundant-write suppression, and a
//! change-gated bridge that turns per-block effective values into timed
//! outbound control events.
//!
//! Values that a host would carry as floating point are carried here as
//! fixed-point integer ticks (see [`units`]), so that every mapping and
//! every decision is exact and fully specified.

pub mod bridge;
pub mod drag;
pub mod geometry;
pub mod param;
pub mod units;
pub mod widget;
