//! Verified core of a block visualizer that renders the latest blocks of a
//! chain as stacked geometry: a container bar sized by a block's gas limit, a
//! fill bar sized by its gas used, one marker per transaction along the stack
//! axis, and line segments connecting consecutive markers.
//!
//! The crate covers the three pieces with algorithmic content: parsing the
//! hex-encoded numeric fields of a fetched block, deduplicating blocks by
//! number against the already-rendered set, and computing the layout itself.
//! All layout arithmetic is exact: lengths and positions are integers counted
//! in layout units of 1/(20 * gas_limit) of the container's reference size,
//! so no rounding ever moves a marker.

pub mod block;
pub mod dedup;
pub mod engine;
pub mod hex;
pub mod layout;
