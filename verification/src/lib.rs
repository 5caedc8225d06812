//! Device-side feature-extraction orchestration: a label registry for device
//! resources, binding-set and pipeline builders, the pass schedule of the
//! extraction pipeline, and the two-phase parallel stream-compaction protocol
//! that turns per-chunk result counts into one globally ordered output array.

pub mod binding;
pub mod binding_types;
pub mod error;
pub mod features;
pub mod geometry;
pub mod commands;
pub mod labels;
pub mod orb;
pub mod pipeline;
pub mod readback;
pub mod registry;
pub mod resources;
pub mod scan;
pub mod schedule;
pub mod scatter;
