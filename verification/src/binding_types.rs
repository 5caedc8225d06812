//! Descriptor types for binding sets, their layouts, and pipelines.
//!
//! A binding set is an ordered list of resource references exposed to a
//! program at fixed slot indices; its layout records the binding type derived
//! for each slot. The two lists always have the same length and the same
//! slot ordering — the invariant that prevents slot/type mismatches at
//! dispatch time — and both are immutable after creation.

use vstd::prelude::*;

use crate::resources::ImageFormat;

verus! {

/// One abstract binding descriptor handed to the binding-set builder,
/// referencing a registered resource by label.
#[derive(Debug)]
pub enum BindingItem {
    /// A buffer bound as storage, read-only or read-write; the buffer must
    /// be at least `min_size` bytes.
    StorageBuffer { label: String, min_size: u64, read_only: bool },
    /// A buffer bound as a uniform block of at least `min_size` bytes.
    UniformBuffer { label: String, min_size: u64 },
    /// An image bound for sampling through its default whole-image view.
    SampledImage { label: String },
    /// A sampler.
    Sampler { label: String },
    /// A registered image view (one mip level, or an aggregate of levels).
    ImageView { label: String },
    /// An image bound for direct storage access.
    StorageImage { label: String },
}

/// The binding type derived for one slot of a layout.
#[derive(Clone, Copy, Debug, PartialEq, Eq, Structural)]
pub enum BindingType {
    Uniform,
    Storage { read_only: bool },
    SampledImage,
    Sampler,
    ImageView,
    StorageImage,
}

/// One slot of a binding-set layout.
#[derive(Clone, Copy, Debug, PartialEq, Eq, Structural)]
pub struct LayoutEntry {
    pub slot: usize,
    pub binding_type: BindingType,
}

/// A binding-set layout: the derived binding type of every slot, in slot
/// order.
#[derive(Debug)]
pub struct LayoutDesc {
    pub entries: Vec<LayoutEntry>,
}

/// The registered resource a binding-set slot points at, by handle index
/// within the resource's kind.
#[derive(Clone, Copy, Debug, PartialEq, Eq, Structural)]
pub enum BoundResource {
    Buffer { index: usize },
    Image { index: usize },
    View { index: usize },
    Sampler { index: usize },
}

/// One slot of a concrete binding set.
#[derive(Clone, Copy, Debug, PartialEq, Eq, Structural)]
pub struct BindingEntry {
    pub slot: usize,
    pub resource: BoundResource,
}

/// A concrete binding set: its layout's handle index and one entry per slot,
/// in slot order.
#[derive(Debug)]
pub struct BindingSetDesc {
    pub layout: usize,
    pub entries: Vec<BindingEntry>,
}

/// Whether a pipeline dispatches compute work or draws.
#[derive(Clone, Copy, Debug, PartialEq, Eq, Structural)]
pub enum PipelineKind {
    Compute,
    Draw,
}

/// A compiled dispatch pipeline: a program entry point plus the binding sets
/// whose position in the list fixes their binding-set index.
#[derive(Debug)]
pub struct PipelineDesc {
    pub kind: PipelineKind,
    /// Handle index of the program the pipeline was compiled from.
    pub program: usize,
    /// Compute entry point, or the vertex entry point of a draw pipeline.
    pub entry_point: String,
    /// Fragment entry point; present exactly for draw pipelines.
    pub fragment_entry: Option<String>,
    /// Binding-set handle indices; position in the list is the binding-set
    /// index the pipeline was compiled against.
    pub binding_sets: Vec<usize>,
    /// Size in bytes of the small per-dispatch parameter block.
    pub param_block_size: u32,
    /// Color target formats of a draw pipeline; empty for compute.
    pub color_targets: Vec<ImageFormat>,
    /// Whether a draw pipeline consumes a vertex buffer.
    pub vertex_input: bool,
}

} // verus!
