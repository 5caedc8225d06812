//! Descriptors and typed handles for the device resources the registry owns.
//!
//! The registry catalogues resources by string label; every other component
//! holds the typed handle returned at creation time, so label lookups happen
//! only while the pipeline is being constructed, never on the per-frame path.

use vstd::prelude::*;

verus! {

/// Usage flags a buffer is created with. A buffer bound as a binding-set
/// entry must carry the storage or uniform flag consistent with how the
/// binding set declares it.
#[derive(Clone, Copy, Debug, PartialEq, Eq, Structural)]
pub struct BufferUsage {
    pub storage: bool,
    pub uniform: bool,
    pub copy_src: bool,
    pub copy_dst: bool,
    pub map_read: bool,
    pub map_write: bool,
    pub vertex: bool,
}

/// Usage flags an image is created with.
#[derive(Clone, Copy, Debug, PartialEq, Eq, Structural)]
pub struct ImageUsage {
    pub texture_binding: bool,
    pub storage_binding: bool,
    pub render_attachment: bool,
    pub copy_src: bool,
    pub copy_dst: bool,
}

/// Pixel format of an image resource.
#[derive(Clone, Copy, Debug, PartialEq, Eq, Structural)]
pub enum ImageFormat {
    /// Four 8-bit channels; the format of the uploaded input image.
    Rgba8,
    /// One 16-bit channel; the format of every pyramid level.
    Gray16,
}

/// Filtering configuration of a sampler.
#[derive(Clone, Copy, Debug, PartialEq, Eq, Structural)]
pub enum FilterMode {
    Nearest,
    Linear,
}

/// A buffer resource: a size in bytes and its usage flags.
#[derive(Clone, Copy, Debug, PartialEq, Eq, Structural)]
pub struct BufferDesc {
    pub size: u64,
    pub usage: BufferUsage,
}

/// An image resource. A pyramid is one image whose `mip_levels` tiers halve
/// (with floor) in each dimension per level.
#[derive(Clone, Copy, Debug, PartialEq, Eq, Structural)]
pub struct ImageDesc {
    pub width: u32,
    pub height: u32,
    pub mip_levels: u32,
    pub format: ImageFormat,
    pub usage: ImageUsage,
}

/// A view over a contiguous run of mip levels of a registered image,
/// identified by the image's handle index.
#[derive(Clone, Copy, Debug, PartialEq, Eq, Structural)]
pub struct ImageViewDesc {
    pub image: usize,
    pub base_level: u32,
    pub level_count: u32,
}

/// A sampler resource.
#[derive(Clone, Copy, Debug, PartialEq, Eq, Structural)]
pub struct SamplerDesc {
    pub filter: FilterMode,
}

/// A loaded program: an opaque device-language blob keyed by label. The core
/// never interprets its contents; the entry points are declared out-of-band
/// when the program is loaded.
#[derive(Debug)]
pub struct ProgramDesc {
    pub entry_points: Vec<String>,
}

/// Handle to a registered buffer: its creation index in the registry.
#[derive(Clone, Copy, Debug, PartialEq, Eq, Structural)]
pub struct BufferHandle {
    pub index: usize,
}

/// Handle to a registered image.
#[derive(Clone, Copy, Debug, PartialEq, Eq, Structural)]
pub struct ImageHandle {
    pub index: usize,
}

/// Handle to a registered image view.
#[derive(Clone, Copy, Debug, PartialEq, Eq, Structural)]
pub struct ImageViewHandle {
    pub index: usize,
}

/// Handle to a registered sampler.
#[derive(Clone, Copy, Debug, PartialEq, Eq, Structural)]
pub struct SamplerHandle {
    pub index: usize,
}

/// Handle to a loaded program.
#[derive(Clone, Copy, Debug, PartialEq, Eq, Structural)]
pub struct ProgramHandle {
    pub index: usize,
}

/// Handle to a registered binding-set layout.
#[derive(Clone, Copy, Debug, PartialEq, Eq, Structural)]
pub struct LayoutHandle {
    pub index: usize,
}

/// Handle to a registered binding set.
#[derive(Clone, Copy, Debug, PartialEq, Eq, Structural)]
pub struct BindingSetHandle {
    pub index: usize,
}

/// Handle to a registered pipeline.
#[derive(Clone, Copy, Debug, PartialEq, Eq, Structural)]
pub struct PipelineHandle {
    pub index: usize,
}

} // verus!
