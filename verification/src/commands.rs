//! The commands one run records into a short-lived batch.
//!
//! A command references registered resources through their handle indices;
//! the device bindings walk the list in order and translate each entry into
//! one encoder operation. Commands within one batch execute in program
//! order with respect to the resource hazards the device tracks, so a stage
//! that names the previous stage's output as its input is ordered after it
//! automatically.

use vstd::prelude::*;

verus! {

/// One recorded operation of a run's command batch.
#[derive(Clone, Copy, Debug, PartialEq, Eq, Structural)]
pub enum Command {
    /// Zero-fill a registered buffer.
    ClearBuffer { buffer: usize },
    /// Copy `size` bytes from one registered buffer to another.
    CopyBuffer { src: usize, dst: usize, size: u64 },
    /// One compute dispatch: a pipeline, the binding set for slot 0, the
    /// work-group grid, and the small per-dispatch parameter block (a stage
    /// parameter such as the pyramid level or scan round, and the detection
    /// threshold where the stage takes one).
    Dispatch {
        pipeline: usize,
        binding_set: usize,
        groups_x: u32,
        groups_y: u32,
        groups_z: u32,
        param: Option<u32>,
        threshold: Option<u32>,
    },
    /// One full-screen draw of a pipeline into a registered image view.
    Draw { pipeline: usize, binding_set: usize, target: usize },
    /// Request the asynchronous map of a host-readable staging buffer; the
    /// readback protocol then waits for its completion signal.
    MapStaging { staging: usize },
}

} // verus!
