//! Error taxonomy of the pipeline core.
//!
//! Configuration errors are detected before any device work is submitted and
//! are fatal to the construction step that raised them; a failed creation
//! call never leaves a partial entry behind. Device errors surface at the
//! blocking readback point, the only place the host waits on device status.

use vstd::prelude::*;

verus! {

/// A construction-time configuration error: always raised before any device
/// submission, never silently ignored.
#[derive(Clone, Copy, Debug, PartialEq, Eq, Structural)]
pub enum ConfigError {
    /// A resource with the same label and kind is already registered.
    DuplicateLabel,
    /// A referenced label is not registered under the expected kind.
    LabelNotFound,
    /// A referenced resource is too small for the declared use, or a view
    /// range falls outside the resource it views.
    SizeMismatch,
    /// A pipeline option is outside the supported range (a zero image
    /// dimension, or a pyramid depth above the compiled maximum).
    InvalidConfig,
}

/// A device-side failure, fatal to the in-flight run; the caller must
/// rebuild the pipeline to recover from device loss.
#[derive(Clone, Copy, Debug, PartialEq, Eq, Structural)]
pub enum DeviceError {
    /// Submitting the command batch failed.
    SubmitFailed,
    /// The device was lost while the batch was in flight.
    DeviceLost,
    /// The asynchronous map of the staging buffer reported an error.
    MapFailed,
}

} // verus!
