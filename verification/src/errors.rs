//! The error taxonomy: allocation and submission failures abort a build
//! with no resource exposed; access-arbitration errors are returned to
//! the caller of `request_access`; a signal-query failure is terminal
//! for the future that saw it.

use vstd::prelude::*;
use crate::image_types::Dimensions;
use crate::image_types::ImageLayout;

verus! {

/// Device or host memory was exhausted. Propagated, never retried
/// internally; surfaced by a failing completion-signal query as well.
#[derive(Clone, Copy, Debug, PartialEq, Eq, Structural)]
pub enum OomError {
    OutOfHostMemory,
    OutOfDeviceMemory,
}

/// Why an access request on an image resource was refused.
#[derive(Clone, Copy, Debug, PartialEq, Eq, Structural)]
pub enum AccessError {
    /// The expected layout differs from the resource's fixed layout and
    /// is not the `Undefined` sentinel.
    LayoutMismatch { requested: ImageLayout, allowed: ImageLayout },
    /// The resource never grants exclusive (write) access after it is
    /// built.
    ExclusiveAccessDenied,
    /// The upload's completion signal has not been observed yet.
    ResourceNotInitialized,
}

/// Why building an image resource failed. Any failure aborts the whole
/// build: no partially constructed resource reaches the caller.
#[derive(Clone, Copy, Debug, PartialEq, Eq, Structural)]
pub enum ImageCreationError {
    /// The device could not satisfy a memory request.
    AllocationFailure(OomError),
    /// The requested extent is degenerate or beyond the device limits.
    UnsupportedDimensions { dimensions: Dimensions },
    /// The device rejected the upload's command sequence.
    SubmissionFailure,
}

/// Why a queue refused a command sequence.
#[derive(Clone, Copy, Debug, PartialEq, Eq, Structural)]
pub enum SubmissionError {
    DeviceLost,
}

/// Why staging host data into a transfer-source buffer failed.
#[derive(Clone, Copy, Debug, PartialEq, Eq, Structural)]
pub enum StageError {
    /// Dimensions or format were not configured before staging.
    ConfigurationIncomplete,
    /// The staging buffer could not be allocated.
    AllocationFailure(OomError),
}

} // verus!
