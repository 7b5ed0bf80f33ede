//! The ways in which a copy between buffers or a mapping of a buffer fails.

use super::usage::BufferUsages;
use crate::backend::util::Bounds;
use vstd::prelude::*;

verus! {

/// Why a copy between two buffers was refused.
#[derive(Copy, Clone, Debug, PartialEq, Eq)]
pub enum BufferCopyError {
    /// The two ranges name windows of different lengths.
    UnequalReferenceLengths(Bounds, Bounds),
    /// The source, whose flags these are, cannot be copied from.
    InvalidSourceBuffer(BufferUsages),
    /// The destination, whose flags these are, cannot be copied into.
    InvalidDestinationBuffer(BufferUsages),
}

/// The two ways of mapping a buffer for the host.
#[derive(Copy, Clone, Debug, PartialEq, Eq)]
pub enum MapMode {
    Read,
    Write,
}

/// Why a buffer could not be mapped.
#[derive(Copy, Clone, Debug, PartialEq, Eq)]
pub enum BufferMappingError {
    /// The buffer, whose flags these are, cannot be mapped in this mode.
    InvalidBufferUsage(MapMode, BufferUsages),
    /// The notice that the mapping was completed never came.
    FailedReceive,
    /// The device reported that the mapping failed.
    BufferAsyncError,
}

} // verus!
