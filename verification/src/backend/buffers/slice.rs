//! Windows of buffers, and mapping them for the host.
//!
//! Mapping takes two steps with the device in between. A slice first checks
//! that its buffer may be mapped in the mode asked for and, if so, returns
//! the mapping to ask the device for. When the device has answered, or
//! failed to, the mapping turns that into the result of the whole operation.

use super::err::{BufferMappingError, MapMode};
use super::usage::{BufferUsages, Capability};
use super::Buffer;
use crate::backend::traits::BufferType;
use crate::backend::util::MaterializedBound;
use vstd::prelude::*;

verus! {

/// A window of a buffer. It borrows the buffer and owns no memory.
pub struct BufferSlice<'a, T: BufferType> {
    buffer: &'a Buffer<T>,
    bound: MaterializedBound<usize>,
}

/// A window of a buffer that is to be mapped, or has been mapped, in one of
/// the two modes. It can only be had from a slice whose buffer allows the
/// mode.
#[derive(Copy, Clone, Debug, PartialEq, Eq)]
pub struct Mapping {
    mode: MapMode,
    offset: u64,
    size: u64,
}

/// How a request to map a window ended.
#[derive(Copy, Clone, Debug, PartialEq, Eq)]
pub enum MapCompletion {
    /// The device has mapped the window.
    Mapped,
    /// The device reported a failure.
    Failed,
    /// The sender of the notice went away without sending it.
    Canceled,
}

impl MapMode {
    /// The capability that a buffer needs to be mapped in this mode.
    pub open spec fn capability(self) -> Capability {
        match self {
            MapMode::Read => Capability::MapRead,
            MapMode::Write => Capability::MapWrite,
        }
    }

    /// The capability that a buffer needs to be mapped in this mode.
    pub fn needs(&self) -> (capability: Capability)
        ensures
            capability == self.capability(),
    {
        match self {
            MapMode::Read => Capability::MapRead,
            MapMode::Write => Capability::MapWrite,
        }
    }
}

/// Whether `r` is what asking for a mapping of `window` in the mode `mode`,
/// of a buffer with the flags `usage`, comes to: the mapping to ask the
/// device for where the flags grant what the mode needs, and the refusal for
/// want of it where they do not.
pub open spec fn answers_request(
    r: Result<Mapping, BufferMappingError>,
    usage: BufferUsages,
    mode: MapMode,
    window: (usize, usize),
) -> bool {
    match r {
        Ok(mapping) => {
            &&& usage.has(mode.capability())
            &&& mapping.view_mode() == mode
            &&& mapping.view_offset() == window.0
            &&& mapping.view_size() == window.1 - window.0
        },
        Err(error) => {
            &&& !usage.has(mode.capability())
            &&& error == BufferMappingError::InvalidBufferUsage(mode, usage)
        },
    }
}

impl Mapping {
    pub closed spec fn view_mode(self) -> MapMode {
        self.mode
    }

    pub closed spec fn view_offset(self) -> u64 {
        self.offset
    }

    pub closed spec fn view_size(self) -> u64 {
        self.size
    }

    /// The mode of the mapping.
    pub fn mode(&self) -> (mode: MapMode)
        ensures
            mode == self.view_mode(),
    {
        self.mode
    }

    /// Where the mapped window starts in the buffer, in bytes.
    pub fn offset(&self) -> (offset: u64)
        ensures
            offset == self.view_offset(),
    {
        self.offset
    }

    /// The length of the mapped window in bytes.
    pub fn size(&self) -> (size: u64)
        ensures
            size == self.view_size(),
    {
        self.size
    }

    /// The result of the mapping once the device has answered: the mapped
    /// window, or the error that tells a lost notice from a failure of the
    /// device.
    pub fn finish(self, completion: MapCompletion) -> (r: Result<Mapping, BufferMappingError>)
        ensures
            r == match completion {
                MapCompletion::Mapped => Ok::<Mapping, BufferMappingError>(self),
                MapCompletion::Failed => Err(BufferMappingError::BufferAsyncError),
                MapCompletion::Canceled => Err(BufferMappingError::FailedReceive),
            },
    {
        match completion {
            MapCompletion::Mapped => Ok(self),
            MapCompletion::Failed => Err(BufferMappingError::BufferAsyncError),
            MapCompletion::Canceled => Err(BufferMappingError::FailedReceive),
        }
    }
}

impl<'a, T: BufferType> BufferSlice<'a, T> {
    #[verifier::type_invariant]
    spec fn window_in_order(self) -> bool {
        self.bound@.0 <= self.bound@.1
    }

    /// The buffer that the slice is a window of.
    pub closed spec fn buffer(&self) -> Buffer<T> {
        *self.buffer
    }

    /// The window `[start, end)` of the slice, in bytes.
    pub closed spec fn window(&self) -> (usize, usize) {
        self.bound@
    }

    pub(crate) fn new(buffer: &'a Buffer<T>, bound: MaterializedBound<usize>) -> (slice: Self)
        requires
            bound@.0 <= bound@.1,
        ensures
            slice.buffer() == *buffer,
            slice.window() == bound@,
    {
        BufferSlice { buffer, bound }
    }

    /// The window of the slice.
    pub fn bound(&self) -> (bound: MaterializedBound<usize>)
        ensures
            bound@ == self.window(),
            bound@.0 <= bound@.1,
    {
        proof {
            use_type_invariant(self);
        }
        self.bound
    }

    fn request(&self, mode: MapMode) -> (r: Result<Mapping, BufferMappingError>)
        ensures
            answers_request(r, self.buffer().usage_flags(), mode, self.window()),
    {
        proof {
            use_type_invariant(self);
        }
        let usage = self.buffer.usage();
        if !usage.allows(mode.needs()) {
            return Err(BufferMappingError::InvalidBufferUsage(mode, usage));
        }
        let start: usize = self.bound.start();
        let end: usize = self.bound.end();
        Ok(Mapping { mode, offset: start as u64, size: (end - start) as u64 })
    }

    /// Checks that the buffer may be mapped for reading, and returns the
    /// mapping to ask the device for. A buffer without the capability is
    /// refused here, before the device is asked anything.
    pub fn try_map(&self) -> (r: Result<Mapping, BufferMappingError>)
        ensures
            answers_request(r, self.buffer().usage_flags(), MapMode::Read, self.window()),
    {
        self.request(MapMode::Read)
    }

    /// The mapping for reading, for callers who have made sure that the
    /// buffer allows it. A caller that Verus has not checked and that asks
    /// for a mapping which is not allowed is stopped by a panic.
    pub fn map(&self) -> (mapping: Mapping)
        requires
            self.buffer().usage_flags().has(Capability::MapRead),
        ensures
            answers_request(Ok(mapping), self.buffer().usage_flags(), MapMode::Read, self.window()),
    {
        match self.try_map() {
            Ok(mapping) => mapping,
            Err(_) => vstd::pervasive::unreached(),
        }
    }

    /// Checks that the buffer may be mapped for writing, and returns the
    /// mapping to ask the device for. A buffer without the capability is
    /// refused here, before the device is asked anything.
    pub fn try_map_mut(&self) -> (r: Result<Mapping, BufferMappingError>)
        ensures
            answers_request(r, self.buffer().usage_flags(), MapMode::Write, self.window()),
    {
        self.request(MapMode::Write)
    }

    /// The mapping for writing, for callers who have made sure that the
    /// buffer allows it. A caller that Verus has not checked and that asks
    /// for a mapping which is not allowed is stopped by a panic.
    pub fn map_mut(&self) -> (mapping: Mapping)
        requires
            self.buffer().usage_flags().has(Capability::MapWrite),
        ensures
            answers_request(
                Ok(mapping),
                self.buffer().usage_flags(),
                MapMode::Write,
                self.window(),
            ),
    {
        match self.try_map_mut() {
            Ok(mapping) => mapping,
            Err(_) => vstd::pervasive::unreached(),
        }
    }
}

/// Asking for a mapping of a buffer whose flags lack what the mode needs
/// ends in the refusal for its usage. No mapping comes of it, and so nothing
/// that the device could be asked or could fail at.
pub proof fn lemma_map_needs_capability(
    r: Result<Mapping, BufferMappingError>,
    usage: BufferUsages,
    mode: MapMode,
    window: (usize, usize),
)
    requires
        answers_request(r, usage, mode, window),
        !usage.has(mode.capability()),
    ensures
        r == Err::<Mapping, BufferMappingError>(BufferMappingError::InvalidBufferUsage(mode, usage)),
{
}

} // verus!
