//! Typed buffers in device memory: what they are made with, which windows
//! of them ranges name, and what a copy between two of them transfers.
//!
//! A [`Buffer`] stands for one allocation. It holds what decides the
//! operations on the allocation, its usage flags and its size in bytes, and
//! leaves the memory itself to the device. The functions here check an
//! operation and return what the device is to be asked for.

use super::traits::BufferType;
use super::util::{materialize, Bounds, Lengthed};
use core::marker::PhantomData;
use vstd::prelude::*;

pub mod err;
pub mod slice;
pub mod usage;

pub use err::{BufferCopyError, BufferMappingError, MapMode};
pub use slice::{BufferSlice, MapCompletion, Mapping};
pub use usage::{BufferUsages, Capability};

verus! {

/// A copy from one buffer into another: where it starts in the first, where
/// in the second, and how many bytes it moves.
#[derive(Copy, Clone, Debug, PartialEq, Eq)]
pub struct CopyInfo {
    pub first_start: u64,
    pub second_start: u64,
    pub size: u64,
}

/// One allocation of device memory that holds values of type `T`.
#[derive(Debug)]
pub struct Buffer<T: BufferType> {
    usage: BufferUsages,
    size: u64,
    _phantom: PhantomData<T>,
}

/// The length in bytes against which ranges over a buffer of `size` bytes
/// are resolved: `size`, or the largest `usize` where `size` is beyond it.
pub open spec fn addressable(size: u64) -> usize {
    if size <= usize::MAX {
        size as usize
    } else {
        usize::MAX
    }
}

/// What a copy of the window `src_range` of a source into the window
/// `dst_range` of a destination comes to. Each range is resolved against the
/// length of its own buffer.
///
/// The copy is refused if the source lacks the capability to be copied from,
/// else if the destination lacks the capability to be copied into, else if
/// the two windows differ in length.
pub open spec fn copy_plan(
    src_usage: BufferUsages,
    src_len: usize,
    src_range: Bounds,
    dst_usage: BufferUsages,
    dst_len: usize,
    dst_range: Bounds,
) -> Result<CopyInfo, BufferCopyError> {
    let first_start = src_range.window_start(src_len as int);
    let second_start = dst_range.window_start(dst_len as int);
    let src_size = src_range.window_end(src_len as int) - first_start;
    let dst_size = dst_range.window_end(dst_len as int) - second_start;
    if !src_usage.has(Capability::CopySrc) {
        Err(BufferCopyError::InvalidSourceBuffer(src_usage))
    } else if !dst_usage.has(Capability::CopyDst) {
        Err(BufferCopyError::InvalidDestinationBuffer(dst_usage))
    } else if src_size != dst_size {
        Err(BufferCopyError::UnequalReferenceLengths(src_range, dst_range))
    } else {
        Ok(
            CopyInfo {
                first_start: first_start as u64,
                second_start: second_start as u64,
                size: src_size as u64,
            },
        )
    }
}

impl<T: BufferType> Buffer<T> {
    /// The usage flags the buffer was made with.
    pub closed spec fn usage_flags(&self) -> BufferUsages {
        self.usage
    }

    /// The size of the buffer in bytes.
    pub closed spec fn byte_size(&self) -> u64 {
        self.size
    }

    /// The buffer of `size` bytes with the flags `usage`.
    pub fn new(usage: BufferUsages, size: u64) -> (buffer: Buffer<T>)
        ensures
            buffer.usage_flags() == usage,
            buffer.byte_size() == size,
    {
        Buffer { usage, size, _phantom: PhantomData }
    }

    pub fn usage(&self) -> (usage: BufferUsages)
        ensures
            usage == self.usage_flags(),
    {
        self.usage
    }

    pub fn size(&self) -> (size: u64)
        ensures
            size == self.byte_size(),
    {
        self.size
    }

    /// The window of this buffer that `range` names.
    pub fn slice(&self, range: Bounds) -> (slice: BufferSlice<'_, T>)
        ensures
            slice.buffer() == *self,
            slice.window().0 == range.window_start(self.length() as int),
            slice.window().1 == range.window_end(self.length() as int),
    {
        BufferSlice::new(self, materialize(range, self))
    }

    /// Checks a copy of the window `src_range` of this buffer into the window
    /// `dst_range` of `buffer`, and returns the copy to be carried out.
    /// Nothing is to be sent to the device where an error is returned.
    pub fn try_copy_to(&self, src_range: Bounds, buffer: &mut Buffer<T>, dst_range: Bounds) -> (r:
        Result<CopyInfo, BufferCopyError>)
        ensures
            *final(buffer) == *old(buffer),
            r == copy_plan(
                self.usage_flags(),
                self.length(),
                src_range,
                old(buffer).usage_flags(),
                old(buffer).length(),
                dst_range,
            ),
            r matches Ok(info) ==> info.first_start + info.size <= self.byte_size()
                && info.second_start + info.size <= old(buffer).byte_size(),
    {
        if !self.usage.allows(Capability::CopySrc) {
            return Err(BufferCopyError::InvalidSourceBuffer(self.usage));
        }
        if !buffer.usage.allows(Capability::CopyDst) {
            return Err(BufferCopyError::InvalidDestinationBuffer(buffer.usage));
        }
        let src_bound = materialize(src_range, self);
        let dst_bound = materialize(dst_range, &*buffer);
        let size: usize = src_bound.len();
        if size != dst_bound.len() {
            return Err(BufferCopyError::UnequalReferenceLengths(src_range, dst_range));
        }
        Ok(
            CopyInfo {
                first_start: src_bound.start() as u64,
                second_start: dst_bound.start() as u64,
                size: size as u64,
            },
        )
    }

    /// The copy of the window `src_range` of this buffer into the window
    /// `dst_range` of `buffer`, for callers who have made sure that it is
    /// allowed. A caller that Verus has not checked and that asks for a copy
    /// which is not allowed is stopped by a panic.
    pub fn copy_to(&self, src_range: Bounds, buffer: &mut Buffer<T>, dst_range: Bounds) -> (info:
        CopyInfo)
        requires
            copy_plan(
                self.usage_flags(),
                self.length(),
                src_range,
                old(buffer).usage_flags(),
                old(buffer).length(),
                dst_range,
            ) is Ok,
        ensures
            *final(buffer) == *old(buffer),
            Ok::<CopyInfo, BufferCopyError>(info) == copy_plan(
                self.usage_flags(),
                self.length(),
                src_range,
                old(buffer).usage_flags(),
                old(buffer).length(),
                dst_range,
            ),
    {
        match self.try_copy_to(src_range, buffer, dst_range) {
            Ok(info) => info,
            Err(_) => vstd::pervasive::unreached(),
        }
    }
}

impl<T: BufferType> Lengthed for Buffer<T> {
    /// The size of the buffer in bytes, as far as a `usize` can hold it.
    open spec fn length(&self) -> usize {
        addressable(self.byte_size())
    }

    fn len(&self) -> (n: usize) {
        if self.size <= usize::MAX as u64 {
            self.size as usize
        } else {
            usize::MAX
        }
    }
}

/// A copy from a source without the capability to be copied from, or into a
/// destination without the capability to be copied into, is refused for its
/// usage whatever the ranges are, so that no copy is handed out for it.
pub proof fn lemma_copy_needs_capabilities(
    src_usage: BufferUsages,
    src_len: usize,
    src_range: Bounds,
    dst_usage: BufferUsages,
    dst_len: usize,
    dst_range: Bounds,
)
    ensures
        !src_usage.has(Capability::CopySrc) ==> copy_plan(
            src_usage,
            src_len,
            src_range,
            dst_usage,
            dst_len,
            dst_range,
        ) == Err::<CopyInfo, BufferCopyError>(BufferCopyError::InvalidSourceBuffer(src_usage)),
        src_usage.has(Capability::CopySrc) && !dst_usage.has(Capability::CopyDst) ==> copy_plan(
            src_usage,
            src_len,
            src_range,
            dst_usage,
            dst_len,
            dst_range,
        ) == Err::<CopyInfo, BufferCopyError>(BufferCopyError::InvalidDestinationBuffer(dst_usage)),
{
}

/// Between buffers that have the capabilities, a copy is handed out if and
/// only if the two windows are equally long. It then starts where the
/// windows start, moves as many bytes as they hold and stays within both
/// buffers; otherwise it is refused for the unequal lengths.
pub proof fn lemma_copy_succeeds_iff_lengths_agree(
    src_usage: BufferUsages,
    src_len: usize,
    src_range: Bounds,
    dst_usage: BufferUsages,
    dst_len: usize,
    dst_range: Bounds,
)
    requires
        src_usage.has(Capability::CopySrc),
        dst_usage.has(Capability::CopyDst),
    ensures
        ({
            let plan = copy_plan(src_usage, src_len, src_range, dst_usage, dst_len, dst_range);
            let src_size = src_range.window_end(src_len as int) - src_range.window_start(
                src_len as int,
            );
            let dst_size = dst_range.window_end(dst_len as int) - dst_range.window_start(
                dst_len as int,
            );
            &&& plan is Ok <==> src_size == dst_size
            &&& src_size != dst_size ==> plan == Err::<CopyInfo, BufferCopyError>(
                BufferCopyError::UnequalReferenceLengths(src_range, dst_range),
            )
            &&& plan matches Ok(info) ==> {
                &&& info.first_start == src_range.window_start(src_len as int)
                &&& info.second_start == dst_range.window_start(dst_len as int)
                &&& info.size == src_size
                &&& info.first_start + info.size <= src_len
                &&& info.second_start + info.size <= dst_len
            }
        }),
{
}

} // verus!
