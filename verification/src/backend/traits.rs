//! The element types of buffers.

use vstd::prelude::*;

verus! {

/// The types whose values a buffer can hold: values of a fixed size that own
/// nothing and borrow nothing, so that a run of them is a run of bytes.
pub trait BufferType: Copy + 'static {

}

impl<T: Copy + 'static> BufferType for T {

}

} // verus!
