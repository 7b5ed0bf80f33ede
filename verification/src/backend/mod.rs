//! The buffer and pipeline layer that sits directly above the device API.

pub mod buffers;
pub mod pipeline;
pub mod traits;
pub mod util;
