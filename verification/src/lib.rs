//! Typed GPU buffers and compute pipelines, with the rules that decide what
//! may be done to them stated as contracts and proved.
//!
//! The crate holds every decision the buffer and pipeline layer makes:
//! which operations a buffer's usage flags allow, which window of a buffer a
//! range expression names, what a copy between two buffers must transfer, how
//! the outcome of a mapping request is reported, and which compute pipelines a
//! builder hands to its handler under which key. Talking to the device is left
//! to the caller, who carries out what these functions return.

pub mod backend;
pub mod buffers;
pub mod label_map;
