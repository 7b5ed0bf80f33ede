//! The configuration of a pipeline: the entries of its bind group layout, in
//! the order in which they were written down.

use vstd::prelude::*;
use vstd::string::*;

pub mod inner_types;

pub use inner_types::BindGroupLayoutEntry;

verus! {

/// Why a configuration could not be loaded.
#[derive(Debug, PartialEq, Eq)]
pub enum PipelineLoadingError {
    /// The description could not be read; the text says why.
    IOError(String),
    /// The description does not have the shape of a configuration; the text
    /// says why.
    DeserializeError(String),
}

/// What is said of an entry that gives zero where a count or a size is
/// asked for.
pub open spec fn zero_message() -> Seq<char> {
    "expected a non-zero value"@
}

/// A loaded configuration. Every entry of it is in order, and it does not
/// change.
#[derive(Debug)]
pub struct PipelineConfiguration {
    layout_entries: Vec<BindGroupLayoutEntry>,
}

/// Whether every entry of `entries` is in order.
pub open spec fn all_valid(entries: Seq<BindGroupLayoutEntry>) -> bool {
    forall|i: int| 0 <= i < entries.len() ==> (#[trigger] entries[i]).valid()
}

impl View for PipelineConfiguration {
    type V = Seq<BindGroupLayoutEntry>;

    closed spec fn view(&self) -> Seq<BindGroupLayoutEntry> {
        self.layout_entries@
    }
}

impl PipelineConfiguration {
    #[verifier::type_invariant]
    spec fn entries_in_order(self) -> bool {
        all_valid(self.layout_entries@)
    }

    /// Makes the configuration of the decoded entries. The entries are kept
    /// as they are and in their order; they are refused as a whole if one of
    /// them gives zero for the length of its array or for the least size of
    /// its buffer binding. That two entries share a binding index is not
    /// looked at.
    pub fn from_entries(entries: Vec<BindGroupLayoutEntry>) -> (r: Result<
        PipelineConfiguration,
        PipelineLoadingError,
    >)
        ensures
            match r {
                Ok(configuration) => all_valid(entries@) && configuration@ == entries@,
                Err(PipelineLoadingError::DeserializeError(message)) => !all_valid(entries@)
                    && message@ == zero_message(),
                Err(PipelineLoadingError::IOError(_)) => false,
            },
    {
        let mut i: usize = 0;
        while i < entries.len()
            invariant
                i <= entries.len(),
                forall|j: int| 0 <= j < i ==> (#[trigger] entries@[j]).valid(),
            decreases entries.len() - i,
        {
            if !entries[i].is_valid() {
                return Err(
                    PipelineLoadingError::DeserializeError(
                        String::from_str("expected a non-zero value"),
                    ),
                );
            }
            i += 1;
        }
        Ok(PipelineConfiguration { layout_entries: entries })
    }

    /// The entries of the configuration, in their order.
    pub fn entries(&self) -> (entries: &[BindGroupLayoutEntry])
        ensures
            entries@ == self@,
            all_valid(entries@),
    {
        proof {
            use_type_invariant(self);
        }
        self.layout_entries.as_slice()
    }
}

} // verus!
