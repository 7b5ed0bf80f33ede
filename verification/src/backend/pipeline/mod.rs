//! A compute pipeline in the making: its layout and the pipeline itself,
//! each held from the moment it is made until it is taken out.

use vstd::prelude::*;

pub mod config;

verus! {

/// Why a pipeline could not be run.
#[derive(Copy, Clone, Debug, PartialEq, Eq)]
pub enum PipelineExecutionError {
    /// The pipeline or its layout was asked for before it was made.
    UninitializedPipeline,
}

/// Holds a pipeline of type `P` and a pipeline layout of type `L`, either of
/// which may be missing.
pub struct ComputePipeline<P, L> {
    compute_pipeline: Option<P>,
    layout: Option<L>,
}

impl<P, L> ComputePipeline<P, L> {
    /// The pipeline that is held.
    pub closed spec fn held_pipeline(&self) -> Option<P> {
        self.compute_pipeline
    }

    /// The layout that is held.
    pub closed spec fn held_layout(&self) -> Option<L> {
        self.layout
    }

    /// The holder of nothing.
    pub fn construct() -> (holder: Self)
        ensures
            holder.held_pipeline() is None,
            holder.held_layout() is None,
    {
        ComputePipeline { compute_pipeline: None, layout: None }
    }

    /// Puts `layout` in place of the layout that was held.
    pub fn pipeline_layout(&mut self, layout: L)
        ensures
            final(self).held_layout() == Some(layout),
            final(self).held_pipeline() == old(self).held_pipeline(),
    {
        self.layout = Some(layout);
    }

    /// Puts `pipeline` in place of the pipeline that was held.
    pub fn pipeline(&mut self, pipeline: P)
        ensures
            final(self).held_pipeline() == Some(pipeline),
            final(self).held_layout() == old(self).held_layout(),
    {
        self.compute_pipeline = Some(pipeline);
    }

    /// Takes out the pipeline that was held, and holds none afterwards.
    pub fn get_pipeline(&mut self) -> (pipeline: Option<P>)
        ensures
            pipeline == old(self).held_pipeline(),
            final(self).held_pipeline() is None,
            final(self).held_layout() == old(self).held_layout(),
    {
        self.compute_pipeline.take()
    }

    /// Takes out the layout that was held, and holds none afterwards.
    pub fn get_layout(&mut self) -> (layout: Option<L>)
        ensures
            layout == old(self).held_layout(),
            final(self).held_layout() is None,
            final(self).held_pipeline() == old(self).held_pipeline(),
    {
        self.layout.take()
    }
}

} // verus!
