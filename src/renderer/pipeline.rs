//! Settings for building render pipelines.
use vstd::prelude::*;

verus! {

/// Builder for render pipelines with sensible defaults.
pub struct PipelineBuilder {}

impl PipelineBuilder {
    pub fn new() -> (r: PipelineBuilder)
        ensures
            r == (PipelineBuilder {}),
    {
        PipelineBuilder {}
    }
}

impl Default for PipelineBuilder {
    fn default() -> (r: PipelineBuilder)
        ensures
            r == (PipelineBuilder {}),
    {
        PipelineBuilder::new()
    }
}

} // verus!
