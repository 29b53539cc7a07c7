//! The pipeline builders: a fluent way to collect the settings of a trace or
//! metric exporter before it is installed.

use vstd::prelude::*;

pub mod metric;
pub mod trace;

verus! {

/// Where every pipeline starts.
#[derive(Debug)]
pub struct Pipeline;

/// Create a pipeline builder.
pub fn new_pipeline() -> Pipeline {
    Pipeline
}

} // verus!
