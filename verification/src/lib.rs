//! Configuration resolution and transport selection for an OTLP exporter.
//!
//! The library resolves an exporter's settings from compiled defaults, the
//! generic OTLP environment variables and the variables of one signal;
//! validates them into a configuration with a normalized endpoint; describes
//! the one transport client that the configuration calls for; and says, for
//! each export, what call to make and what its end means. It reads no
//! environment and no file and opens no connection itself: those are handed
//! in and handed out as values.

pub mod config;
pub mod converter;
pub mod endpoint;
pub mod environment;
pub mod error;
pub mod exporter;
pub mod headers;
pub mod pipeline;
pub mod text;

pub use pipeline::metric::MetricPipeline;
pub use pipeline::trace::TracePipeline;
pub use pipeline::{new_pipeline, Pipeline};
