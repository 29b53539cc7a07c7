//! The metric pipeline.

use crate::config::{default_builder_view, ConfigBuilder, DataType};
use crate::environment::{resolved, Environment};
use crate::pipeline::Pipeline;
use vstd::prelude::*;

verus! {

/// Collects the settings of a metric exporter.
#[derive(Debug)]
pub struct MetricPipeline {
    config_builder: ConfigBuilder,
}

impl MetricPipeline {
    /// The settings collected so far.
    pub closed spec fn spec_config_builder(&self) -> &ConfigBuilder {
        &self.config_builder
    }

    /// The settings collected so far.
    #[verifier::when_used_as_spec(spec_config_builder)]
    pub fn config_builder(&self) -> (r: &ConfigBuilder)
        ensures
            r == self.spec_config_builder(),
    {
        &self.config_builder
    }

    /// Hands out the settings.
    pub fn into_config_builder(self) -> (r: ConfigBuilder)
        ensures
            r == *self.spec_config_builder(),
    {
        self.config_builder
    }

    /// Resolves the settings against the environment `env`, for metrics.
    pub fn with_env(self, env: &Environment) -> (r: MetricPipeline)
        ensures
            r.spec_config_builder()@ == resolved(
                self.spec_config_builder()@,
                Some(DataType::Metric),
                env@,
            ),
    {
        MetricPipeline { config_builder: self.config_builder.with_env(Some(DataType::Metric), env) }
    }

    /// Replaces the settings by `config_builder`.
    pub fn with_config_builder(self, config_builder: ConfigBuilder) -> (r: MetricPipeline)
        ensures
            *r.spec_config_builder() == config_builder,
    {
        MetricPipeline { config_builder }
    }

    /// Replaces the settings by what `customizer` makes of them.
    pub fn with_config_builder_customizer<F: FnOnce(ConfigBuilder) -> ConfigBuilder>(
        self,
        customizer: F,
    ) -> (r: MetricPipeline)
        requires
            customizer.requires((*self.spec_config_builder(),)),
        ensures
            customizer.ensures((*self.spec_config_builder(),), *r.spec_config_builder()),
    {
        MetricPipeline { config_builder: customizer(self.config_builder) }
    }
}

impl Pipeline {
    /// Starts a metric pipeline, with the default settings.
    pub fn metric(self) -> (r: MetricPipeline)
        ensures
            r.spec_config_builder()@ == default_builder_view(),
    {
        MetricPipeline { config_builder: ConfigBuilder::default() }
    }
}

} // verus!
