//! The trace pipeline.

use crate::config::{default_builder_view, Config, ConfigBuilder, DataType, Protocol};
use crate::environment::{resolved, Environment};
use crate::error::OtlpExporterError;
use crate::exporter::trace::TraceExporter;
use crate::pipeline::Pipeline;
use crate::text::join2;
use vstd::prelude::*;

verus! {

/// Start of the message that refuses a simple installation over HTTP.
pub const SIMPLE_INSTALL_PREFIX: &'static str = "install_simple can't be worked with ";

/// End of the message that refuses a simple installation over HTTP.
pub const SIMPLE_INSTALL_SUFFIX: &'static str = ", use install_batch with tokio instead";

/// The message that refuses a simple installation over `protocol`.
pub open spec fn simple_install_message(protocol: Protocol) -> Seq<char> {
    SIMPLE_INSTALL_PREFIX@ + protocol.name() + SIMPLE_INSTALL_SUFFIX@
}

/// Whether a simple installation, which exports each span as it ends, can
/// work over `protocol`: over gRPC it can; over HTTP it cannot, and asking
/// for it is an unsupported operation.
pub fn check_simple_install(protocol: Protocol) -> (r: Result<(), OtlpExporterError>)
    ensures
        match protocol {
            Protocol::Grpc => r is Ok,
            _ => r matches Err(OtlpExporterError::Unsupported(m)) && m@
                == simple_install_message(protocol),
        },
{
    match protocol {
        Protocol::Grpc => Ok(()),
        _ => {
            let name = protocol.to_string();
            Err(
                OtlpExporterError::Unsupported(
                    join2(SIMPLE_INSTALL_PREFIX, name.as_str()).concat(SIMPLE_INSTALL_SUFFIX),
                ),
            )
        },
    }
}

/// What a trace pipeline is installed from: the protocol, the exporter, and
/// the tracer settings where some were given.
pub struct TraceInstallation<T> {
    /// The protocol that the configuration resolved to.
    pub protocol: Protocol,
    /// The exporter.
    pub exporter: TraceExporter,
    /// The settings of the tracer provider, where some were given.
    pub tracer_config: Option<T>,
}

/// Whether `r` is what a simple installation makes of the prepared
/// installation `prepared`.
///
/// A failure of the preparation is handed on. An installation over gRPC goes
/// through as it is. One over HTTP is refused, exactly then, as an
/// unsupported operation that names the protocol.
pub open spec fn is_simple_result<T>(
    r: Result<TraceInstallation<T>, OtlpExporterError>,
    prepared: Result<TraceInstallation<T>, OtlpExporterError>,
) -> bool {
    match prepared {
        Err(e) => r == Err::<TraceInstallation<T>, OtlpExporterError>(e),
        Ok(installation) => if installation.protocol == Protocol::Grpc {
            r == Ok::<TraceInstallation<T>, OtlpExporterError>(installation)
        } else {
            r matches Err(OtlpExporterError::Unsupported(m)) && m@ == simple_install_message(
                installation.protocol,
            )
        },
    }
}

/// What a simple installation makes of a prepared installation: see
/// [`is_simple_result`].
pub fn simple_install_result<T>(prepared: Result<TraceInstallation<T>, OtlpExporterError>) -> (r:
    Result<TraceInstallation<T>, OtlpExporterError>)
    ensures
        is_simple_result(r, prepared),
{
    match prepared {
        Err(e) => Err(e),
        Ok(installation) => match check_simple_install(installation.protocol) {
            Ok(()) => Ok(installation),
            Err(e) => Err(e),
        },
    }
}

/// Collects the settings of a trace exporter and of its tracer provider. The
/// tracer settings, of type `T`, are kept for the caller and never looked
/// into.
pub struct TracePipeline<T> {
    config_builder: ConfigBuilder,
    tracer_config: Option<T>,
}

impl<T> TracePipeline<T> {
    /// The exporter settings collected so far.
    pub closed spec fn spec_config_builder(&self) -> &ConfigBuilder {
        &self.config_builder
    }

    /// The tracer settings, where some were given.
    pub closed spec fn spec_tracer_config(&self) -> Option<T> {
        self.tracer_config
    }

    /// The exporter settings collected so far.
    #[verifier::when_used_as_spec(spec_config_builder)]
    pub fn config_builder(&self) -> (r: &ConfigBuilder)
        ensures
            r == self.spec_config_builder(),
    {
        &self.config_builder
    }

    /// Resolves the exporter settings against the environment `env`, for
    /// traces.
    pub fn with_env(self, env: &Environment) -> (r: TracePipeline<T>)
        ensures
            r.spec_config_builder()@ == resolved(
                self.spec_config_builder()@,
                Some(DataType::Trace),
                env@,
            ),
            r.spec_tracer_config() == self.spec_tracer_config(),
    {
        TracePipeline {
            config_builder: self.config_builder.with_env(Some(DataType::Trace), env),
            tracer_config: self.tracer_config,
        }
    }

    /// Replaces the exporter settings by `config_builder`.
    pub fn with_config_builder(self, config_builder: ConfigBuilder) -> (r: TracePipeline<T>)
        ensures
            *r.spec_config_builder() == config_builder,
            r.spec_tracer_config() == self.spec_tracer_config(),
    {
        TracePipeline { config_builder, tracer_config: self.tracer_config }
    }

    /// Replaces the exporter settings by what `customizer` makes of them.
    pub fn with_config_builder_customizer<F: FnOnce(ConfigBuilder) -> ConfigBuilder>(
        self,
        customizer: F,
    ) -> (r: TracePipeline<T>)
        requires
            customizer.requires((*self.spec_config_builder(),)),
        ensures
            customizer.ensures((*self.spec_config_builder(),), *r.spec_config_builder()),
            r.spec_tracer_config() == self.spec_tracer_config(),
    {
        TracePipeline {
            config_builder: customizer(self.config_builder),
            tracer_config: self.tracer_config,
        }
    }

    /// Sets the settings of the tracer provider.
    pub fn with_tracer_config(self, tracer_config: T) -> (r: TracePipeline<T>)
        ensures
            *r.spec_config_builder() == *self.spec_config_builder(),
            r.spec_tracer_config() == Some(tracer_config),
    {
        TracePipeline { config_builder: self.config_builder, tracer_config: Some(tracer_config) }
    }

    /// Whether `r` is what preparing the installation of this pipeline
    /// gives: the settings are validated, then the exporter is made for the
    /// configuration, and both failures are handed on as they are.
    pub open spec fn is_prepared<F: Fn(&String) -> Result<String, std::io::Error>>(
        &self,
        r: Result<TraceInstallation<T>, OtlpExporterError>,
        read: &F,
    ) -> bool {
        match r {
            Ok(installation) => exists|config: Config|
                {
                    &&& crate::config::is_validated(
                        Ok(config),
                        crate::config::validated(
                            self.spec_config_builder()@,
                            crate::endpoint::parsed_uri(self.spec_config_builder()@.endpoint),
                        ),
                    )
                    &&& installation.protocol == config@.builder.protocol
                    &&& TraceExporter::is_made(Ok(installation.exporter), config, read)
                    &&& installation.tracer_config == self.spec_tracer_config()
                },
            Err(e) => crate::config::is_validated(
                Err(e),
                crate::config::validated(
                    self.spec_config_builder()@,
                    crate::endpoint::parsed_uri(self.spec_config_builder()@.endpoint),
                ),
            ) || (exists|config: Config|
                {
                    &&& crate::config::is_validated(
                        Ok(config),
                        crate::config::validated(
                            self.spec_config_builder()@,
                            crate::endpoint::parsed_uri(self.spec_config_builder()@.endpoint),
                        ),
                    )
                    &&& TraceExporter::is_made(Err(e), config, read)
                }),
        }
    }

    /// Prepares the installation: validates the settings and makes the
    /// exporter. `read` is what reads a file of TLS material.
    pub fn install<F: Fn(&String) -> Result<String, std::io::Error>>(self, read: &F) -> (r: Result<
        TraceInstallation<T>,
        OtlpExporterError,
    >)
        requires
            forall|path: &String| #[trigger] read.requires((path,)),
        ensures
            self.is_prepared(r, read),
    {
        let TracePipeline { config_builder, tracer_config } = self;
        let config = match config_builder.build() {
            Ok(config) => config,
            Err(e) => {
                return Err(e);
            },
        };
        let protocol = config.protocol();
        let exporter = match TraceExporter::try_from(config, read) {
            Ok(exporter) => exporter,
            Err(e) => {
                return Err(e);
            },
        };
        Ok(TraceInstallation { protocol, exporter, tracer_config })
    }

    /// Prepares an installation that exports each span as it ends: prepares
    /// the installation, and lets it through where it can work (see
    /// [`is_simple_result`]).
    pub fn install_simple<F: Fn(&String) -> Result<String, std::io::Error>>(self, read: &F) -> (r:
        Result<TraceInstallation<T>, OtlpExporterError>)
        requires
            forall|path: &String| #[trigger] read.requires((path,)),
        ensures
            exists|prepared: Result<TraceInstallation<T>, OtlpExporterError>| #[trigger]
                self.is_prepared(prepared, read) && is_simple_result(r, prepared),
    {
        let prepared = self.install(read);
        simple_install_result(prepared)
    }

    /// Prepares an installation that exports spans in batches. That works
    /// over every protocol.
    pub fn install_batch<F: Fn(&String) -> Result<String, std::io::Error>>(self, read: &F) -> (r:
        Result<TraceInstallation<T>, OtlpExporterError>)
        requires
            forall|path: &String| #[trigger] read.requires((path,)),
        ensures
            self.is_prepared(r, read),
    {
        self.install(read)
    }
}

impl Pipeline {
    /// Starts a trace pipeline, with the default settings.
    pub fn trace<T>(self) -> (r: TracePipeline<T>)
        ensures
            r.spec_config_builder()@ == default_builder_view(),
            r.spec_tracer_config() is None,
    {
        TracePipeline { config_builder: ConfigBuilder::default(), tracer_config: None }
    }
}

} // verus!
