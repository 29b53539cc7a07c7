//! The metric exporter: one of three backends, made once from a validated
//! configuration, which says for each export what call to make and what the
//! end of the call means.

use crate::config::{Config, Protocol, Timeout};
use crate::error::OtlpExporterError;
use crate::exporter::{
    encoder_of, first_fault, gen_metadata, gen_metadata_map, gen_metric_error, grpcio_channel,
    http_call, http_client, is_grpcio_channel, is_http_call, is_http_client, is_tonic_channel,
    is_wire_error, is_wire_form, metadata_entries, metric_result_of, pairs_of, pairs_view,
    status_end, tonic_channel, transport, transport_of, CallReply, Encoder, ExportCall,
    ExportFailure, GrpcioChannelSettings, HttpClientSettings, TonicChannelSettings,
    TransportImplementation,
};
use vstd::prelude::*;

verus! {

/// The message that refuses a metric exporter which is to write JSON.
pub const METRIC_JSON_UNSUPPORTED_MESSAGE: &'static str =
    "exporting metrics over http/json is not supported";

/// A metric exporter over gRPC by tonic.
#[derive(Debug)]
pub struct TonicMetricExporter {
    metadata_map: tonic::metadata::MetadataMap,
    client: TonicChannelSettings,
}

impl TonicMetricExporter {
    /// The metadata sent with every call.
    pub closed spec fn spec_metadata_map(&self) -> &tonic::metadata::MetadataMap {
        &self.metadata_map
    }

    /// What the exporter's channel is made with.
    pub closed spec fn spec_client(&self) -> &TonicChannelSettings {
        &self.client
    }

    /// Whether `r` is what making a tonic metric exporter from `config`
    /// gives.
    ///
    /// First the headers become metadata; then the channel is described. An
    /// exporter that comes back holds the headers in their wire form and the
    /// channel's settings. An error is that of the headers; that of the
    /// channel comes only where no header is unfit.
    pub open spec fn is_made<F: Fn(&String) -> Result<String, std::io::Error>>(
        r: Result<TonicMetricExporter, OtlpExporterError>,
        config: Config,
        read: &F,
    ) -> bool {
        match r {
            Ok(exporter) => {
                &&& is_wire_form(
                    metadata_entries(*exporter.spec_metadata_map()),
                    config@.builder.headers,
                )
                &&& is_tonic_channel(Ok(*exporter.spec_client()), &config, read)
            },
            Err(e) => is_wire_error(e, config@.builder.headers) || (first_fault(
                pairs_of(config@.builder.headers),
            ).is_none() && is_tonic_channel(Err(e), &config, read)),
        }
    }

    /// Makes the exporter: see [`TonicMetricExporter::is_made`].
    pub fn try_new<F: Fn(&String) -> Result<String, std::io::Error>>(config: Config, read: &F) -> (r:
        Result<TonicMetricExporter, OtlpExporterError>)
        requires
            forall|path: &String| #[trigger] read.requires((path,)),
        ensures
            TonicMetricExporter::is_made(r, config, read),
    {
        let metadata_map = match gen_metadata_map(config.headers()) {
            Ok(map) => map,
            Err(e) => {
                return Err(e);
            },
        };
        let client = match tonic_channel(&config, read) {
            Ok(client) => client,
            Err(e) => {
                return Err(e);
            },
        };
        Ok(TonicMetricExporter { metadata_map, client })
    }

    /// What the exporter's channel is made with.
    #[verifier::when_used_as_spec(spec_client)]
    pub fn client(&self) -> (r: &TonicChannelSettings)
        ensures
            r == self.spec_client(),
    {
        &self.client
    }

    /// The metadata sent with every call.
    #[verifier::when_used_as_spec(spec_metadata_map)]
    pub fn metadata_map(&self) -> (r: &tonic::metadata::MetadataMap)
        ensures
            r == self.spec_metadata_map(),
    {
        &self.metadata_map
    }
}

/// A metric exporter over gRPC by grpcio.
#[derive(Debug)]
pub struct GrpcioMetricExporter {
    config: Config,
    client: GrpcioChannelSettings,
    metadata: Vec<(String, String)>,
}

impl GrpcioMetricExporter {
    /// The configuration the exporter was made from.
    pub closed spec fn spec_config(&self) -> &Config {
        &self.config
    }

    /// The metadata sent with every call, one pair for each header value.
    pub closed spec fn spec_metadata(&self) -> &Vec<(String, String)> {
        &self.metadata
    }

    /// What the exporter's channel is made with.
    pub closed spec fn spec_client(&self) -> &GrpcioChannelSettings {
        &self.client
    }

    /// Whether `r` is what making a grpcio metric exporter from `config`
    /// gives: the channel's settings and the headers as pairs, or the error
    /// of the channel.
    pub open spec fn is_made<F: Fn(&String) -> Result<String, std::io::Error>>(
        r: Result<GrpcioMetricExporter, OtlpExporterError>,
        config: Config,
        read: &F,
    ) -> bool {
        match r {
            Ok(exporter) => {
                &&& *exporter.spec_config() == config
                &&& pairs_view(exporter.spec_metadata()@) == pairs_of(config@.builder.headers)
                &&& is_grpcio_channel(Ok(*exporter.spec_client()), &config, read)
            },
            Err(e) => is_grpcio_channel(Err(e), &config, read),
        }
    }

    /// Makes the exporter: see [`GrpcioMetricExporter::is_made`].
    pub fn try_new<F: Fn(&String) -> Result<String, std::io::Error>>(config: Config, read: &F) -> (r:
        Result<GrpcioMetricExporter, OtlpExporterError>)
        requires
            forall|path: &String| #[trigger] read.requires((path,)),
        ensures
            GrpcioMetricExporter::is_made(r, config, read),
    {
        let client = match grpcio_channel(&config, read) {
            Ok(client) => client,
            Err(e) => {
                return Err(e);
            },
        };
        let metadata = gen_metadata(config.headers());
        Ok(GrpcioMetricExporter { config, client, metadata })
    }

    /// What the exporter's channel is made with.
    #[verifier::when_used_as_spec(spec_client)]
    pub fn client(&self) -> (r: &GrpcioChannelSettings)
        ensures
            r == self.spec_client(),
    {
        &self.client
    }

    /// The configuration the exporter was made from.
    #[verifier::when_used_as_spec(spec_config)]
    pub fn config(&self) -> (r: &Config)
        ensures
            r == self.spec_config(),
    {
        &self.config
    }

    /// The metadata sent with every call, one pair for each header value.
    #[verifier::when_used_as_spec(spec_metadata)]
    pub fn metadata(&self) -> (r: &Vec<(String, String)>)
        ensures
            r == self.spec_metadata(),
    {
        &self.metadata
    }
}

/// A metric exporter over HTTP.
#[derive(Debug)]
pub struct HttpMetricExporter {
    config: Config,
    encoder: Encoder,
    client: HttpClientSettings,
}

impl HttpMetricExporter {
    /// The configuration the exporter was made from.
    pub closed spec fn spec_config(&self) -> &Config {
        &self.config
    }

    /// How the exporter writes a batch into a request.
    pub closed spec fn spec_encoder(&self) -> Encoder {
        self.encoder
    }

    /// What the exporter's client is made with.
    pub closed spec fn spec_client(&self) -> &HttpClientSettings {
        &self.client
    }

    /// Whether `r` is what making an HTTP metric exporter that writes binary
    /// protobuf from `config` gives: the client's settings, or the client's
    /// error.
    pub open spec fn is_made<F: Fn(&String) -> Result<String, std::io::Error>>(
        r: Result<HttpMetricExporter, OtlpExporterError>,
        config: Config,
        read: &F,
    ) -> bool {
        match r {
            Ok(exporter) => {
                &&& *exporter.spec_config() == config
                &&& exporter.spec_encoder() == Encoder::Protobuf
                &&& is_http_client(Ok(*exporter.spec_client()), &config, read)
            },
            Err(e) => is_http_client(Err(e), &config, read),
        }
    }

    /// Whether `r` refuses a metric exporter that is to write JSON.
    pub open spec fn is_json_refusal(r: Result<HttpMetricExporter, OtlpExporterError>) -> bool {
        r matches Err(OtlpExporterError::Unsupported(m)) && m@ == METRIC_JSON_UNSUPPORTED_MESSAGE@
    }

    /// Makes an exporter that writes binary protobuf.
    pub fn try_new_in_protobuf<F: Fn(&String) -> Result<String, std::io::Error>>(
        config: Config,
        read: &F,
    ) -> (r: Result<HttpMetricExporter, OtlpExporterError>)
        requires
            forall|path: &String| #[trigger] read.requires((path,)),
        ensures
            HttpMetricExporter::is_made(r, config, read),
    {
        let client = match http_client(&config, read) {
            Ok(client) => client,
            Err(e) => {
                return Err(e);
            },
        };
        Ok(HttpMetricExporter { client, encoder: Encoder::Protobuf, config })
    }

    /// Metrics are not written as JSON: there is no such exporter to make,
    /// and asking for one is an unsupported operation, whatever `config`
    /// holds.
    pub fn try_new_in_json(config: Config) -> (r: Result<HttpMetricExporter, OtlpExporterError>)
        ensures
            HttpMetricExporter::is_json_refusal(r),
    {
        Err(OtlpExporterError::Unsupported(METRIC_JSON_UNSUPPORTED_MESSAGE.to_owned()))
    }

    /// What the exporter's client is made with.
    #[verifier::when_used_as_spec(spec_client)]
    pub fn client(&self) -> (r: &HttpClientSettings)
        ensures
            r == self.spec_client(),
    {
        &self.client
    }

    /// The configuration the exporter was made from.
    #[verifier::when_used_as_spec(spec_config)]
    pub fn config(&self) -> (r: &Config)
        ensures
            r == self.spec_config(),
    {
        &self.config
    }

    /// How the exporter writes a batch into a request.
    #[verifier::when_used_as_spec(spec_encoder)]
    pub fn encoder(&self) -> (r: Encoder)
        ensures
            r == self.spec_encoder(),
    {
        self.encoder
    }

    /// The request that carries one batch: a POST to the endpoint, the body
    /// in binary protobuf. An exporter that is to write JSON has no request
    /// to offer: it fails with an unsupported operation.
    pub fn gen_request_builder(&self) -> (r: Result<ExportCall, OtlpExporterError>)
        ensures
            is_http_call(r, self.spec_config()@.endpoint, self.spec_encoder()),
    {
        http_call(&self.config, self.encoder)
    }
}

/// The backend of a metric exporter: exactly one of the three.
#[derive(Debug)]
pub enum InnerMetricExporter {
    /// gRPC by tonic.
    Tonic(TonicMetricExporter),
    /// gRPC by grpcio.
    Grpcio(GrpcioMetricExporter),
    /// HTTP.
    Http(HttpMetricExporter),
}

impl From<TonicMetricExporter> for InnerMetricExporter {
    fn from(exporter: TonicMetricExporter) -> (r: InnerMetricExporter) {
        InnerMetricExporter::Tonic(exporter)
    }
}

impl vstd::std_specs::convert::FromSpecImpl<TonicMetricExporter> for InnerMetricExporter {
    open spec fn obeys_from_spec() -> bool {
        true
    }

    open spec fn from_spec(exporter: TonicMetricExporter) -> InnerMetricExporter {
        InnerMetricExporter::Tonic(exporter)
    }
}

impl From<GrpcioMetricExporter> for InnerMetricExporter {
    fn from(exporter: GrpcioMetricExporter) -> (r: InnerMetricExporter) {
        InnerMetricExporter::Grpcio(exporter)
    }
}

impl vstd::std_specs::convert::FromSpecImpl<GrpcioMetricExporter> for InnerMetricExporter {
    open spec fn obeys_from_spec() -> bool {
        true
    }

    open spec fn from_spec(exporter: GrpcioMetricExporter) -> InnerMetricExporter {
        InnerMetricExporter::Grpcio(exporter)
    }
}

impl From<HttpMetricExporter> for InnerMetricExporter {
    fn from(exporter: HttpMetricExporter) -> (r: InnerMetricExporter) {
        InnerMetricExporter::Http(exporter)
    }
}

impl vstd::std_specs::convert::FromSpecImpl<HttpMetricExporter> for InnerMetricExporter {
    open spec fn obeys_from_spec() -> bool {
        true
    }

    open spec fn from_spec(exporter: HttpMetricExporter) -> InnerMetricExporter {
        InnerMetricExporter::Http(exporter)
    }
}

impl InnerMetricExporter {
    /// Whether `r` is what making the backend of a metric exporter from
    /// `config` gives.
    ///
    /// The backend is the one that the configuration resolved to, and no
    /// other. Under HTTP with JSON there is none to make: the result is the
    /// failure of an unsupported operation.
    pub open spec fn is_made<F: Fn(&String) -> Result<String, std::io::Error>>(
        r: Result<InnerMetricExporter, OtlpExporterError>,
        config: Config,
        read: &F,
    ) -> bool {
        match transport_of(config@.builder.protocol, config@.builder.grpc_impl) {
            TransportImplementation::Tonic => match r {
                Ok(InnerMetricExporter::Tonic(exporter)) => TonicMetricExporter::is_made(
                    Ok(exporter),
                    config,
                    read,
                ),
                Ok(_) => false,
                Err(e) => TonicMetricExporter::is_made(Err(e), config, read),
            },
            TransportImplementation::Grpcio => match r {
                Ok(InnerMetricExporter::Grpcio(exporter)) => GrpcioMetricExporter::is_made(
                    Ok(exporter),
                    config,
                    read,
                ),
                Ok(_) => false,
                Err(e) => GrpcioMetricExporter::is_made(Err(e), config, read),
            },
            TransportImplementation::Http => if encoder_of(config@.builder.protocol)
                == Encoder::Json {
                r matches Err(OtlpExporterError::Unsupported(m)) && m@
                    == METRIC_JSON_UNSUPPORTED_MESSAGE@
            } else {
                match r {
                    Ok(InnerMetricExporter::Http(exporter)) => HttpMetricExporter::is_made(
                        Ok(exporter),
                        config,
                        read,
                    ),
                    Ok(_) => false,
                    Err(e) => HttpMetricExporter::is_made(Err(e), config, read),
                }
            },
        }
    }

    /// Makes the backend for `config`: see [`InnerMetricExporter::is_made`].
    pub fn try_new<F: Fn(&String) -> Result<String, std::io::Error>>(config: Config, read: &F) -> (r:
        Result<InnerMetricExporter, OtlpExporterError>)
        requires
            forall|path: &String| #[trigger] read.requires((path,)),
        ensures
            InnerMetricExporter::is_made(r, config, read),
    {
        match transport(&config) {
            TransportImplementation::Tonic => match TonicMetricExporter::try_new(config, read) {
                Ok(exporter) => Ok(InnerMetricExporter::Tonic(exporter)),
                Err(e) => Err(e),
            },
            TransportImplementation::Grpcio => match GrpcioMetricExporter::try_new(config, read) {
                Ok(exporter) => Ok(InnerMetricExporter::Grpcio(exporter)),
                Err(e) => Err(e),
            },
            TransportImplementation::Http => {
                let made = match config.protocol() {
                    Protocol::HttpJson => HttpMetricExporter::try_new_in_json(config),
                    _ => HttpMetricExporter::try_new_in_protobuf(config, read),
                };
                match made {
                    Ok(exporter) => Ok(InnerMetricExporter::Http(exporter)),
                    Err(e) => Err(e),
                }
            },
        }
    }

    /// The time allowed for each call: the configured timeout, which for the
    /// tonic backend is the one its channel was described with.
    pub open spec fn spec_timeout(&self) -> Timeout {
        match self {
            InnerMetricExporter::Tonic(exporter) => exporter.spec_client().timeout,
            InnerMetricExporter::Grpcio(exporter) => exporter.spec_config()@.builder.timeout,
            InnerMetricExporter::Http(exporter) => exporter.spec_config()@.builder.timeout,
        }
    }

    /// The time allowed for each call.
    #[verifier::when_used_as_spec(spec_timeout)]
    pub fn timeout(&self) -> (r: Timeout)
        ensures
            r == self.spec_timeout(),
    {
        match self {
            InnerMetricExporter::Tonic(exporter) => exporter.client().timeout,
            InnerMetricExporter::Grpcio(exporter) => exporter.config().timeout(),
            InnerMetricExporter::Http(exporter) => exporter.config().timeout(),
        }
    }

    /// Whether `r` is the one wire call that this backend makes for a batch.
    ///
    /// A gRPC backend makes a unary call of its kind under the configured
    /// timeout; the HTTP backend posts to the endpoint (see
    /// [`is_http_call`]).
    pub open spec fn is_call(&self, r: Result<ExportCall, OtlpExporterError>) -> bool {
        match self {
            InnerMetricExporter::Tonic(_) => r == Ok::<ExportCall, OtlpExporterError>(
                ExportCall::Tonic { timeout: self.spec_timeout() },
            ),
            InnerMetricExporter::Grpcio(_) => r == Ok::<ExportCall, OtlpExporterError>(
                ExportCall::Grpcio { timeout: self.spec_timeout() },
            ),
            InnerMetricExporter::Http(exporter) => is_http_call(
                r,
                exporter.spec_config()@.endpoint,
                exporter.spec_encoder(),
            ),
        }
    }

    /// The one wire call to make for a batch: see
    /// [`InnerMetricExporter::is_call`].
    pub fn export_call(&self) -> (r: Result<ExportCall, OtlpExporterError>)
        ensures
            self.is_call(r),
    {
        match self {
            InnerMetricExporter::Tonic(_) => Ok(ExportCall::Tonic { timeout: self.timeout() }),
            InnerMetricExporter::Grpcio(_) => Ok(ExportCall::Grpcio { timeout: self.timeout() }),
            InnerMetricExporter::Http(exporter) => exporter.gen_request_builder(),
        }
    }
}

/// Whether `r` is the result of a metric export whose call ended with
/// `reply`, under the timeout `timeout`.
///
/// A call that went through is a success. A gRPC status is judged by its
/// code (see [`metric_result_of`]): a cancelled call is a timeout that
/// carries `timeout`. An HTTP failure is handed on as it came.
pub open spec fn is_metric_result(
    reply: CallReply,
    timeout: Timeout,
    r: Result<(), ExportFailure>,
) -> bool {
    match reply {
        CallReply::Delivered => r is Ok,
        CallReply::Status(status) => r == metric_result_of(status_end(status), status, timeout),
        CallReply::HttpFailed(e) => r == Err::<(), ExportFailure>(
            ExportFailure::ExportFailed(OtlpExporterError::ReqwestError(e)),
        ),
    }
}

/// The result of a metric export whose call ended with `reply`: see
/// [`is_metric_result`].
pub fn metric_export_result(reply: CallReply, timeout: Timeout) -> (r: Result<(), ExportFailure>)
    ensures
        is_metric_result(reply, timeout, r),
{
    match reply {
        CallReply::Delivered => Ok(()),
        CallReply::Status(status) => gen_metric_error(status, timeout),
        CallReply::HttpFailed(e) => Err(
            ExportFailure::ExportFailed(OtlpExporterError::ReqwestError(e)),
        ),
    }
}

/// The metric exporter: a backend, and the two selectors that say how each
/// kind of instrument is aggregated and over what span of time. The
/// selectors are kept for the caller and never looked into.
#[derive(Debug)]
pub struct MetricExporter<AS, TS> {
    aggregator_selector: AS,
    temporality_selector: TS,
    inner: InnerMetricExporter,
}

impl<AS, TS> MetricExporter<AS, TS> {
    /// The selector of aggregations.
    pub closed spec fn spec_aggregator_selector(&self) -> &AS {
        &self.aggregator_selector
    }

    /// The selector of temporalities.
    pub closed spec fn spec_temporality_selector(&self) -> &TS {
        &self.temporality_selector
    }

    /// The backend.
    pub closed spec fn spec_inner(&self) -> &InnerMetricExporter {
        &self.inner
    }

    /// Whether `r` is what making a metric exporter from `config` and the two
    /// selectors gives: the selectors as they were handed in, around the
    /// backend that `config` resolved to (see
    /// [`InnerMetricExporter::is_made`]), or the error of making that
    /// backend.
    pub open spec fn is_made<F: Fn(&String) -> Result<String, std::io::Error>>(
        r: Result<MetricExporter<AS, TS>, OtlpExporterError>,
        config: Config,
        aggregator_selector: AS,
        temporality_selector: TS,
        read: &F,
    ) -> bool {
        match r {
            Ok(exporter) => {
                &&& *exporter.spec_aggregator_selector() == aggregator_selector
                &&& *exporter.spec_temporality_selector() == temporality_selector
                &&& InnerMetricExporter::is_made(Ok(*exporter.spec_inner()), config, read)
            },
            Err(e) => InnerMetricExporter::is_made(Err(e), config, read),
        }
    }

    /// Makes the metric exporter: see [`MetricExporter::is_made`]. `read` is
    /// what reads a file of TLS material.
    pub fn try_new<F: Fn(&String) -> Result<String, std::io::Error>>(
        config: Config,
        aggregator_selector: AS,
        temporality_selector: TS,
        read: &F,
    ) -> (r: Result<MetricExporter<AS, TS>, OtlpExporterError>)
        requires
            forall|path: &String| #[trigger] read.requires((path,)),
        ensures
            MetricExporter::is_made(r, config, aggregator_selector, temporality_selector, read),
    {
        let inner = match InnerMetricExporter::try_new(config, read) {
            Ok(inner) => inner,
            Err(e) => {
                return Err(e);
            },
        };
        Ok(MetricExporter { inner, aggregator_selector, temporality_selector })
    }

    /// The selector of aggregations.
    #[verifier::when_used_as_spec(spec_aggregator_selector)]
    pub fn aggregator_selector(&self) -> (r: &AS)
        ensures
            r == self.spec_aggregator_selector(),
    {
        &self.aggregator_selector
    }

    /// The selector of temporalities.
    #[verifier::when_used_as_spec(spec_temporality_selector)]
    pub fn temporality_selector(&self) -> (r: &TS)
        ensures
            r == self.spec_temporality_selector(),
    {
        &self.temporality_selector
    }

    /// The backend.
    #[verifier::when_used_as_spec(spec_inner)]
    pub fn inner(&self) -> (r: &InnerMetricExporter)
        ensures
            r == self.spec_inner(),
    {
        &self.inner
    }

    /// The one wire call to make for a batch: see
    /// [`InnerMetricExporter::is_call`].
    pub fn export_call(&self) -> (r: Result<ExportCall, OtlpExporterError>)
        ensures
            self.spec_inner().is_call(r),
    {
        self.inner.export_call()
    }

    /// The result of an export whose call ended with `reply`, under the
    /// configured timeout: see [`is_metric_result`].
    pub fn export_result(&self, reply: CallReply) -> (r: Result<(), ExportFailure>)
        ensures
            is_metric_result(reply, self.spec_inner().spec_timeout(), r),
    {
        metric_export_result(reply, self.inner.timeout())
    }

    /// Flushes: there is nothing buffered here, so this always succeeds.
    pub fn force_flush(&self) -> (r: Result<(), OtlpExporterError>)
        ensures
            r is Ok,
    {
        Ok(())
    }

    /// Shuts down: there is nothing to release here, so this always succeeds.
    pub fn shutdown(&self) -> (r: Result<(), OtlpExporterError>)
        ensures
            r is Ok,
    {
        Ok(())
    }
}

} // verus!
