//! The trace exporter: one of three backends, made once from a validated
//! configuration, which says for each export what call to make and what the
//! end of the call means.

use crate::config::{Config, Protocol, Timeout};
use crate::error::OtlpExporterError;
use crate::exporter::{
    encoder_of, first_fault, gen_metadata, gen_metadata_map, gen_trace_error, grpcio_channel,
    http_call, http_client, is_grpcio_channel, is_http_call, is_http_client, is_tonic_channel,
    is_wire_error, is_wire_form, metadata_entries, pairs_of, pairs_view, status_end,
    tonic_channel, trace_result_of, transport, transport_of, CallReply, Encoder, ExportCall,
    ExportFailure, GrpcioChannelSettings, HttpClientSettings, TonicChannelSettings,
    TransportImplementation,
};
use vstd::prelude::*;

verus! {

/// A trace exporter over gRPC by tonic.
#[derive(Debug)]
pub struct TonicTraceExporter {
    config: Config,
    metadata_map: tonic::metadata::MetadataMap,
    client: TonicChannelSettings,
}

impl TonicTraceExporter {
    /// The configuration the exporter was made from.
    pub closed spec fn spec_config(&self) -> &Config {
        &self.config
    }

    /// The metadata sent with every call.
    pub closed spec fn spec_metadata_map(&self) -> &tonic::metadata::MetadataMap {
        &self.metadata_map
    }

    /// What the exporter's channel is made with.
    pub closed spec fn spec_client(&self) -> &TonicChannelSettings {
        &self.client
    }

    /// Whether `r` is what making a tonic trace exporter from `config` gives.
    ///
    /// First the headers become metadata; then the channel is described. An
    /// exporter that comes back holds `config`, the headers in their wire
    /// form and the channel's settings. An error is that of the headers; that
    /// of the channel comes only where no header is unfit.
    pub open spec fn is_made<F: Fn(&String) -> Result<String, std::io::Error>>(
        r: Result<TonicTraceExporter, OtlpExporterError>,
        config: Config,
        read: &F,
    ) -> bool {
        match r {
            Ok(exporter) => {
                &&& *exporter.spec_config() == config
                &&& is_wire_form(
                    metadata_entries(*exporter.spec_metadata_map()),
                    config@.builder.headers,
                )
                &&& is_tonic_channel(Ok(*exporter.spec_client()), &config, read)
            },
            Err(e) => is_wire_error(e, config@.builder.headers) || (first_fault(
                pairs_of(config@.builder.headers),
            ).is_none() && is_tonic_channel(Err(e), &config, read)),
        }
    }

    /// Makes the exporter: see [`TonicTraceExporter::is_made`].
    pub fn try_new<F: Fn(&String) -> Result<String, std::io::Error>>(config: Config, read: &F) -> (r:
        Result<TonicTraceExporter, OtlpExporterError>)
        requires
            forall|path: &String| #[trigger] read.requires((path,)),
        ensures
            TonicTraceExporter::is_made(r, config, read),
    {
        let metadata_map = match gen_metadata_map(config.headers()) {
            Ok(map) => map,
            Err(e) => {
                return Err(e);
            },
        };
        let client = match tonic_channel(&config, read) {
            Ok(client) => client,
            Err(e) => {
                return Err(e);
            },
        };
        Ok(TonicTraceExporter { config, metadata_map, client })
    }

    /// What the exporter's channel is made with.
    #[verifier::when_used_as_spec(spec_client)]
    pub fn client(&self) -> (r: &TonicChannelSettings)
        ensures
            r == self.spec_client(),
    {
        &self.client
    }

    /// The configuration the exporter was made from.
    #[verifier::when_used_as_spec(spec_config)]
    pub fn config(&self) -> (r: &Config)
        ensures
            r == self.spec_config(),
    {
        &self.config
    }

    /// The metadata sent with every call.
    #[verifier::when_used_as_spec(spec_metadata_map)]
    pub fn metadata_map(&self) -> (r: &tonic::metadata::MetadataMap)
        ensures
            r == self.spec_metadata_map(),
    {
        &self.metadata_map
    }
}

/// A trace exporter over gRPC by grpcio.
#[derive(Debug)]
pub struct GrpcioTraceExporter {
    config: Config,
    client: GrpcioChannelSettings,
    metadata: Vec<(String, String)>,
}

impl GrpcioTraceExporter {
    /// The configuration the exporter was made from.
    pub closed spec fn spec_config(&self) -> &Config {
        &self.config
    }

    /// The metadata sent with every call, one pair for each header value.
    pub closed spec fn spec_metadata(&self) -> &Vec<(String, String)> {
        &self.metadata
    }

    /// What the exporter's channel is made with.
    pub closed spec fn spec_client(&self) -> &GrpcioChannelSettings {
        &self.client
    }

    /// Whether `r` is what making a grpcio trace exporter from `config`
    /// gives: the channel's settings and the headers as pairs, or the error
    /// of the channel.
    pub open spec fn is_made<F: Fn(&String) -> Result<String, std::io::Error>>(
        r: Result<GrpcioTraceExporter, OtlpExporterError>,
        config: Config,
        read: &F,
    ) -> bool {
        match r {
            Ok(exporter) => {
                &&& *exporter.spec_config() == config
                &&& pairs_view(exporter.spec_metadata()@) == pairs_of(config@.builder.headers)
                &&& is_grpcio_channel(Ok(*exporter.spec_client()), &config, read)
            },
            Err(e) => is_grpcio_channel(Err(e), &config, read),
        }
    }

    /// Makes the exporter: see [`GrpcioTraceExporter::is_made`].
    pub fn try_new<F: Fn(&String) -> Result<String, std::io::Error>>(config: Config, read: &F) -> (r:
        Result<GrpcioTraceExporter, OtlpExporterError>)
        requires
            forall|path: &String| #[trigger] read.requires((path,)),
        ensures
            GrpcioTraceExporter::is_made(r, config, read),
    {
        let client = match grpcio_channel(&config, read) {
            Ok(client) => client,
            Err(e) => {
                return Err(e);
            },
        };
        let metadata = gen_metadata(config.headers());
        Ok(GrpcioTraceExporter { config, client, metadata })
    }

    /// What the exporter's channel is made with.
    #[verifier::when_used_as_spec(spec_client)]
    pub fn client(&self) -> (r: &GrpcioChannelSettings)
        ensures
            r == self.spec_client(),
    {
        &self.client
    }

    /// The configuration the exporter was made from.
    #[verifier::when_used_as_spec(spec_config)]
    pub fn config(&self) -> (r: &Config)
        ensures
            r == self.spec_config(),
    {
        &self.config
    }

    /// The metadata sent with every call, one pair for each header value.
    #[verifier::when_used_as_spec(spec_metadata)]
    pub fn metadata(&self) -> (r: &Vec<(String, String)>)
        ensures
            r == self.spec_metadata(),
    {
        &self.metadata
    }
}

/// A trace exporter over HTTP.
#[derive(Debug)]
pub struct HttpTraceExporter {
    config: Config,
    encoder: Encoder,
    client: HttpClientSettings,
}

impl HttpTraceExporter {
    /// The configuration the exporter was made from.
    pub closed spec fn spec_config(&self) -> &Config {
        &self.config
    }

    /// How the exporter writes a batch into a request.
    pub closed spec fn spec_encoder(&self) -> Encoder {
        self.encoder
    }

    /// What the exporter's client is made with.
    pub closed spec fn spec_client(&self) -> &HttpClientSettings {
        &self.client
    }

    /// Whether `r` is what making an HTTP trace exporter from `config` with
    /// the encoder `encoder` gives: the client's settings, or the client's
    /// error.
    pub open spec fn is_made<F: Fn(&String) -> Result<String, std::io::Error>>(
        r: Result<HttpTraceExporter, OtlpExporterError>,
        config: Config,
        encoder: Encoder,
        read: &F,
    ) -> bool {
        match r {
            Ok(exporter) => {
                &&& *exporter.spec_config() == config
                &&& exporter.spec_encoder() == encoder
                &&& is_http_client(Ok(*exporter.spec_client()), &config, read)
            },
            Err(e) => is_http_client(Err(e), &config, read),
        }
    }

    /// Makes an exporter that writes binary protobuf.
    pub fn try_new_in_protobuf<F: Fn(&String) -> Result<String, std::io::Error>>(
        config: Config,
        read: &F,
    ) -> (r: Result<HttpTraceExporter, OtlpExporterError>)
        requires
            forall|path: &String| #[trigger] read.requires((path,)),
        ensures
            HttpTraceExporter::is_made(r, config, Encoder::Protobuf, read),
    {
        let client = match http_client(&config, read) {
            Ok(client) => client,
            Err(e) => {
                return Err(e);
            },
        };
        Ok(HttpTraceExporter { client, encoder: Encoder::Protobuf, config })
    }

    /// Makes an exporter that is to write JSON. It can be made; what it
    /// cannot do is export (see [`HttpTraceExporter::gen_request_builder`]).
    pub fn try_new_in_json<F: Fn(&String) -> Result<String, std::io::Error>>(
        config: Config,
        read: &F,
    ) -> (r: Result<HttpTraceExporter, OtlpExporterError>)
        requires
            forall|path: &String| #[trigger] read.requires((path,)),
        ensures
            HttpTraceExporter::is_made(r, config, Encoder::Json, read),
    {
        let client = match http_client(&config, read) {
            Ok(client) => client,
            Err(e) => {
                return Err(e);
            },
        };
        Ok(HttpTraceExporter { client, encoder: Encoder::Json, config })
    }

    /// What the exporter's client is made with.
    #[verifier::when_used_as_spec(spec_client)]
    pub fn client(&self) -> (r: &HttpClientSettings)
        ensures
            r == self.spec_client(),
    {
        &self.client
    }

    /// The configuration the exporter was made from.
    #[verifier::when_used_as_spec(spec_config)]
    pub fn config(&self) -> (r: &Config)
        ensures
            r == self.spec_config(),
    {
        &self.config
    }

    /// How the exporter writes a batch into a request.
    #[verifier::when_used_as_spec(spec_encoder)]
    pub fn encoder(&self) -> (r: Encoder)
        ensures
            r == self.spec_encoder(),
    {
        self.encoder
    }

    /// The request that carries one batch: a POST to the endpoint, the body
    /// in binary protobuf. An exporter that is to write JSON has no request
    /// to offer: it fails with an unsupported operation.
    pub fn gen_request_builder(&self) -> (r: Result<ExportCall, OtlpExporterError>)
        ensures
            is_http_call(r, self.spec_config()@.endpoint, self.spec_encoder()),
    {
        http_call(&self.config, self.encoder)
    }
}

/// Whether `r` is the result of a trace export whose call ended with `reply`,
/// under the timeout `timeout`.
///
/// A call that went through is a success. A gRPC status is judged by its
/// code (see [`trace_result_of`]): a cancelled call is a timeout that carries
/// `timeout`. An HTTP failure is handed on as it came.
pub open spec fn is_trace_result(
    reply: CallReply,
    timeout: Timeout,
    r: Result<(), ExportFailure>,
) -> bool {
    match reply {
        CallReply::Delivered => r is Ok,
        CallReply::Status(status) => r == trace_result_of(status_end(status), status, timeout),
        CallReply::HttpFailed(e) => r == Err::<(), ExportFailure>(
            ExportFailure::ExportFailed(OtlpExporterError::ReqwestError(e)),
        ),
    }
}

/// The result of a trace export whose call ended with `reply`: see
/// [`is_trace_result`].
pub fn trace_export_result(reply: CallReply, timeout: Timeout) -> (r: Result<(), ExportFailure>)
    ensures
        is_trace_result(reply, timeout, r),
{
    match reply {
        CallReply::Delivered => Ok(()),
        CallReply::Status(status) => gen_trace_error(status, timeout),
        CallReply::HttpFailed(e) => Err(
            ExportFailure::ExportFailed(OtlpExporterError::ReqwestError(e)),
        ),
    }
}

/// The trace exporter: exactly one of the three backends.
#[derive(Debug)]
pub enum TraceExporter {
    /// gRPC by tonic.
    Tonic(TonicTraceExporter),
    /// gRPC by grpcio.
    Grpcio(GrpcioTraceExporter),
    /// HTTP.
    Http(HttpTraceExporter),
}

impl From<TonicTraceExporter> for TraceExporter {
    fn from(exporter: TonicTraceExporter) -> (r: TraceExporter) {
        TraceExporter::Tonic(exporter)
    }
}

impl vstd::std_specs::convert::FromSpecImpl<TonicTraceExporter> for TraceExporter {
    open spec fn obeys_from_spec() -> bool {
        true
    }

    open spec fn from_spec(exporter: TonicTraceExporter) -> TraceExporter {
        TraceExporter::Tonic(exporter)
    }
}

impl From<GrpcioTraceExporter> for TraceExporter {
    fn from(exporter: GrpcioTraceExporter) -> (r: TraceExporter) {
        TraceExporter::Grpcio(exporter)
    }
}

impl vstd::std_specs::convert::FromSpecImpl<GrpcioTraceExporter> for TraceExporter {
    open spec fn obeys_from_spec() -> bool {
        true
    }

    open spec fn from_spec(exporter: GrpcioTraceExporter) -> TraceExporter {
        TraceExporter::Grpcio(exporter)
    }
}

impl From<HttpTraceExporter> for TraceExporter {
    fn from(exporter: HttpTraceExporter) -> (r: TraceExporter) {
        TraceExporter::Http(exporter)
    }
}

impl vstd::std_specs::convert::FromSpecImpl<HttpTraceExporter> for TraceExporter {
    open spec fn obeys_from_spec() -> bool {
        true
    }

    open spec fn from_spec(exporter: HttpTraceExporter) -> TraceExporter {
        TraceExporter::Http(exporter)
    }
}

impl TraceExporter {
    /// Whether `r` is what making a trace exporter from `config` gives.
    ///
    /// The backend is the one that the configuration resolved to, and no
    /// other: tonic or grpcio under gRPC, HTTP with the protocol's encoder
    /// under HTTP. What holds of the exporter, or of the error, is what holds
    /// for that backend.
    pub open spec fn is_made<F: Fn(&String) -> Result<String, std::io::Error>>(
        r: Result<TraceExporter, OtlpExporterError>,
        config: Config,
        read: &F,
    ) -> bool {
        match transport_of(config@.builder.protocol, config@.builder.grpc_impl) {
            TransportImplementation::Tonic => match r {
                Ok(TraceExporter::Tonic(exporter)) => TonicTraceExporter::is_made(
                    Ok(exporter),
                    config,
                    read,
                ),
                Ok(_) => false,
                Err(e) => TonicTraceExporter::is_made(Err(e), config, read),
            },
            TransportImplementation::Grpcio => match r {
                Ok(TraceExporter::Grpcio(exporter)) => GrpcioTraceExporter::is_made(
                    Ok(exporter),
                    config,
                    read,
                ),
                Ok(_) => false,
                Err(e) => GrpcioTraceExporter::is_made(Err(e), config, read),
            },
            TransportImplementation::Http => match r {
                Ok(TraceExporter::Http(exporter)) => HttpTraceExporter::is_made(
                    Ok(exporter),
                    config,
                    encoder_of(config@.builder.protocol),
                    read,
                ),
                Ok(_) => false,
                Err(e) => HttpTraceExporter::is_made(
                    Err(e),
                    config,
                    encoder_of(config@.builder.protocol),
                    read,
                ),
            },
        }
    }

    /// Makes the trace exporter for `config`: see [`TraceExporter::is_made`].
    /// `read` is what reads a file of TLS material.
    pub fn try_from<F: Fn(&String) -> Result<String, std::io::Error>>(config: Config, read: &F) -> (r:
        Result<TraceExporter, OtlpExporterError>)
        requires
            forall|path: &String| #[trigger] read.requires((path,)),
        ensures
            TraceExporter::is_made(r, config, read),
    {
        match transport(&config) {
            TransportImplementation::Tonic => match TonicTraceExporter::try_new(config, read) {
                Ok(exporter) => Ok(TraceExporter::Tonic(exporter)),
                Err(e) => Err(e),
            },
            TransportImplementation::Grpcio => match GrpcioTraceExporter::try_new(config, read) {
                Ok(exporter) => Ok(TraceExporter::Grpcio(exporter)),
                Err(e) => Err(e),
            },
            TransportImplementation::Http => {
                let made = match config.protocol() {
                    Protocol::HttpJson => HttpTraceExporter::try_new_in_json(config, read),
                    _ => HttpTraceExporter::try_new_in_protobuf(config, read),
                };
                match made {
                    Ok(exporter) => Ok(TraceExporter::Http(exporter)),
                    Err(e) => Err(e),
                }
            },
        }
    }

    /// The configuration the exporter was made from.
    pub open spec fn spec_config(&self) -> &Config {
        match self {
            TraceExporter::Tonic(exporter) => exporter.spec_config(),
            TraceExporter::Grpcio(exporter) => exporter.spec_config(),
            TraceExporter::Http(exporter) => exporter.spec_config(),
        }
    }

    /// The configuration the exporter was made from.
    #[verifier::when_used_as_spec(spec_config)]
    pub fn config(&self) -> (r: &Config)
        ensures
            r == self.spec_config(),
    {
        match self {
            TraceExporter::Tonic(exporter) => exporter.config(),
            TraceExporter::Grpcio(exporter) => exporter.config(),
            TraceExporter::Http(exporter) => exporter.config(),
        }
    }

    /// Whether `r` is the one wire call that this exporter makes for a batch.
    ///
    /// A gRPC exporter makes a unary call of its backend under the configured
    /// timeout; an HTTP exporter posts to the endpoint (see
    /// [`is_http_call`]).
    pub open spec fn is_call(&self, r: Result<ExportCall, OtlpExporterError>) -> bool {
        match self {
            TraceExporter::Tonic(exporter) => r == Ok::<ExportCall, OtlpExporterError>(
                ExportCall::Tonic { timeout: exporter.spec_config()@.builder.timeout },
            ),
            TraceExporter::Grpcio(exporter) => r == Ok::<ExportCall, OtlpExporterError>(
                ExportCall::Grpcio { timeout: exporter.spec_config()@.builder.timeout },
            ),
            TraceExporter::Http(exporter) => is_http_call(
                r,
                exporter.spec_config()@.endpoint,
                exporter.spec_encoder(),
            ),
        }
    }

    /// The one wire call to make for a batch: see [`TraceExporter::is_call`].
    pub fn export_call(&self) -> (r: Result<ExportCall, OtlpExporterError>)
        ensures
            self.is_call(r),
    {
        match self {
            TraceExporter::Tonic(exporter) => Ok(
                ExportCall::Tonic { timeout: exporter.config().timeout() },
            ),
            TraceExporter::Grpcio(exporter) => Ok(
                ExportCall::Grpcio { timeout: exporter.config().timeout() },
            ),
            TraceExporter::Http(exporter) => exporter.gen_request_builder(),
        }
    }

    /// The result of an export whose call ended with `reply`, under the
    /// configured timeout: see [`is_trace_result`].
    pub fn export_result(&self, reply: CallReply) -> (r: Result<(), ExportFailure>)
        ensures
            is_trace_result(reply, self.spec_config()@.builder.timeout, r),
    {
        trace_export_result(reply, self.config().timeout())
    }

    /// Flushes: there is nothing buffered here, so this succeeds and changes
    /// nothing.
    pub fn force_flush(&mut self) -> (r: Result<(), ExportFailure>)
        ensures
            r is Ok,
            *final(self) == *old(self),
    {
        Ok(())
    }

    /// Shuts down: there is nothing to release here, so this changes nothing.
    pub fn shutdown(&mut self)
        ensures
            *final(self) == *old(self),
    {
    }
}

} // verus!
