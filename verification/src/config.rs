//! Exporter configuration: the builder that collects settings, and the
//! validated configuration that a transport client is made from.



use crate::endpoint::{
    endpoint_of, endpoint_valid, opt_view, parse_uri, parsed_uri, Endpoint, EndpointView,
    UriOutcome, UriPartsView, SCHEME_HTTPS,
};
use crate::error::OtlpExporterError;
use crate::headers::{appended, default_headers_view, replaced, Headers, HeadersView};

use vstd::prelude::*;

verus! {

/// Env key: OTEL_EXPORTER_OTLP_ENDPOINT
pub const OTEL_EXPORTER_OTLP_ENDPOINT: &'static str = "OTEL_EXPORTER_OTLP_ENDPOINT";

/// Env key: OTEL_EXPORTER_OTLP_TIMEOUT
pub const OTEL_EXPORTER_OTLP_TIMEOUT: &'static str = "OTEL_EXPORTER_OTLP_TIMEOUT";

/// Env key: OTEL_EXPORTER_OTLP_INSECURE
pub const OTEL_EXPORTER_OTLP_INSECURE: &'static str = "OTEL_EXPORTER_OTLP_INSECURE";

/// Env key: OTEL_EXPORTER_OTLP_CERTIFICATE
pub const OTEL_EXPORTER_OTLP_CERTIFICATE: &'static str = "OTEL_EXPORTER_OTLP_CERTIFICATE";

/// Env key: OTEL_EXPORTER_OTLP_CLIENT_KEY
pub const OTEL_EXPORTER_OTLP_CLIENT_KEY: &'static str = "OTEL_EXPORTER_OTLP_CLIENT_KEY";

/// Env key: OTEL_EXPORTER_OTLP_CLIENT_CERTIFICATE
pub const OTEL_EXPORTER_OTLP_CLIENT_CERTIFICATE: &'static str =
    "OTEL_EXPORTER_OTLP_CLIENT_CERTIFICATE";

/// Env key: OTEL_EXPORTER_OTLP_HEADERS
pub const OTEL_EXPORTER_OTLP_HEADERS: &'static str = "OTEL_EXPORTER_OTLP_HEADERS";

/// Env key: OTEL_EXPORTER_OTLP_PROTOCOL
pub const OTEL_EXPORTER_OTLP_PROTOCOL: &'static str = "OTEL_EXPORTER_OTLP_PROTOCOL";

/// Env key: OTEL_EXPORTER_OTLP_TRACES_ENDPOINT
pub const OTEL_EXPORTER_OTLP_TRACES_ENDPOINT: &'static str = "OTEL_EXPORTER_OTLP_TRACES_ENDPOINT";

/// Env key: OTEL_EXPORTER_OTLP_TRACES_TIMEOUT
pub const OTEL_EXPORTER_OTLP_TRACES_TIMEOUT: &'static str = "OTEL_EXPORTER_OTLP_TRACES_TIMEOUT";

/// Env key: OTEL_EXPORTER_OTLP_TRACES_INSECURE
pub const OTEL_EXPORTER_OTLP_TRACES_INSECURE: &'static str = "OTEL_EXPORTER_OTLP_TRACES_INSECURE";

/// Env key: OTEL_EXPORTER_OTLP_TRACES_CERTIFICATE
pub const OTEL_EXPORTER_OTLP_TRACES_CERTIFICATE: &'static str =
    "OTEL_EXPORTER_OTLP_TRACES_CERTIFICATE";

/// Env key: OTEL_EXPORTER_OTLP_TRACES_CLIENT_KEY
pub const OTEL_EXPORTER_OTLP_TRACES_CLIENT_KEY: &'static str =
    "OTEL_EXPORTER_OTLP_TRACES_CLIENT_KEY";

/// Env key: OTEL_EXPORTER_OTLP_TRACES_CLIENT_CERTIFICATE
pub const OTEL_EXPORTER_OTLP_TRACES_CLIENT_CERTIFICATE: &'static str =
    "OTEL_EXPORTER_OTLP_TRACES_CLIENT_CERTIFICATE";

/// Env key: OTEL_EXPORTER_OTLP_TRACES_HEADERS
pub const OTEL_EXPORTER_OTLP_TRACES_HEADERS: &'static str = "OTEL_EXPORTER_OTLP_TRACES_HEADERS";

/// Env key: OTEL_EXPORTER_OTLP_TRACES_PROTOCOL
pub const OTEL_EXPORTER_OTLP_TRACES_PROTOCOL: &'static str = "OTEL_EXPORTER_OTLP_TRACES_PROTOCOL";

/// Env key: OTEL_EXPORTER_OTLP_METRICS_ENDPOINT
pub const OTEL_EXPORTER_OTLP_METRICS_ENDPOINT: &'static str =
    "OTEL_EXPORTER_OTLP_METRICS_ENDPOINT";

/// Env key: OTEL_EXPORTER_OTLP_METRICS_TIMEOUT
pub const OTEL_EXPORTER_OTLP_METRICS_TIMEOUT: &'static str = "OTEL_EXPORTER_OTLP_METRICS_TIMEOUT";

/// Env key: OTEL_EXPORTER_OTLP_METRICS_INSECURE
pub const OTEL_EXPORTER_OTLP_METRICS_INSECURE: &'static str =
    "OTEL_EXPORTER_OTLP_METRICS_INSECURE";

/// Env key: OTEL_EXPORTER_OTLP_METRICS_CERTIFICATE
pub const OTEL_EXPORTER_OTLP_METRICS_CERTIFICATE: &'static str =
    "OTEL_EXPORTER_OTLP_METRICS_CERTIFICATE";

/// Env key: OTEL_EXPORTER_OTLP_METRICS_CLIENT_KEY
pub const OTEL_EXPORTER_OTLP_METRICS_CLIENT_KEY: &'static str =
    "OTEL_EXPORTER_OTLP_METRICS_CLIENT_KEY";

/// Env key: OTEL_EXPORTER_OTLP_METRICS_CLIENT_CERTIFICATE
pub const OTEL_EXPORTER_OTLP_METRICS_CLIENT_CERTIFICATE: &'static str =
    "OTEL_EXPORTER_OTLP_METRICS_CLIENT_CERTIFICATE";

/// Env key: OTEL_EXPORTER_OTLP_METRICS_HEADERS
pub const OTEL_EXPORTER_OTLP_METRICS_HEADERS: &'static str = "OTEL_EXPORTER_OTLP_METRICS_HEADERS";

/// Env key: OTEL_EXPORTER_OTLP_METRICS_PROTOCOL
pub const OTEL_EXPORTER_OTLP_METRICS_PROTOCOL: &'static str =
    "OTEL_EXPORTER_OTLP_METRICS_PROTOCOL";

/// Env key: OTEL_EXPORTER_OTLP_LOGS_ENDPOINT
pub const OTEL_EXPORTER_OTLP_LOGS_ENDPOINT: &'static str = "OTEL_EXPORTER_OTLP_LOGS_ENDPOINT";

/// Env key: OTEL_EXPORTER_OTLP_LOGS_TIMEOUT
pub const OTEL_EXPORTER_OTLP_LOGS_TIMEOUT: &'static str = "OTEL_EXPORTER_OTLP_LOGS_TIMEOUT";

/// Env key: OTEL_EXPORTER_OTLP_LOGS_INSECURE
pub const OTEL_EXPORTER_OTLP_LOGS_INSECURE: &'static str = "OTEL_EXPORTER_OTLP_LOGS_INSECURE";

/// Env key: OTEL_EXPORTER_OTLP_LOGS_CERTIFICATE
pub const OTEL_EXPORTER_OTLP_LOGS_CERTIFICATE: &'static str =
    "OTEL_EXPORTER_OTLP_LOGS_CERTIFICATE";

/// Env key: OTEL_EXPORTER_OTLP_LOGS_CLIENT_KEY
pub const OTEL_EXPORTER_OTLP_LOGS_CLIENT_KEY: &'static str = "OTEL_EXPORTER_OTLP_LOGS_CLIENT_KEY";

/// Env key: OTEL_EXPORTER_OTLP_LOGS_CLIENT_CERTIFICATE
pub const OTEL_EXPORTER_OTLP_LOGS_CLIENT_CERTIFICATE: &'static str =
    "OTEL_EXPORTER_OTLP_LOGS_CLIENT_CERTIFICATE";

/// Env key: OTEL_EXPORTER_OTLP_LOGS_HEADERS
pub const OTEL_EXPORTER_OTLP_LOGS_HEADERS: &'static str = "OTEL_EXPORTER_OTLP_LOGS_HEADERS";

/// Env key: OTEL_EXPORTER_OTLP_LOGS_PROTOCOL
pub const OTEL_EXPORTER_OTLP_LOGS_PROTOCOL: &'static str = "OTEL_EXPORTER_OTLP_LOGS_PROTOCOL";

/// The default timeout, in seconds.
pub const DEFAULT_TIMEOUT_SECS: u64 = 10;

/// OTLP default http endpoint
pub const DEFAULT_HTTP_ENDPOINT: &'static str = "http://localhost:4318";

/// OTLP default grpc endpoint
pub const DEFAULT_GRPC_ENDPOINT: &'static str = "localhost:4317";

/// Nanoseconds in one second.
pub const NANOS_PER_SEC: u128 = 1_000_000_000;

/// How long the exporter waits, for a connection and for each export call.
#[derive(Clone, Copy, Debug, PartialEq, Eq, Structural)]
pub struct Timeout {
    /// The whole span in nanoseconds.
    pub nanos: u128,
}

impl Timeout {
    /// A timeout of `secs` whole seconds.
    pub fn from_secs(secs: u64) -> (r: Timeout)
        ensures
            r.nanos == secs * NANOS_PER_SEC,
    {
        assert(secs * NANOS_PER_SEC <= u128::MAX) by (nonlinear_arith)
            requires
                secs <= u64::MAX,
                NANOS_PER_SEC == 1_000_000_000,
        ;
        Timeout { nanos: (secs as u128) * NANOS_PER_SEC }
    }

    /// A timeout of `millis` milliseconds.
    pub fn from_millis(millis: u64) -> (r: Timeout)
        ensures
            r.nanos == millis * 1_000_000,
    {
        assert(millis * 1_000_000 <= u128::MAX) by (nonlinear_arith)
            requires
                millis <= u64::MAX,
        ;
        Timeout { nanos: (millis as u128) * 1_000_000 }
    }

    /// The whole span in nanoseconds.
    pub fn as_nanos(&self) -> (n: u128)
        ensures
            n == self.nanos,
    {
        self.nanos
    }

    /// The whole seconds of the span, saturating at `u64::MAX`.
    pub fn as_secs(&self) -> (secs: u64)
        ensures
            secs == if self.nanos / NANOS_PER_SEC <= u64::MAX {
                self.nanos / NANOS_PER_SEC
            } else {
                u64::MAX as u128
            },
    {
        let secs = self.nanos / NANOS_PER_SEC;
        if secs <= u64::MAX as u128 {
            secs as u64
        } else {
            u64::MAX
        }
    }

    /// What is left of the span beyond its whole seconds, in nanoseconds.
    pub fn subsec_nanos(&self) -> (nanos: u32)
        ensures
            nanos == self.nanos % NANOS_PER_SEC,
    {
        (self.nanos % NANOS_PER_SEC) as u32
    }
}

/// The timeout a configuration starts with: ten seconds.
pub open spec fn default_timeout_spec() -> Timeout {
    Timeout { nanos: 10_000_000_000 }
}

/// The timeout a configuration starts with: ten seconds.
pub fn default_timeout() -> (r: Timeout)
    ensures
        r == default_timeout_spec(),
{
    Timeout::from_secs(DEFAULT_TIMEOUT_SECS)
}

/// Settings of the grpcio backend.
#[derive(Clone, Copy, Debug, PartialEq, Eq, Structural)]
pub struct GrpcioConfig {
    /// How many completion queues the backend's environment runs.
    pub cq_count: usize,
}

impl Default for GrpcioConfig {
    fn default() -> (r: GrpcioConfig)
        ensures
            r.cq_count == 2,
    {
        GrpcioConfig { cq_count: 2 }
    }
}

impl GrpcioConfig {
    /// How many completion queues the backend's environment runs.
    pub fn cq_count(&self) -> (n: usize)
        ensures
            n == self.cq_count,
    {
        self.cq_count
    }

    /// The same settings with `cq_count` completion queues.
    pub fn with_cq_count(self, cq_count: usize) -> (r: GrpcioConfig)
        ensures
            r.cq_count == cq_count,
    {
        GrpcioConfig { cq_count }
    }
}

/// Settings of the tonic backend: there are none yet.
#[derive(Clone, Copy, Debug, PartialEq, Eq, Structural)]
pub struct TonicConfig {}

impl Default for TonicConfig {
    fn default() -> (r: TonicConfig) {
        TonicConfig {}
    }
}

/// Which of the two gRPC backends carries gRPC traffic.
#[derive(Clone, Copy, Debug, PartialEq, Eq, Structural)]
pub enum GrpcImpl {
    /// The tonic backend.
    Tonic(TonicConfig),
    /// The grpcio backend.
    Grpcio(GrpcioConfig),
}

impl Default for GrpcImpl {
    fn default() -> (r: GrpcImpl)
        ensures
            r is Tonic,
    {
        GrpcImpl::Tonic(TonicConfig::default())
    }
}

impl GrpcImpl {
    /// The backend's name: `tonic` or `grpcio`.
    pub open spec fn name(self) -> Seq<char> {
        match self {
            GrpcImpl::Tonic(_) => "tonic"@,
            GrpcImpl::Grpcio(_) => "grpcio"@,
        }
    }

    /// The backend's name: `tonic` or `grpcio`.
    pub fn to_string(&self) -> (r: String)
        ensures
            r@ == self.name(),
    {
        match self {
            GrpcImpl::Tonic(_) => "tonic".to_owned(),
            GrpcImpl::Grpcio(_) => "grpcio".to_owned(),
        }
    }
}

/// The wire protocol an exporter speaks.
#[derive(Clone, Copy, Debug, PartialEq, Eq, Structural)]
pub enum Protocol {
    /// OTLP over gRPC.
    Grpc,
    /// OTLP over HTTP, payload in binary protobuf.
    HttpProtobuf,
    /// OTLP over HTTP, payload in JSON.
    HttpJson,
}

impl Protocol {
    /// The protocol's name, as the environment writes it.
    pub open spec fn name(self) -> Seq<char> {
        match self {
            Protocol::Grpc => "grpc"@,
            Protocol::HttpProtobuf => "http/protobuf"@,
            Protocol::HttpJson => "http/json"@,
        }
    }

    /// The protocol's name, as the environment writes it.
    pub fn to_string(&self) -> (r: String)
        ensures
            r@ == self.name(),
    {
        match self {
            Protocol::Grpc => "grpc".to_owned(),
            Protocol::HttpProtobuf => "http/protobuf".to_owned(),
            Protocol::HttpJson => "http/json".to_owned(),
        }
    }
}

/// The type of data for the OTLP exporter.
#[derive(Clone, Copy, Debug, PartialEq, Eq, Structural)]
pub enum DataType {
    /// Trace data.
    Trace,
    /// Metric data.
    Metric,
    /// Log data.
    Log,
}

/// The protocol used where nothing names one: http/protobuf.
pub open spec fn default_protocol_spec() -> Protocol {
    Protocol::HttpProtobuf
}

/// The protocol used where nothing names one: http/protobuf.
pub fn default_protocol() -> (r: Protocol)
    ensures
        r == default_protocol_spec(),
{
    Protocol::HttpProtobuf
}

/// The endpoint used for `protocol` where nothing names one.
pub open spec fn default_endpoint_spec(protocol: Protocol) -> Seq<char> {
    match protocol {
        Protocol::Grpc => DEFAULT_GRPC_ENDPOINT@,
        Protocol::HttpProtobuf => DEFAULT_HTTP_ENDPOINT@,
        Protocol::HttpJson => DEFAULT_HTTP_ENDPOINT@,
    }
}

/// The endpoint used for `protocol` where nothing names one.
pub fn default_endpoint(protocol: Protocol) -> (r: &'static str)
    ensures
        r@ == default_endpoint_spec(protocol),
{
    match protocol {
        Protocol::Grpc => DEFAULT_GRPC_ENDPOINT,
        Protocol::HttpProtobuf => DEFAULT_HTTP_ENDPOINT,
        Protocol::HttpJson => DEFAULT_HTTP_ENDPOINT,
    }
}

/// The headers a configuration starts with: the one that identifies this
/// library.
pub fn default_headers() -> (r: Headers)
    ensures
        r@ == default_headers_view(),
{
    Headers::default_set()
}

/// What a [`ConfigBuilder`] holds.
pub struct ConfigBuilderView {
    /// Where to send, as written.
    pub endpoint: Seq<char>,
    /// Whether an endpoint written without `http` or `https` is reached
    /// without transport security.
    pub insecure: bool,
    /// Path of the trusted certificate (PEM) used to verify the server.
    pub certificate_file: Option<Seq<char>>,
    /// Path of the client's private key (PEM) for mutual TLS.
    pub client_key_file: Option<Seq<char>>,
    /// Path of the client's certificate or chain (PEM) for mutual TLS.
    pub client_certificate_file: Option<Seq<char>>,
    /// Headers sent with every request.
    pub headers: HeadersView,
    /// How long to wait for each export.
    pub timeout: Timeout,
    /// The wire protocol.
    pub protocol: Protocol,
    /// The gRPC backend.
    pub grpc_impl: GrpcImpl,
    /// The name expected in the server's certificate, where it is not the
    /// endpoint's host.
    pub certificate_domain: Option<Seq<char>>,
}

/// The settings of a builder that nothing has changed yet.
pub open spec fn default_builder_view() -> ConfigBuilderView {
    ConfigBuilderView {
        endpoint: default_endpoint_spec(default_protocol_spec()),
        insecure: false,
        certificate_file: None,
        client_key_file: None,
        client_certificate_file: None,
        headers: default_headers_view(),
        timeout: default_timeout_spec(),
        protocol: default_protocol_spec(),
        grpc_impl: GrpcImpl::Tonic(TonicConfig {}),
        certificate_domain: None,
    }
}

/// Configuration builder for the OTLP exporter.
#[derive(Clone, Debug)]
pub struct ConfigBuilder {
    pub(crate) endpoint: String,
    pub(crate) insecure: bool,
    pub(crate) certificate_file: Option<String>,
    pub(crate) client_key_file: Option<String>,
    pub(crate) client_certificate_file: Option<String>,
    pub(crate) headers: Headers,
    pub(crate) timeout: Timeout,
    pub(crate) protocol: Protocol,
    pub(crate) grpc_impl: GrpcImpl,
    pub(crate) certificate_domain: Option<String>,
}

impl View for ConfigBuilder {
    type V = ConfigBuilderView;

    closed spec fn view(&self) -> ConfigBuilderView {
        ConfigBuilderView {
            endpoint: self.endpoint@,
            insecure: self.insecure,
            certificate_file: opt_view(self.certificate_file),
            client_key_file: opt_view(self.client_key_file),
            client_certificate_file: opt_view(self.client_certificate_file),
            headers: self.headers@,
            timeout: self.timeout,
            protocol: self.protocol,
            grpc_impl: self.grpc_impl,
            certificate_domain: opt_view(self.certificate_domain),
        }
    }
}

impl Default for ConfigBuilder {
    fn default() -> (r: ConfigBuilder)
        ensures
            r@ == default_builder_view(),
    {
        let protocol = default_protocol();
        ConfigBuilder {
            endpoint: default_endpoint(protocol).to_owned(),
            insecure: false,
            certificate_file: None,
            client_key_file: None,
            client_certificate_file: None,
            headers: default_headers(),
            timeout: default_timeout(),
            protocol,
            grpc_impl: GrpcImpl::default(),
            certificate_domain: None,
        }
    }
}

impl ConfigBuilder {
    /// What the view is, field by field.
    pub(crate) proof fn lemma_view(&self)
        ensures
            self@ == (ConfigBuilderView {
                endpoint: self.endpoint@,
                insecure: self.insecure,
                certificate_file: opt_view(self.certificate_file),
                client_key_file: opt_view(self.client_key_file),
                client_certificate_file: opt_view(self.client_certificate_file),
                headers: self.headers@,
                timeout: self.timeout,
                protocol: self.protocol,
                grpc_impl: self.grpc_impl,
                certificate_domain: opt_view(self.certificate_domain),
            }),
    {
    }

    /// Sets where to send.
    pub fn with_endpoint(self, endpoint: &str) -> (r: ConfigBuilder)
        ensures
            r@ == (ConfigBuilderView { endpoint: endpoint@, ..self@ }),
    {
        let mut b = self;
        b.endpoint = endpoint.to_owned();
        b
    }

    /// Sets whether an endpoint written without `http` or `https` is reached
    /// without transport security.
    pub fn with_insecure(self, insecure: bool) -> (r: ConfigBuilder)
        ensures
            r@ == (ConfigBuilderView { insecure, ..self@ }),
    {
        let mut b = self;
        b.insecure = insecure;
        b
    }

    /// Sets the path of the trusted certificate.
    pub fn with_certificate_file(self, certificate_file: &str) -> (r: ConfigBuilder)
        ensures
            r@ == (ConfigBuilderView { certificate_file: Some(certificate_file@), ..self@ }),
    {
        let mut b = self;
        b.certificate_file = Some(certificate_file.to_owned());
        b
    }

    /// Sets the path of the client's private key.
    pub fn with_client_key_file(self, client_key_file: &str) -> (r: ConfigBuilder)
        ensures
            r@ == (ConfigBuilderView { client_key_file: Some(client_key_file@), ..self@ }),
    {
        let mut b = self;
        b.client_key_file = Some(client_key_file.to_owned());
        b
    }

    /// Sets the path of the client's certificate.
    pub fn with_client_certificate_file(self, client_certificate_file: &str) -> (r: ConfigBuilder)
        ensures
            r@ == (ConfigBuilderView {
                client_certificate_file: Some(client_certificate_file@),
                ..self@
            }),
    {
        let mut b = self;
        b.client_certificate_file = Some(client_certificate_file.to_owned());
        b
    }

    /// Gives one more value for the header `name`.
    pub fn add_header(self, name: &str, value: &str) -> (r: ConfigBuilder)
        ensures
            r@ == (ConfigBuilderView {
                headers: appended(self@.headers, name@, value@),
                ..self@
            }),
    {
        let ConfigBuilder {
            endpoint,
            insecure,
            certificate_file,
            client_key_file,
            client_certificate_file,
            headers,
            timeout,
            protocol,
            grpc_impl,
            certificate_domain,
        } = self;
        ConfigBuilder {
            endpoint,
            insecure,
            certificate_file,
            client_key_file,
            client_certificate_file,
            headers: headers.add(name, value),
            timeout,
            protocol,
            grpc_impl,
            certificate_domain,
        }
    }

    /// Makes `value` the only value of the header `name`.
    pub fn replace_header(self, name: &str, value: &str) -> (r: ConfigBuilder)
        ensures
            r@ == (ConfigBuilderView {
                headers: replaced(self@.headers, name@, value@),
                ..self@
            }),
    {
        let ConfigBuilder {
            endpoint,
            insecure,
            certificate_file,
            client_key_file,
            client_certificate_file,
            headers,
            timeout,
            protocol,
            grpc_impl,
            certificate_domain,
        } = self;
        ConfigBuilder {
            endpoint,
            insecure,
            certificate_file,
            client_key_file,
            client_certificate_file,
            headers: headers.replace(name, value),
            timeout,
            protocol,
            grpc_impl,
            certificate_domain,
        }
    }

    /// Sets how long to wait for each export.
    pub fn with_timeout(self, timeout: Timeout) -> (r: ConfigBuilder)
        ensures
            r@ == (ConfigBuilderView { timeout, ..self@ }),
    {
        let mut b = self;
        b.timeout = timeout;
        b
    }

    /// Sets the wire protocol.
    pub fn with_protocol(self, protocol: Protocol) -> (r: ConfigBuilder)
        ensures
            r@ == (ConfigBuilderView { protocol, ..self@ }),
    {
        let mut b = self;
        b.protocol = protocol;
        b
    }

    /// Sets the gRPC backend.
    pub fn with_grpc_impl(self, grpc_impl: GrpcImpl) -> (r: ConfigBuilder)
        ensures
            r@ == (ConfigBuilderView { grpc_impl, ..self@ }),
    {
        let mut b = self;
        b.grpc_impl = grpc_impl;
        b
    }

    /// Sets the name expected in the server's certificate.
    pub fn with_certificate_domain(self, domain: &str) -> (r: ConfigBuilder)
        ensures
            r@ == (ConfigBuilderView { certificate_domain: Some(domain@), ..self@ }),
    {
        let mut b = self;
        b.certificate_domain = Some(domain.to_owned());
        b
    }
}

/// What a [`Config`] holds.
pub struct ConfigView {
    /// The normalized endpoint.
    pub endpoint: EndpointView,
    /// The settings the configuration was validated from.
    pub builder: ConfigBuilderView,
}

/// Start of the message that rejects an endpoint which is no URI.
pub const INVALID_ENDPOINT_PREFIX: &'static str = "endpoint[";

/// Middle of the message that rejects an endpoint which is no URI.
pub const INVALID_ENDPOINT_INFIX: &'static str = "] is not a valid uri: ";

/// The message for an endpoint that parses but names nobody to talk to.
pub const MISSING_AUTHORITY_MESSAGE: &'static str =
    "internal error! endpoint_parts should be valid: authority missing";

/// The message that rejects `endpoint`, which the parser refused with
/// `reason`.
pub open spec fn invalid_endpoint_message(endpoint: Seq<char>, reason: Seq<char>) -> Seq<char> {
    INVALID_ENDPOINT_PREFIX@ + endpoint + INVALID_ENDPOINT_INFIX@ + reason
}

/// What validating a builder gives, once its endpoint has been parsed with
/// the outcome `parsed`.
pub enum Validated {
    /// A configuration with this content.
    Valid(ConfigView),
    /// A configuration error with this message.
    Rejected(Seq<char>),
    /// An internal error with this message.
    Inconsistent(Seq<char>),
}

/// The rule of validation.
///
/// An endpoint that the parser refuses is a configuration error, whose
/// message holds the endpoint as written and the parser's reason. One that
/// parses is normalized (see [`endpoint_of`]); where that gives no endpoint
/// the error is an internal one. Everything but the endpoint is kept as the
/// builder has it.
pub open spec fn validated(
    builder: ConfigBuilderView,
    parsed: Result<UriPartsView, Seq<char>>,
) -> Validated {
    match parsed {
        Err(reason) => Validated::Rejected(invalid_endpoint_message(builder.endpoint, reason)),
        Ok(parts) => match endpoint_of(parts, builder.insecure) {
            Some(endpoint) => Validated::Valid(ConfigView { endpoint, builder }),
            None => Validated::Inconsistent(MISSING_AUTHORITY_MESSAGE@),
        },
    }
}

/// Whether the result `r` of a validation is what `expected` says.
pub open spec fn is_validated(r: Result<Config, OtlpExporterError>, expected: Validated) -> bool {
    match expected {
        Validated::Valid(view) => r matches Ok(config) && config@ == view && endpoint_valid(
            config@.endpoint,
        ),
        Validated::Rejected(message) => r matches Err(OtlpExporterError::ConfigError(m)) && m@
            == message,
        Validated::Inconsistent(message) => r matches Err(OtlpExporterError::UnknownError(m))
            && m@ == message,
    }
}

/// Configuration for the OTLP exporter.
#[derive(Clone, Debug)]
pub struct Config {
    endpoint: Endpoint,
    builder: ConfigBuilder,
}

impl View for Config {
    type V = ConfigView;

    closed spec fn view(&self) -> ConfigView {
        ConfigView { endpoint: self.endpoint@, builder: self.builder@ }
    }
}

impl ConfigBuilder {
    /// Validates the settings: parses the endpoint and normalizes it.
    ///
    /// The result is [`validated`] of the settings and of what the `http`
    /// crate's parser makes of the endpoint.
    pub fn build(self) -> (r: Result<Config, OtlpExporterError>)
        ensures
            is_validated(r, validated(self@, parsed_uri(self@.endpoint))),
    {
        Config::try_from(self)
    }
}

impl Config {
    /// Check if values in ConfigBuilder are valid.
    pub fn try_from(builder: ConfigBuilder) -> (r: Result<Config, OtlpExporterError>)
        ensures
            is_validated(r, validated(builder@, parsed_uri(builder@.endpoint))),
    {
        let parsed = parse_uri(builder.endpoint.as_str());
        Config::from_parsed(builder, parsed)
    }

    /// Validates `builder`, given the outcome `parsed` of parsing its endpoint.
    pub fn from_parsed(builder: ConfigBuilder, parsed: UriOutcome) -> (r: Result<
        Config,
        OtlpExporterError,
    >)
        ensures
            is_validated(r, validated(builder@, crate::endpoint::outcome_view(parsed))),
    {
        match parsed {
            Err(reason) => {
                let message = INVALID_ENDPOINT_PREFIX.to_owned().concat(
                    builder.endpoint.as_str(),
                ).concat(INVALID_ENDPOINT_INFIX).concat(reason.as_str());
                Err(OtlpExporterError::ConfigError(message))
            },
            Ok(parts) => match Endpoint::from_parts(parts, builder.insecure) {
                Some(endpoint) => Ok(Config { endpoint, builder }),
                None => Err(OtlpExporterError::UnknownError(MISSING_AUTHORITY_MESSAGE.to_owned())),
            },
        }
    }

    /// The normalized endpoint: its scheme is `http` or `https`, and it has a
    /// path.
    pub fn endpoint(&self) -> (r: &Endpoint)
        ensures
            r@ == self@.endpoint,
            endpoint_valid(r@),
    {
        proof {
            use_type_invariant(&self.endpoint);
        }
        &self.endpoint
    }

    /// Whether the endpoint is reached without transport security: so it is
    /// for every scheme but `https`.
    pub fn insecure(&self) -> (r: bool)
        ensures
            r == (self@.endpoint.scheme != SCHEME_HTTPS@),
    {
        !self.endpoint.is_https()
    }

    /// Path of the trusted certificate, where one is configured.
    pub fn certificate_file(&self) -> (r: Option<&String>)
        ensures
            opt_ref_view(r) == self@.builder.certificate_file,
    {
        self.builder.certificate_file.as_ref()
    }

    /// Path of the client's private key, where one is configured.
    pub fn client_key_file(&self) -> (r: Option<&String>)
        ensures
            opt_ref_view(r) == self@.builder.client_key_file,
    {
        self.builder.client_key_file.as_ref()
    }

    /// Path of the client's certificate, where one is configured.
    pub fn client_certificate_file(&self) -> (r: Option<&String>)
        ensures
            opt_ref_view(r) == self@.builder.client_certificate_file,
    {
        self.builder.client_certificate_file.as_ref()
    }

    /// Read ca certificate if `certificate_file` is not none.
    ///
    /// `read` is what reads a file: it is called once, on the configured
    /// path, and not at all where none is configured.
    pub fn read_certificate<F: Fn(&String) -> Result<String, std::io::Error>>(
        &self,
        read: &F,
    ) -> (r: Result<Option<String>, OtlpExporterError>)
        requires
            forall|path: &String| #[trigger] read.requires((path,)),
        ensures
            is_read(r, self.certificate_path(), read),
    {
        read_optional(&self.builder.certificate_file, read)
    }

    /// Read client key if `client_key_file` is not none.
    pub fn read_client_key<F: Fn(&String) -> Result<String, std::io::Error>>(
        &self,
        read: &F,
    ) -> (r: Result<Option<String>, OtlpExporterError>)
        requires
            forall|path: &String| #[trigger] read.requires((path,)),
        ensures
            is_read(r, self.client_key_path(), read),
    {
        read_optional(&self.builder.client_key_file, read)
    }

    /// Read client certificate if `client_certificate_file` is not none.
    pub fn read_client_certificate<F: Fn(&String) -> Result<String, std::io::Error>>(
        &self,
        read: &F,
    ) -> (r: Result<Option<String>, OtlpExporterError>)
        requires
            forall|path: &String| #[trigger] read.requires((path,)),
        ensures
            is_read(r, self.client_certificate_path(), read),
    {
        read_optional(&self.builder.client_certificate_file, read)
    }

    /// The configured path of the trusted certificate, as the string it is.
    pub closed spec fn certificate_path(&self) -> Option<String> {
        self.builder.certificate_file
    }

    /// The configured path of the client's private key, as the string it is.
    pub closed spec fn client_key_path(&self) -> Option<String> {
        self.builder.client_key_file
    }

    /// The configured path of the client's certificate, as the string it is.
    pub closed spec fn client_certificate_path(&self) -> Option<String> {
        self.builder.client_certificate_file
    }

    /// The configured paths are those of the view.
    pub proof fn lemma_paths(&self)
        ensures
            opt_view(self.certificate_path()) == self@.builder.certificate_file,
            opt_view(self.client_key_path()) == self@.builder.client_key_file,
            opt_view(self.client_certificate_path()) == self@.builder.client_certificate_file,
    {
    }

    /// Headers sent with every request.
    pub fn headers(&self) -> (r: &Headers)
        ensures
            r@ == self@.builder.headers,
    {
        &self.builder.headers
    }

    /// How long to wait for each export.
    pub fn timeout(&self) -> (r: Timeout)
        ensures
            r == self@.builder.timeout,
    {
        self.builder.timeout
    }

    /// The wire protocol.
    pub fn protocol(&self) -> (r: Protocol)
        ensures
            r == self@.builder.protocol,
    {
        self.builder.protocol
    }

    /// The gRPC backend.
    pub fn grpc_impl(&self) -> (r: &GrpcImpl)
        ensures
            *r == self@.builder.grpc_impl,
    {
        &self.builder.grpc_impl
    }

    /// The name expected in the server's certificate, where one is set.
    pub fn certificate_domain(&self) -> (r: Option<&str>)
        ensures
            match r {
                Some(domain) => self@.builder.certificate_domain == Some(domain@),
                None => self@.builder.certificate_domain.is_none(),
            },
    {
        match &self.builder.certificate_domain {
            Some(domain) => Some(domain.as_str()),
            None => None,
        }
    }
}

/// The characters of an optional borrowed string.
pub open spec fn opt_ref_view(o: Option<&String>) -> Option<Seq<char>> {
    match o {
        Some(s) => Some(s@),
        None => None,
    }
}

/// Whether `r` is what reading the optional file at `path` with `read` gives:
/// nothing where there is no path, else the text that `read` returned for the
/// path, or the error it returned, as an I/O error.
pub open spec fn is_read<F: Fn(&String) -> Result<String, std::io::Error>>(
    r: Result<Option<String>, OtlpExporterError>,
    path: Option<String>,
    read: &F,
) -> bool {
    match path {
        None => r matches Ok(None),
        Some(p) => match r {
            Ok(Some(text)) => read.ensures((&p,), Ok(text)),
            Err(OtlpExporterError::StdIoError(e)) => read.ensures((&p,), Err(e)),
            _ => false,
        },
    }
}

/// Reads the file at `path` with `read`, where there is a path.
pub fn read_optional<F: Fn(&String) -> Result<String, std::io::Error>>(
    path: &Option<String>,
    read: &F,
) -> (r: Result<Option<String>, OtlpExporterError>)
    requires
        forall|p: &String| #[trigger] read.requires((p,)),
    ensures
        is_read(r, *path, read),
{
    match path {
        None => Ok(None),
        Some(p) => match read(p) {
            Ok(text) => Ok(Some(text)),
            Err(e) => Err(OtlpExporterError::StdIoError(e)),
        },
    }
}

impl From<Config> for ConfigBuilder {
    fn from(value: Config) -> (r: ConfigBuilder) {
        value.builder
    }
}

impl vstd::std_specs::convert::FromSpecImpl<Config> for ConfigBuilder {
    open spec fn obeys_from_spec() -> bool {
        true
    }

    closed spec fn from_spec(value: Config) -> ConfigBuilder {
        value.builder
    }
}

} // verus!
