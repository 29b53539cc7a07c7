use otlp_exporter::config::{
    default_endpoint, default_headers, default_protocol, default_timeout, Config, ConfigBuilder,
    DataType, GrpcImpl, GrpcioConfig, Protocol, Timeout, TonicConfig, DEFAULT_GRPC_ENDPOINT,
    DEFAULT_HTTP_ENDPOINT, OTEL_EXPORTER_OTLP_ENDPOINT, OTEL_EXPORTER_OTLP_HEADERS,
    OTEL_EXPORTER_OTLP_INSECURE, OTEL_EXPORTER_OTLP_LOGS_ENDPOINT,
    OTEL_EXPORTER_OTLP_LOGS_HEADERS, OTEL_EXPORTER_OTLP_LOGS_INSECURE,
    OTEL_EXPORTER_OTLP_METRICS_ENDPOINT, OTEL_EXPORTER_OTLP_METRICS_HEADERS,
    OTEL_EXPORTER_OTLP_METRICS_INSECURE, OTEL_EXPORTER_OTLP_PROTOCOL,
    OTEL_EXPORTER_OTLP_TRACES_ENDPOINT, OTEL_EXPORTER_OTLP_TRACES_HEADERS,
    OTEL_EXPORTER_OTLP_TRACES_INSECURE,
};
use otlp_exporter::endpoint::UriParts;
use otlp_exporter::environment::Environment;
use otlp_exporter::error::OtlpExporterError;

fn build_config_with_env(data_type: Option<DataType>, env: &Environment) -> Config {
    ConfigBuilder::default().with_env(data_type, env).build().unwrap()
}

#[test]
fn test_endpoint_from_env() {
    let expected_endpoint = "https://test_endpoint_from_env:4317".to_string();
    let expected_endpoint_with_slash = "https://test_endpoint_from_env:4317/".to_string();
    let mut env = Environment::new();
    env.set(OTEL_EXPORTER_OTLP_ENDPOINT, &expected_endpoint);

    // endpoint without specifying the data type
    assert_eq!(
        build_config_with_env(None, &env).endpoint().to_string(),
        expected_endpoint_with_slash
    );
    // endpoint for traces
    assert_eq!(
        build_config_with_env(Some(DataType::Trace), &env).endpoint().to_string(),
        format!("{}/v1/traces", expected_endpoint),
    );
    env.set(OTEL_EXPORTER_OTLP_TRACES_ENDPOINT, &expected_endpoint);
    assert_eq!(
        build_config_with_env(Some(DataType::Trace), &env).endpoint().to_string(),
        expected_endpoint_with_slash,
    );

    // endpoint for metrics
    assert_eq!(
        build_config_with_env(Some(DataType::Metric), &env).endpoint().to_string(),
        format!("{}/v1/metrics", expected_endpoint),
    );
    env.set(OTEL_EXPORTER_OTLP_METRICS_ENDPOINT, &expected_endpoint);
    assert_eq!(
        build_config_with_env(Some(DataType::Metric), &env).endpoint().to_string(),
        expected_endpoint_with_slash
    );

    // endpoint for logs
    assert_eq!(
        build_config_with_env(Some(DataType::Log), &env).endpoint().to_string(),
        format!("{}/v1/logs", expected_endpoint),
    );
    env.set(OTEL_EXPORTER_OTLP_LOGS_ENDPOINT, &expected_endpoint);
    assert_eq!(
        build_config_with_env(Some(DataType::Log), &env).endpoint().to_string(),
        expected_endpoint_with_slash
    );

    // test if trailing '/' will be trimmed.
    env.set(OTEL_EXPORTER_OTLP_ENDPOINT, &expected_endpoint_with_slash);
    env.remove(OTEL_EXPORTER_OTLP_TRACES_ENDPOINT);
    assert_eq!(
        build_config_with_env(Some(DataType::Trace), &env).endpoint().to_string(),
        format!("{}/v1/traces", expected_endpoint),
    );
    env.remove(OTEL_EXPORTER_OTLP_METRICS_ENDPOINT);
    assert_eq!(
        build_config_with_env(Some(DataType::Metric), &env).endpoint().to_string(),
        format!("{}/v1/metrics", expected_endpoint),
    );
    env.remove(OTEL_EXPORTER_OTLP_LOGS_ENDPOINT);
    assert_eq!(
        build_config_with_env(Some(DataType::Log), &env).endpoint().to_string(),
        format!("{}/v1/logs", expected_endpoint),
    );
}

#[test]
fn test_headers_from_env() {
    let otlp_headers = default_headers().add("Accept", "text/plain");
    let otlp_traces_headers = otlp_headers.clone().add("Accept", "application/json");
    let otlp_metrics_headers = otlp_headers.clone().add("Accept", "application/xml");
    let otlp_logs_headers = otlp_headers.clone().add("Accept", "application/html");
    let mut env = Environment::new();

    assert_eq!(build_config_with_env(None, &env).headers(), &default_headers());
    assert_eq!(
        build_config_with_env(Some(DataType::Trace), &env).headers(),
        &default_headers()
    );
    assert_eq!(
        build_config_with_env(Some(DataType::Metric), &env).headers(),
        &default_headers()
    );
    assert_eq!(
        build_config_with_env(Some(DataType::Log), &env).headers(),
        &default_headers()
    );

    env.set(OTEL_EXPORTER_OTLP_HEADERS, "Accept=text/plain");
    assert_eq!(build_config_with_env(None, &env).headers(), &otlp_headers);
    assert_eq!(
        build_config_with_env(Some(DataType::Trace), &env).headers(),
        &otlp_headers
    );
    assert_eq!(
        build_config_with_env(Some(DataType::Metric), &env).headers(),
        &otlp_headers
    );
    assert_eq!(
        build_config_with_env(Some(DataType::Log), &env).headers(),
        &otlp_headers
    );

    env.set(OTEL_EXPORTER_OTLP_TRACES_HEADERS, "Accept=application/json");
    env.set(OTEL_EXPORTER_OTLP_METRICS_HEADERS, "Accept=application/xml");
    env.set(OTEL_EXPORTER_OTLP_LOGS_HEADERS, "Accept=application/html");
    assert_eq!(build_config_with_env(None, &env).headers(), &otlp_headers);
    assert_eq!(
        build_config_with_env(Some(DataType::Trace), &env).headers(),
        &otlp_traces_headers
    );
    assert_eq!(
        build_config_with_env(Some(DataType::Metric), &env).headers(),
        &otlp_metrics_headers
    );
    assert_eq!(
        build_config_with_env(Some(DataType::Log), &env).headers(),
        &otlp_logs_headers
    );
}

#[test]
fn test_insecure_from_env() {
    let mut env = Environment::new();
    // insecure is used only when there is no https:// or http:// in endpoint
    env.set(OTEL_EXPORTER_OTLP_ENDPOINT, "localhost:4317");
    env.set(OTEL_EXPORTER_OTLP_PROTOCOL, "grpc");

    assert!(!build_config_with_env(None, &env).insecure());
    assert!(!build_config_with_env(Some(DataType::Trace), &env).insecure());
    assert!(!build_config_with_env(Some(DataType::Metric), &env).insecure());
    assert!(!build_config_with_env(Some(DataType::Log), &env).insecure());

    env.set(OTEL_EXPORTER_OTLP_INSECURE, "true");
    assert!(build_config_with_env(None, &env).insecure());
    assert!(build_config_with_env(Some(DataType::Trace), &env).insecure());
    assert!(build_config_with_env(Some(DataType::Metric), &env).insecure());
    assert!(build_config_with_env(Some(DataType::Log), &env).insecure());

    env.set(OTEL_EXPORTER_OTLP_INSECURE, "false");
    env.set(OTEL_EXPORTER_OTLP_TRACES_INSECURE, "true");
    env.set(OTEL_EXPORTER_OTLP_METRICS_INSECURE, "true");
    env.set(OTEL_EXPORTER_OTLP_LOGS_INSECURE, "true");
    assert!(!build_config_with_env(None, &env).insecure());
    assert!(build_config_with_env(Some(DataType::Trace), &env).insecure());
    assert!(build_config_with_env(Some(DataType::Metric), &env).insecure());
    assert!(build_config_with_env(Some(DataType::Log), &env).insecure());
}

#[test]
fn defaults_are_the_compiled_ones() {
    assert_eq!(default_protocol(), Protocol::HttpProtobuf);
    assert_eq!(default_endpoint(Protocol::Grpc), "localhost:4317");
    assert_eq!(default_endpoint(Protocol::HttpProtobuf), "http://localhost:4318");
    assert_eq!(default_endpoint(Protocol::HttpJson), "http://localhost:4318");
    assert_eq!(DEFAULT_GRPC_ENDPOINT, "localhost:4317");
    assert_eq!(DEFAULT_HTTP_ENDPOINT, "http://localhost:4318");
    assert_eq!(default_timeout(), Timeout::from_secs(10));
    assert_eq!(default_timeout().as_nanos(), 10_000_000_000);
    let headers = default_headers();
    assert_eq!(headers.len(), 1);
    assert_eq!(headers.name_at(0), "User-Agent");
    assert_eq!(headers.values_at(0), &vec!["otlp-exporter-rust/0.1.0".to_string()]);

    let config = ConfigBuilder::default().build().unwrap();
    assert_eq!(config.protocol(), Protocol::HttpProtobuf);
    assert_eq!(config.endpoint().to_string(), "http://localhost:4318/");
    assert_eq!(config.timeout(), Timeout::from_secs(10));
    assert!(config.insecure());
    assert_eq!(config.headers(), &default_headers());
    assert_eq!(config.grpc_impl(), &GrpcImpl::Tonic(TonicConfig::default()));
    assert_eq!(config.certificate_domain(), None);
    assert_eq!(config.certificate_file(), None);
    assert_eq!(config.client_key_file(), None);
    assert_eq!(config.client_certificate_file(), None);
}

#[test]
fn grpcio_config_counts_completion_queues() {
    assert_eq!(GrpcioConfig::default().cq_count(), 2);
    assert_eq!(GrpcioConfig::default().with_cq_count(7).cq_count(), 7);
    assert_eq!(GrpcImpl::default(), GrpcImpl::Tonic(TonicConfig::default()));
    assert_eq!(GrpcImpl::default().to_string(), "tonic");
    assert_eq!(GrpcImpl::Grpcio(GrpcioConfig::default()).to_string(), "grpcio");
}

#[test]
fn protocol_names() {
    assert_eq!(Protocol::Grpc.to_string(), "grpc");
    assert_eq!(Protocol::HttpProtobuf.to_string(), "http/protobuf");
    assert_eq!(Protocol::HttpJson.to_string(), "http/json");
}

#[test]
fn timeout_parts() {
    let t = Timeout::from_millis(1_500);
    assert_eq!(t.as_nanos(), 1_500_000_000);
    assert_eq!(t.as_secs(), 1);
    assert_eq!(t.subsec_nanos(), 500_000_000);
    assert_eq!(Timeout::from_secs(u64::MAX).as_secs(), u64::MAX);
    assert_eq!(Timeout { nanos: u128::MAX }.as_secs(), u64::MAX);
    assert_eq!(Timeout::from_secs(3).subsec_nanos(), 0);
}

#[test]
fn setters_change_one_setting() {
    let config = ConfigBuilder::default()
        .with_endpoint("https://collector:4318/base")
        .with_insecure(true)
        .with_certificate_file("ca.pem")
        .with_client_key_file("key.pem")
        .with_client_certificate_file("cert.pem")
        .add_header("X-Team", "a")
        .add_header("X-Team", "b")
        .replace_header("User-Agent", "mine")
        .with_timeout(Timeout::from_secs(3))
        .with_protocol(Protocol::HttpJson)
        .with_grpc_impl(GrpcImpl::Grpcio(GrpcioConfig::default().with_cq_count(4)))
        .with_certificate_domain("collector.internal")
        .build()
        .unwrap();
    assert_eq!(config.endpoint().to_string(), "https://collector:4318/base");
    assert!(!config.insecure());
    assert_eq!(config.certificate_file().map(|s| s.as_str()), Some("ca.pem"));
    assert_eq!(config.client_key_file().map(|s| s.as_str()), Some("key.pem"));
    assert_eq!(config.client_certificate_file().map(|s| s.as_str()), Some("cert.pem"));
    assert_eq!(config.headers().len(), 2);
    assert_eq!(config.headers().get("User-Agent"), Some(&vec!["mine".to_string()]));
    assert_eq!(
        config.headers().get("X-Team"),
        Some(&vec!["a".to_string(), "b".to_string()])
    );
    assert_eq!(config.headers().get("x-team"), None);
    assert_eq!(config.timeout(), Timeout::from_secs(3));
    assert_eq!(config.protocol(), Protocol::HttpJson);
    assert_eq!(
        config.grpc_impl(),
        &GrpcImpl::Grpcio(GrpcioConfig::default().with_cq_count(4))
    );
    assert_eq!(config.certificate_domain(), Some("collector.internal"));
}

#[test]
fn builder_comes_back_out_of_a_config() {
    let builder = ConfigBuilder::default().with_endpoint("localhost:4317").with_insecure(true);
    let config = builder.build().unwrap();
    assert_eq!(config.endpoint().to_string(), "http://localhost:4317/");
    let again = ConfigBuilder::from(config).with_insecure(false).build().unwrap();
    assert_eq!(again.endpoint().to_string(), "https://localhost:4317/");
}

#[test]
fn scheme_comes_from_insecure_only_where_none_is_written() {
    let config = ConfigBuilder::default()
        .with_endpoint("localhost:4317")
        .with_insecure(true)
        .build()
        .unwrap();
    assert_eq!(config.endpoint().scheme_str(), "http");
    assert!(config.insecure());

    let config = ConfigBuilder::default()
        .with_endpoint("localhost:4317")
        .with_insecure(false)
        .build()
        .unwrap();
    assert_eq!(config.endpoint().scheme_str(), "https");
    assert!(!config.insecure());

    let config = ConfigBuilder::default()
        .with_endpoint("https://host:1")
        .with_insecure(true)
        .build()
        .unwrap();
    assert_eq!(config.endpoint().scheme_str(), "https");
    assert!(!config.insecure());
    assert_eq!(config.endpoint().to_string(), "https://host:1/");

    let config = ConfigBuilder::default()
        .with_endpoint("http://host:1")
        .with_insecure(false)
        .build()
        .unwrap();
    assert_eq!(config.endpoint().scheme_str(), "http");
    assert!(config.insecure());
}

#[test]
fn other_schemes_give_way_to_http_or_https() {
    let config = ConfigBuilder::default()
        .with_endpoint("ftp://host:21/files")
        .with_insecure(true)
        .build()
        .unwrap();
    assert_eq!(config.endpoint().to_string(), "http://host:21/files");
    let config = ConfigBuilder::default().with_endpoint("ftp://host:21/files").build().unwrap();
    assert_eq!(config.endpoint().to_string(), "https://host:21/files");
}

#[test]
fn validated_endpoint_always_has_scheme_and_path() {
    let endpoints = [
        "localhost:4317",
        "localhost",
        "http://localhost:4318",
        "https://example.com",
        "https://example.com/",
        "https://example.com/v1/traces",
        "HTTP://EXAMPLE.com:80/a?b=c",
        "https://example.com?x=1",
        "unix://socket/path",
        "[::1]:4317",
    ];
    for written in endpoints {
        for insecure in [true, false] {
            let config = ConfigBuilder::default()
                .with_endpoint(written)
                .with_insecure(insecure)
                .build()
                .unwrap();
            let endpoint = config.endpoint();
            assert!(endpoint.scheme_str() == "http" || endpoint.scheme_str() == "https");
            assert!(!endpoint.path().is_empty());
            assert!(endpoint.path().starts_with('/'));
            assert_eq!(config.insecure(), endpoint.scheme_str() != "https");
        }
    }
}

#[test]
fn endpoint_parts_are_kept() {
    let config = ConfigBuilder::default()
        .with_endpoint("HTTP://EXAMPLE.com:80/a?b=c")
        .build()
        .unwrap();
    let endpoint = config.endpoint();
    assert_eq!(endpoint.scheme_str(), "http");
    assert_eq!(endpoint.authority(), "EXAMPLE.com:80");
    assert_eq!(endpoint.path(), "/a");
    assert_eq!(endpoint.query(), Some("b=c"));
    assert!(!endpoint.is_https());
    assert_eq!(endpoint.to_string(), "http://EXAMPLE.com:80/a?b=c");

    let config = ConfigBuilder::default().with_endpoint("https://example.com?x=1").build().unwrap();
    assert_eq!(config.endpoint().path(), "/");
    assert_eq!(config.endpoint().query(), Some("x=1"));
    assert_eq!(config.endpoint().to_string(), "https://example.com/?x=1");
    assert!(config.endpoint().is_https());
}

#[test]
fn endpoint_that_is_no_uri_is_a_config_error() {
    let err = ConfigBuilder::default().with_endpoint("http://exa mple").build().unwrap_err();
    match err {
        OtlpExporterError::ConfigError(message) => assert_eq!(
            message,
            "endpoint[http://exa mple] is not a valid uri: invalid uri character"
        ),
        other => panic!("unexpected error: {:?}", other),
    }
    let err = ConfigBuilder::default().with_endpoint("").build().unwrap_err();
    match err {
        OtlpExporterError::ConfigError(message) => {
            assert_eq!(message, "endpoint[] is not a valid uri: empty string")
        }
        other => panic!("unexpected error: {:?}", other),
    }
}

#[test]
fn endpoint_without_authority_is_an_internal_error() {
    for written in ["/only/a/path", "*", "/"] {
        let err = ConfigBuilder::default().with_endpoint(written).build().unwrap_err();
        match err {
            OtlpExporterError::UnknownError(message) => assert_eq!(
                message,
                "internal error! endpoint_parts should be valid: authority missing"
            ),
            other => panic!("unexpected error: {:?}", other),
        }
    }
}

#[test]
fn validation_from_given_parts() {
    let parts = UriParts::new(None, Some("localhost:4317".to_string()), None, None).unwrap();
    let config =
        Config::from_parsed(ConfigBuilder::default().with_insecure(true), Ok(parts)).unwrap();
    assert_eq!(config.endpoint().to_string(), "http://localhost:4317/");

    let parts = UriParts::new(
        Some("https".to_string()),
        Some("h".to_string()),
        Some("/p".to_string()),
        Some("q".to_string()),
    )
    .unwrap();
    let config =
        Config::from_parsed(ConfigBuilder::default().with_insecure(true), Ok(parts)).unwrap();
    assert_eq!(config.endpoint().to_string(), "https://h/p?q");

    let parts = UriParts::new(Some("http".to_string()), None, Some("/p".to_string()), None);
    let err = Config::from_parsed(ConfigBuilder::default(), Ok(parts.unwrap())).unwrap_err();
    assert!(matches!(err, OtlpExporterError::UnknownError(_)));

    let err = Config::from_parsed(
        ConfigBuilder::default().with_endpoint("what"),
        Err("the reason".to_string()),
    )
    .unwrap_err();
    match err {
        OtlpExporterError::ConfigError(message) => {
            assert_eq!(message, "endpoint[what] is not a valid uri: the reason")
        }
        other => panic!("unexpected error: {:?}", other),
    }

    assert!(UriParts::new(None, None, Some(String::new()), None).is_none());
    assert!(UriParts::new(None, Some("h".to_string()), Some("p".to_string()), None).is_none());
    assert!(UriParts::new(None, None, Some("*".to_string()), None).is_some());
    assert!(UriParts::new(None, None, None, Some("q".to_string())).is_none());
}

#[test]
fn error_names_its_exporter() {
    assert_eq!(OtlpExporterError::ConfigError(String::new()).exporter_name(), "otlp-exporter");
}
