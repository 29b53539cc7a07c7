use std::cell::RefCell;
use std::io;

use otlp_exporter::config::{
    default_headers, Config, ConfigBuilder, GrpcImpl, GrpcioConfig, Protocol, Timeout,
};
use otlp_exporter::error::OtlpExporterError;
use otlp_exporter::exporter::metric::{
    metric_export_result, HttpMetricExporter, InnerMetricExporter, MetricExporter,
};
use otlp_exporter::exporter::trace::{
    trace_export_result, GrpcioTraceExporter, HttpTraceExporter, TonicTraceExporter,
    TraceExporter,
};
use otlp_exporter::exporter::{
    call_end, gen_header_map, gen_metadata, gen_metadata_map, gen_metric_error, gen_trace_error,
    grpcio_channel, header_fault_error, http_call, http_client, metric_result, read_tls_material,
    tonic_channel, trace_result, transport, CallEnd, CallReply, ClientIdentity, Encoder,
    ExportCall, ExportFailure, TlsMaterial, TransportImplementation, WireFault,
};
use otlp_exporter::headers::Headers;

fn config_error(err: OtlpExporterError) -> String {
    match err {
        OtlpExporterError::ConfigError(message) => message,
        other => panic!("not a config error: {:?}", other),
    }
}

fn unsupported(err: OtlpExporterError) -> String {
    match err {
        OtlpExporterError::Unsupported(message) => message,
        other => panic!("not an unsupported operation: {:?}", other),
    }
}

fn contents(path: &String) -> Result<String, io::Error> {
    Ok(format!("<{}>", path))
}

fn never(path: &String) -> Result<String, io::Error> {
    panic!("{} must not be read", path)
}

fn grpc(endpoint: &str) -> ConfigBuilder {
    ConfigBuilder::default().with_protocol(Protocol::Grpc).with_endpoint(endpoint)
}

fn values_of(map: &http::HeaderMap, name: &str) -> Vec<String> {
    map.get_all(name).iter().map(|v| v.to_str().unwrap().to_string()).collect()
}

#[test]
fn header_map_holds_every_value_under_its_name() {
    let headers = default_headers()
        .add("Accept", "text/plain")
        .add("X-Multi", "one")
        .add("accept", "application/json")
        .add("X-Multi", "two");
    let map = gen_header_map(&headers).unwrap();
    assert_eq!(map.len(), 5);
    assert_eq!(map.keys_len(), 3);
    assert_eq!(values_of(&map, "user-agent"), vec!["otlp-exporter-rust/0.1.0"]);
    assert_eq!(values_of(&map, "accept"), vec!["text/plain", "application/json"]);
    assert_eq!(values_of(&map, "x-multi"), vec!["one", "two"]);
    let names: Vec<&str> = map.keys().map(|k| k.as_str()).collect();
    assert_eq!(names, vec!["user-agent", "accept", "x-multi"]);

    let empty = gen_header_map(&Headers::new()).unwrap();
    assert!(empty.is_empty());
}

#[test]
fn header_pairs_come_one_for_each_value() {
    let headers = Headers::new().add("a", "1").add("b", "2").add("a", "3");
    assert_eq!(
        gen_metadata(&headers),
        vec![
            ("a".to_string(), "1".to_string()),
            ("a".to_string(), "3".to_string()),
            ("b".to_string(), "2".to_string()),
        ]
    );
    assert_eq!(gen_metadata(&Headers::new()), vec![]);
}

#[test]
fn metadata_holds_what_the_header_map_holds() {
    let headers = default_headers().add("X-Multi", "one").add("X-Multi", "two");
    let metadata = gen_metadata_map(&headers).unwrap();
    assert_eq!(metadata.len(), 3);
    assert_eq!(metadata.get("user-agent").unwrap(), "otlp-exporter-rust/0.1.0");
    let multi: Vec<&str> =
        metadata.get_all("x-multi").iter().map(|v| v.to_str().unwrap()).collect();
    assert_eq!(multi, vec!["one", "two"]);
    let err = gen_metadata_map(&Headers::new().add("no good", "v")).unwrap_err();
    assert_eq!(
        config_error(err),
        "invalid header name: no good, error: invalid HTTP header name"
    );
}

#[test]
fn first_unfit_header_is_named() {
    let err = gen_header_map(&default_headers().add("bad name", "v")).unwrap_err();
    assert_eq!(
        config_error(err),
        "invalid header name: bad name, error: invalid HTTP header name"
    );
    let err = gen_header_map(&default_headers().add("x", "line\nbreak")).unwrap_err();
    assert_eq!(
        config_error(err),
        "invalid header value: line\nbreak, error: failed to parse header value"
    );
    let err = gen_header_map(&Headers::new().add("", "v")).unwrap_err();
    assert_eq!(config_error(err), "invalid header name: , error: invalid HTTP header name");
    // the name is judged before the value
    let err = gen_header_map(&Headers::new().add("a b", "c\rd")).unwrap_err();
    assert_eq!(config_error(err), "invalid header name: a b, error: invalid HTTP header name");
    // the first offender in order is the one that is named
    let headers = Headers::new()
        .add("fine", "ok")
        .add("second", "bad\u{0}value")
        .add("third one", "ok")
        .add("fine", "also\u{7f}bad");
    let err = gen_header_map(&headers).unwrap_err();
    assert_eq!(
        config_error(err),
        "invalid header value: also\u{7f}bad, error: failed to parse header value"
    );
}

fn is_name_char(c: char) -> bool {
    matches!(c, '!'..='\'' | '*' | '+' | '-' | '.' | '0'..='9' | 'A'..='Z' | '^'..='z' | '|' | '~')
}

fn is_value_char(c: char) -> bool {
    (c >= ' ' && c != '\u{7f}') || c == '\t'
}

#[test]
fn header_names_are_judged_as_the_contract_says() {
    let mut candidates: Vec<char> = (0u32..=0x17f).filter_map(char::from_u32).collect();
    candidates.extend(['\u{2028}', '\u{3b1}', '\u{1f600}']);
    for c in candidates {
        let name = format!("x{}y", c);
        let result = gen_header_map(&Headers::new().add(&name, "v"));
        assert_eq!(result.is_ok(), is_name_char(c), "name character {:?}", c);
        if let Ok(map) = result {
            let lower = name.to_ascii_lowercase();
            assert_eq!(values_of(&map, &lower), vec!["v"]);
            assert_eq!(map.keys().next().unwrap().as_str(), lower);
        }
        let alone = gen_header_map(&Headers::new().add(&c.to_string(), "v"));
        assert_eq!(alone.is_ok(), is_name_char(c), "name {:?}", c);
    }
}

#[test]
fn header_name_length_is_bounded() {
    let longest = "a".repeat(65535);
    let map = gen_header_map(&Headers::new().add(&longest, "v")).unwrap();
    assert_eq!(map.keys().next().unwrap().as_str(), longest);
    let too_long = "a".repeat(65536);
    assert!(gen_header_map(&Headers::new().add(&too_long, "v")).is_err());
    let mixed = format!("{}Z", "a".repeat(70));
    let map = gen_header_map(&Headers::new().add(&mixed, "v")).unwrap();
    assert_eq!(map.keys().next().unwrap().as_str(), mixed.to_ascii_lowercase());
    let at_buffer = "B".repeat(64);
    let map = gen_header_map(&Headers::new().add(&at_buffer, "v")).unwrap();
    assert_eq!(map.keys().next().unwrap().as_str(), "b".repeat(64));
    let bad_long = format!("{} ", "a".repeat(70));
    assert!(gen_header_map(&Headers::new().add(&bad_long, "v")).is_err());
}

#[test]
fn header_values_are_judged_as_the_contract_says() {
    let mut candidates: Vec<char> = (0u32..=0x17f).filter_map(char::from_u32).collect();
    candidates.extend(['\u{2028}', '\u{3b1}', '\u{1f600}']);
    for c in candidates {
        let value = format!("x{}y", c);
        let result = gen_header_map(&Headers::new().add("name", &value));
        assert_eq!(result.is_ok(), is_value_char(c), "value character {:?}", c);
        if let Ok(map) = result {
            assert_eq!(map.get("name").unwrap().as_bytes(), value.as_bytes());
        }
    }
    assert!(gen_header_map(&Headers::new().add("name", "")).is_ok());
}

#[test]
fn many_headers_go_on_the_wire() {
    let mut headers = Headers::new();
    for i in 0..300 {
        headers = headers.add(&format!("name-{}", i), "v");
    }
    let map = gen_header_map(&headers).unwrap();
    assert_eq!(map.keys_len(), 300);

    let mut values = Headers::new();
    for i in 0..40_000 {
        values = values.add("one-name", &i.to_string());
    }
    let map = gen_header_map(&values).unwrap();
    assert_eq!(map.keys_len(), 1);
    assert_eq!(map.len(), 40_000);
}

#[test]
fn header_faults_become_config_errors() {
    let err = header_fault_error(WireFault::Name("why".to_string()), "n", "v");
    assert_eq!(config_error(err), "invalid header name: n, error: why");
    let err = header_fault_error(WireFault::Value("why".to_string()), "n", "v");
    assert_eq!(config_error(err), "invalid header value: v, error: why");
    let err = header_fault_error(WireFault::Full("max size reached".to_string()), "n", "v");
    assert_eq!(config_error(err), "too many headers, error: max size reached");
}

#[test]
fn transport_follows_protocol_and_backend() {
    let tonic = grpc("localhost:4317").build().unwrap();
    assert_eq!(transport(&tonic), TransportImplementation::Tonic);
    let grpcio = grpc("localhost:4317")
        .with_grpc_impl(GrpcImpl::Grpcio(GrpcioConfig::default()))
        .build()
        .unwrap();
    assert_eq!(transport(&grpcio), TransportImplementation::Grpcio);
    for protocol in [Protocol::HttpProtobuf, Protocol::HttpJson] {
        for grpc_impl in [GrpcImpl::default(), GrpcImpl::Grpcio(GrpcioConfig::default())] {
            let config = ConfigBuilder::default()
                .with_protocol(protocol)
                .with_grpc_impl(grpc_impl)
                .build()
                .unwrap();
            assert_eq!(transport(&config), TransportImplementation::Http);
        }
    }
}

#[test]
fn tls_material_is_read_in_order() {
    let seen: RefCell<Vec<String>> = RefCell::new(Vec::new());
    let read = |path: &String| -> Result<String, io::Error> {
        seen.borrow_mut().push(path.clone());
        Ok(format!("<{}>", path))
    };
    let config = grpc("https://collector:4317")
        .with_certificate_file("ca.pem")
        .with_client_key_file("key.pem")
        .with_client_certificate_file("cert.pem")
        .build()
        .unwrap();
    let material = read_tls_material(&config, &read).unwrap();
    assert_eq!(
        material,
        TlsMaterial {
            ca_certificate: Some("<ca.pem>".to_string()),
            identity: Some(ClientIdentity {
                key: "<key.pem>".to_string(),
                certificate: "<cert.pem>".to_string(),
            }),
        }
    );
    assert_eq!(*seen.borrow(), vec!["ca.pem", "key.pem", "cert.pem"]);

    let nothing = grpc("https://collector:4317").build().unwrap();
    assert_eq!(
        read_tls_material(&nothing, &never).unwrap(),
        TlsMaterial { ca_certificate: None, identity: None }
    );
    assert_eq!(config.read_certificate(&contents).unwrap(), Some("<ca.pem>".to_string()));
    assert_eq!(config.read_client_key(&contents).unwrap(), Some("<key.pem>".to_string()));
    assert_eq!(
        config.read_client_certificate(&contents).unwrap(),
        Some("<cert.pem>".to_string())
    );
    assert_eq!(nothing.read_certificate(&never).unwrap(), None);
    assert_eq!(nothing.read_client_key(&never).unwrap(), None);
    assert_eq!(nothing.read_client_certificate(&never).unwrap(), None);
}

#[test]
fn lone_client_key_makes_no_identity_and_no_error() {
    let unreadable = |path: &String| -> Result<String, io::Error> {
        Err(io::Error::new(io::ErrorKind::NotFound, path.clone()))
    };
    let lone_key = grpc("https://collector:4317").with_client_key_file("key.pem").build().unwrap();
    assert_eq!(
        read_tls_material(&lone_key, &unreadable).unwrap(),
        TlsMaterial { ca_certificate: None, identity: None }
    );
    assert_eq!(read_tls_material(&lone_key, &never).unwrap().identity, None);
    let settings = tonic_channel(&lone_key, &never).unwrap();
    assert_eq!(settings.tls.unwrap().material.identity, None);

    let lone_certificate = ConfigBuilder::default()
        .with_endpoint("https://collector:4318")
        .with_client_certificate_file("cert.pem")
        .build()
        .unwrap();
    let settings = http_client(&lone_certificate, &never).unwrap();
    assert_eq!(settings.tls.unwrap().identity, None);

    let with_ca = grpc("https://collector:4317")
        .with_certificate_file("ca.pem")
        .with_client_key_file("key.pem")
        .build()
        .unwrap();
    let seen: RefCell<Vec<String>> = RefCell::new(Vec::new());
    let read = |path: &String| -> Result<String, io::Error> {
        seen.borrow_mut().push(path.clone());
        Ok(String::new())
    };
    let material = read_tls_material(&with_ca, &read).unwrap();
    assert_eq!(material.identity, None);
    assert_eq!(*seen.borrow(), vec!["ca.pem"]);
}

#[test]
fn unreadable_tls_file_is_an_io_error() {
    let failing = |bad: &'static str| {
        move |path: &String| -> Result<String, io::Error> {
            if path == bad {
                Err(io::Error::new(io::ErrorKind::PermissionDenied, bad))
            } else {
                Ok(String::new())
            }
        }
    };
    let config = grpc("https://collector:4317")
        .with_certificate_file("ca.pem")
        .with_client_key_file("key.pem")
        .with_client_certificate_file("cert.pem")
        .build()
        .unwrap();
    for bad in ["ca.pem", "key.pem", "cert.pem"] {
        match read_tls_material(&config, &failing(bad)).unwrap_err() {
            OtlpExporterError::StdIoError(e) => {
                assert_eq!(e.kind(), io::ErrorKind::PermissionDenied);
                assert_eq!(e.to_string(), bad);
            }
            other => panic!("unexpected error: {:?}", other),
        }
        assert!(matches!(
            tonic_channel(&config, &failing(bad)),
            Err(OtlpExporterError::StdIoError(_))
        ));
    }
    assert!(matches!(
        config.read_certificate(&failing("ca.pem")),
        Err(OtlpExporterError::StdIoError(_))
    ));
    // reading stops at the first file that fails, the trusted certificate first
    let seen: RefCell<Vec<String>> = RefCell::new(Vec::new());
    let all_fail = |path: &String| -> Result<String, io::Error> {
        seen.borrow_mut().push(path.clone());
        Err(io::Error::new(io::ErrorKind::NotFound, path.clone()))
    };
    match read_tls_material(&config, &all_fail).unwrap_err() {
        OtlpExporterError::StdIoError(e) => assert_eq!(e.to_string(), "ca.pem"),
        other => panic!("unexpected error: {:?}", other),
    }
    assert_eq!(*seen.borrow(), vec!["ca.pem"]);
    let seen: RefCell<Vec<String>> = RefCell::new(Vec::new());
    let key_fails = |path: &String| -> Result<String, io::Error> {
        seen.borrow_mut().push(path.clone());
        if path == "ca.pem" {
            Ok(String::new())
        } else {
            Err(io::Error::new(io::ErrorKind::NotFound, path.clone()))
        }
    };
    match http_failure_of(&config, &key_fails) {
        OtlpExporterError::StdIoError(e) => assert_eq!(e.to_string(), "key.pem"),
        other => panic!("unexpected error: {:?}", other),
    }
    assert_eq!(*seen.borrow(), vec!["ca.pem", "key.pem"]);
}

fn http_failure_of<F: Fn(&String) -> Result<String, io::Error>>(
    config: &Config,
    read: &F,
) -> OtlpExporterError {
    tonic_channel(config, read).unwrap_err()
}

#[test]
fn tonic_channel_settings() {
    let config = grpc("localhost:4317")
        .with_insecure(true)
        .with_timeout(Timeout::from_secs(3))
        .with_certificate_file("ca.pem")
        .with_certificate_domain("collector.internal")
        .build()
        .unwrap();
    let settings = tonic_channel(&config, &never).unwrap();
    assert_eq!(settings.endpoint, "http://localhost:4317/");
    assert_eq!(settings.connect_timeout, Timeout::from_secs(3));
    assert_eq!(settings.timeout, Timeout::from_secs(3));
    assert_eq!(settings.tls, None);

    let config = grpc("localhost:4317")
        .with_certificate_file("ca.pem")
        .with_certificate_domain("collector.internal")
        .build()
        .unwrap();
    let settings = tonic_channel(&config, &contents).unwrap();
    assert_eq!(settings.endpoint, "https://localhost:4317/");
    let tls = settings.tls.unwrap();
    assert_eq!(tls.material.ca_certificate, Some("<ca.pem>".to_string()));
    assert_eq!(tls.material.identity, None);
    assert_eq!(tls.domain_name, Some("collector.internal".to_string()));
}

#[test]
fn tonic_channel_refuses_what_the_config_did_not_resolve_to() {
    let http = ConfigBuilder::default().build().unwrap();
    assert_eq!(
        config_error(tonic_channel(&http, &never).unwrap_err()),
        "protocol is http/protobuf, not grpc"
    );
    let json = ConfigBuilder::default().with_protocol(Protocol::HttpJson).build().unwrap();
    assert_eq!(
        config_error(tonic_channel(&json, &never).unwrap_err()),
        "protocol is http/json, not grpc"
    );
    let grpcio = grpc("https://localhost:4317")
        .with_grpc_impl(GrpcImpl::Grpcio(GrpcioConfig::default()))
        .with_certificate_file("ca.pem")
        .build()
        .unwrap();
    assert_eq!(
        config_error(tonic_channel(&grpcio, &never).unwrap_err()),
        "grpc impl is not set to tonic, it is grpcio"
    );
}

#[test]
fn grpcio_channel_settings() {
    let config = grpc("https://collector:4317")
        .with_grpc_impl(GrpcImpl::Grpcio(GrpcioConfig::default().with_cq_count(5)))
        .with_certificate_file("ca.pem")
        .with_client_key_file("key.pem")
        .with_client_certificate_file("cert.pem")
        .build()
        .unwrap();
    let settings = grpcio_channel(&config, &contents).unwrap();
    assert_eq!(settings.cq_count, 5);
    assert_eq!(settings.endpoint, "https://collector:4317/");
    let credentials = settings.credentials.unwrap();
    assert_eq!(credentials.ca_certificate, Some("<ca.pem>".to_string()));
    assert_eq!(
        credentials.identity,
        Some(ClientIdentity {
            key: "<key.pem>".to_string(),
            certificate: "<cert.pem>".to_string()
        })
    );

    let insecure = grpc("http://collector:4317")
        .with_grpc_impl(GrpcImpl::Grpcio(GrpcioConfig::default()))
        .with_certificate_file("ca.pem")
        .build()
        .unwrap();
    let settings = grpcio_channel(&insecure, &never).unwrap();
    assert_eq!(settings.cq_count, 2);
    assert_eq!(settings.credentials, None);

    let tonic = grpc("localhost:4317").build().unwrap();
    assert_eq!(
        config_error(grpcio_channel(&tonic, &never).unwrap_err()),
        "grpc impl is not set to grpcio, it is tonic"
    );
    let http = ConfigBuilder::default().build().unwrap();
    assert_eq!(
        config_error(grpcio_channel(&http, &never).unwrap_err()),
        "protocol is http/protobuf, not grpc"
    );
}

#[test]
fn http_client_settings() {
    let config = ConfigBuilder::default()
        .with_endpoint("https://collector:4318")
        .with_timeout(Timeout::from_millis(2500))
        .add_header("X-Token", "abc")
        .with_certificate_file("ca.pem")
        .with_client_key_file("key.pem")
        .with_client_certificate_file("cert.pem")
        .build()
        .unwrap();
    let settings = http_client(&config, &contents).unwrap();
    assert_eq!(settings.connect_timeout, Timeout::from_millis(2500));
    assert_eq!(settings.timeout, Timeout::from_millis(2500));
    assert_eq!(values_of(&settings.default_headers, "x-token"), vec!["abc"]);
    assert_eq!(
        values_of(&settings.default_headers, "user-agent"),
        vec!["otlp-exporter-rust/0.1.0"]
    );
    let tls = settings.tls.unwrap();
    assert_eq!(tls.root_certificate, Some("<ca.pem>".to_string()));
    assert_eq!(tls.identity, Some("<key.pem><cert.pem>".to_string()));

    let insecure = ConfigBuilder::default().with_certificate_file("ca.pem").build().unwrap();
    let settings = http_client(&insecure, &never).unwrap();
    assert!(settings.tls.is_none());
}

#[test]
fn http_client_of_a_grpc_config_is_a_config_error() {
    for grpc_impl in [GrpcImpl::default(), GrpcImpl::Grpcio(GrpcioConfig::default())] {
        for endpoint in ["localhost:4317", "https://collector:4317", "http://collector:4317"] {
            let config = grpc(endpoint)
                .with_grpc_impl(grpc_impl)
                .add_header("bad name", "v")
                .with_certificate_file("ca.pem")
                .build()
                .unwrap();
            assert_eq!(
                config_error(http_client(&config, &never).unwrap_err()),
                "protocol is grpc, not http/protobuf/http/json"
            );
        }
    }
}

#[test]
fn http_client_reports_unfit_headers_before_it_reads_files() {
    let config = ConfigBuilder::default()
        .with_endpoint("https://collector:4318")
        .add_header("bad name", "v")
        .with_certificate_file("ca.pem")
        .build()
        .unwrap();
    assert_eq!(
        config_error(http_client(&config, &never).unwrap_err()),
        "invalid header name: bad name, error: invalid HTTP header name"
    );
}

#[test]
fn encoder_content_types() {
    assert_eq!(Encoder::Protobuf.content_type().unwrap(), "application/x-protobuf");
    assert_eq!(
        unsupported(Encoder::Json.content_type().unwrap_err()),
        "encoding an export request as json is not supported"
    );
    let config = ConfigBuilder::default().with_endpoint("https://collector:4318/v1/traces");
    let config = config.build().unwrap();
    assert_eq!(
        http_call(&config, Encoder::Protobuf).unwrap(),
        ExportCall::HttpPost {
            url: "https://collector:4318/v1/traces".to_string(),
            content_type: "application/x-protobuf"
        }
    );
    assert!(matches!(
        http_call(&config, Encoder::Json),
        Err(OtlpExporterError::Unsupported(_))
    ));
}

#[test]
fn status_codes_end_calls() {
    assert_eq!(call_end(0), CallEnd::Success);
    assert_eq!(call_end(1), CallEnd::Cancelled);
    for code in 2..=16 {
        assert_eq!(call_end(code), CallEnd::Failed);
    }
    assert_eq!(call_end(-1), CallEnd::Failed);
    assert_eq!(call_end(i32::MAX), CallEnd::Failed);
}

#[test]
fn trace_status_mapping() {
    let timeout = Timeout::from_secs(7);
    assert!(gen_trace_error(tonic::Status::new(tonic::Code::Ok, "fine"), timeout).is_ok());
    match gen_trace_error(tonic::Status::new(tonic::Code::Cancelled, "late"), timeout) {
        Err(ExportFailure::ExportTimedOut(t)) => assert_eq!(t, timeout),
        other => panic!("unexpected result: {:?}", other),
    }
    let others = [
        tonic::Code::Unknown,
        tonic::Code::InvalidArgument,
        tonic::Code::DeadlineExceeded,
        tonic::Code::NotFound,
        tonic::Code::AlreadyExists,
        tonic::Code::PermissionDenied,
        tonic::Code::ResourceExhausted,
        tonic::Code::FailedPrecondition,
        tonic::Code::Aborted,
        tonic::Code::OutOfRange,
        tonic::Code::Unimplemented,
        tonic::Code::Internal,
        tonic::Code::Unavailable,
        tonic::Code::DataLoss,
        tonic::Code::Unauthenticated,
    ];
    for code in others {
        match gen_trace_error(tonic::Status::new(code, "the message"), timeout) {
            Err(ExportFailure::ExportFailed(OtlpExporterError::TonicError(status))) => {
                assert_eq!(status.code(), code);
                assert_eq!(status.message(), "the message");
            }
            other => panic!("unexpected result: {:?}", other),
        }
    }
    assert!(
        trace_result(CallEnd::Success, tonic::Status::new(tonic::Code::Internal, ""), timeout)
            .is_ok()
    );
    assert!(matches!(
        trace_result(CallEnd::Cancelled, tonic::Status::new(tonic::Code::Ok, ""), timeout),
        Err(ExportFailure::ExportTimedOut(t)) if t == timeout
    ));
    assert!(matches!(
        trace_result(CallEnd::Failed, tonic::Status::new(tonic::Code::Ok, ""), timeout),
        Err(ExportFailure::ExportFailed(OtlpExporterError::TonicError(_)))
    ));
}

#[test]
fn metric_status_mapping() {
    let timeout = Timeout::from_secs(9);
    assert!(gen_metric_error(tonic::Status::new(tonic::Code::Ok, "fine"), timeout).is_ok());
    match gen_metric_error(tonic::Status::new(tonic::Code::Cancelled, "late"), timeout) {
        Err(ExportFailure::ExportTimedOut(t)) => assert_eq!(t, timeout),
        other => panic!("unexpected result: {:?}", other),
    }
    for code in [
        tonic::Code::Unknown,
        tonic::Code::DeadlineExceeded,
        tonic::Code::Unavailable,
        tonic::Code::Unauthenticated,
    ] {
        match gen_metric_error(tonic::Status::new(code, "m"), timeout) {
            Err(ExportFailure::ExportFailed(OtlpExporterError::TonicError(status))) => {
                assert_eq!(status.code(), code);
                assert_eq!(status.message(), "m");
            }
            other => panic!("unexpected result: {:?}", other),
        }
    }
    let status = || tonic::Status::new(tonic::Code::Internal, "");
    assert!(metric_result(CallEnd::Success, status(), timeout).is_ok());
    assert!(matches!(
        metric_result(CallEnd::Cancelled, status(), timeout),
        Err(ExportFailure::ExportTimedOut(t)) if t == timeout
    ));
    assert!(matches!(
        metric_result(CallEnd::Failed, status(), timeout),
        Err(ExportFailure::ExportFailed(OtlpExporterError::TonicError(_)))
    ));
    assert!(metric_export_result(CallReply::Delivered, timeout).is_ok());
    assert!(matches!(
        metric_export_result(
            CallReply::Status(tonic::Status::new(tonic::Code::Aborted, "")),
            timeout
        ),
        Err(ExportFailure::ExportFailed(OtlpExporterError::TonicError(_)))
    ));
    assert!(matches!(
        metric_export_result(CallReply::Status(tonic::Status::cancelled("")), timeout),
        Err(ExportFailure::ExportTimedOut(t)) if t == timeout
    ));
}

fn http_failure() -> reqwest::Error {
    reqwest::Client::new().get("not a url").build().unwrap_err()
}

#[test]
fn trace_exporter_is_the_backend_the_config_resolved_to() {
    let config = grpc("localhost:4317").with_insecure(true).add_header("X-A", "1");
    let mut exporter = TraceExporter::try_from(config.build().unwrap(), &never).unwrap();
    match &exporter {
        TraceExporter::Tonic(tonic) => {
            assert_eq!(tonic.client().endpoint, "http://localhost:4317/");
            assert_eq!(tonic.metadata_map().get("x-a").unwrap(), "1");
            assert_eq!(tonic.config().protocol(), Protocol::Grpc);
        }
        other => panic!("unexpected backend: {:?}", other),
    }
    assert_eq!(
        exporter.export_call().unwrap(),
        ExportCall::Tonic { timeout: Timeout::from_secs(10) }
    );
    assert!(exporter.force_flush().is_ok());
    exporter.shutdown();
    assert_eq!(
        exporter.export_call().unwrap(),
        ExportCall::Tonic { timeout: Timeout::from_secs(10) }
    );
    assert_eq!(exporter.config().endpoint().to_string(), "http://localhost:4317/");

    let config = grpc("localhost:4317")
        .with_grpc_impl(GrpcImpl::Grpcio(GrpcioConfig::default()))
        .with_timeout(Timeout::from_secs(4))
        .build()
        .unwrap();
    let exporter = TraceExporter::try_from(config, &never).unwrap();
    match &exporter {
        TraceExporter::Grpcio(grpcio) => {
            assert_eq!(grpcio.client().cq_count, 2);
            assert_eq!(
                grpcio.metadata(),
                &vec![("User-Agent".to_string(), "otlp-exporter-rust/0.1.0".to_string())]
            );
            assert_eq!(grpcio.config().timeout(), Timeout::from_secs(4));
        }
        other => panic!("unexpected backend: {:?}", other),
    }
    assert_eq!(
        exporter.export_call().unwrap(),
        ExportCall::Grpcio { timeout: Timeout::from_secs(4) }
    );

    let config = ConfigBuilder::default().with_endpoint("http://collector:4318/v1/traces");
    let exporter = TraceExporter::try_from(config.build().unwrap(), &never).unwrap();
    match &exporter {
        TraceExporter::Http(http) => {
            assert_eq!(http.encoder(), Encoder::Protobuf);
            assert!(http.client().tls.is_none());
            assert_eq!(http.config().protocol(), Protocol::HttpProtobuf);
        }
        other => panic!("unexpected backend: {:?}", other),
    }
    assert_eq!(
        exporter.export_call().unwrap(),
        ExportCall::HttpPost {
            url: "http://collector:4318/v1/traces".to_string(),
            content_type: "application/x-protobuf"
        }
    );

    let config = ConfigBuilder::default().with_protocol(Protocol::HttpJson).build().unwrap();
    let exporter = TraceExporter::try_from(config, &never).unwrap();
    assert!(matches!(&exporter, TraceExporter::Http(http) if http.encoder() == Encoder::Json));
    assert_eq!(
        unsupported(exporter.export_call().unwrap_err()),
        "encoding an export request as json is not supported"
    );
}

#[test]
fn headers_are_judged_before_the_channel() {
    // both the headers and the backend are wrong: the headers are named
    let config = ConfigBuilder::default().add_header("bad name", "v").build().unwrap();
    assert_eq!(
        config_error(TonicTraceExporter::try_new(config.clone(), &never).unwrap_err()),
        "invalid header name: bad name, error: invalid HTTP header name"
    );
    assert_eq!(
        config_error(
            otlp_exporter::exporter::metric::TonicMetricExporter::try_new(config, &never)
                .map(|_| ())
                .unwrap_err()
        ),
        "invalid header name: bad name, error: invalid HTTP header name"
    );
}

#[test]
fn trace_exporter_construction_fails_as_its_backend_does() {
    let config = grpc("localhost:4317").add_header("bad name", "v").build().unwrap();
    assert_eq!(
        config_error(TraceExporter::try_from(config, &never).unwrap_err()),
        "invalid header name: bad name, error: invalid HTTP header name"
    );
    let config = ConfigBuilder::default().add_header("x", "\n").build().unwrap();
    assert_eq!(
        config_error(TraceExporter::try_from(config, &never).unwrap_err()),
        "invalid header value: \n, error: failed to parse header value"
    );
    let unreadable =
        |_: &String| -> Result<String, io::Error> { Err(io::Error::from(io::ErrorKind::NotFound)) };
    let config = grpc("https://c:1").with_certificate_file("ca.pem").build().unwrap();
    assert!(matches!(
        TraceExporter::try_from(config, &unreadable),
        Err(OtlpExporterError::StdIoError(_))
    ));

    let http = ConfigBuilder::default().build().unwrap();
    assert_eq!(
        config_error(TonicTraceExporter::try_new(http.clone(), &never).unwrap_err()),
        "protocol is http/protobuf, not grpc"
    );
    assert_eq!(
        config_error(GrpcioTraceExporter::try_new(http, &never).unwrap_err()),
        "protocol is http/protobuf, not grpc"
    );
    let tonic = grpc("localhost:4317").build().unwrap();
    assert_eq!(
        config_error(HttpTraceExporter::try_new_in_protobuf(tonic.clone(), &never).unwrap_err()),
        "protocol is grpc, not http/protobuf/http/json"
    );
    assert_eq!(
        config_error(HttpTraceExporter::try_new_in_json(tonic, &never).unwrap_err()),
        "protocol is grpc, not http/protobuf/http/json"
    );
}

#[test]
fn trace_export_results() {
    let config = grpc("localhost:4317").with_timeout(Timeout::from_secs(2)).build().unwrap();
    let exporter = TraceExporter::try_from(config, &never).unwrap();
    assert!(exporter.export_result(CallReply::Delivered).is_ok());
    assert!(exporter
        .export_result(CallReply::Status(tonic::Status::new(tonic::Code::Ok, "")))
        .is_ok());
    match exporter.export_result(CallReply::Status(tonic::Status::cancelled("late"))) {
        Err(ExportFailure::ExportTimedOut(t)) => assert_eq!(t, Timeout::from_secs(2)),
        other => panic!("unexpected result: {:?}", other),
    }
    match exporter.export_result(CallReply::Status(tonic::Status::unavailable("down"))) {
        Err(ExportFailure::ExportFailed(OtlpExporterError::TonicError(status))) => {
            assert_eq!(status.code(), tonic::Code::Unavailable)
        }
        other => panic!("unexpected result: {:?}", other),
    }
    match exporter.export_result(CallReply::HttpFailed(http_failure())) {
        Err(ExportFailure::ExportFailed(OtlpExporterError::ReqwestError(e))) => {
            assert!(e.is_builder())
        }
        other => panic!("unexpected result: {:?}", other),
    }
    assert!(trace_export_result(CallReply::Delivered, Timeout::from_secs(1)).is_ok());
    assert!(matches!(
        trace_export_result(
            CallReply::Status(tonic::Status::cancelled("late")),
            Timeout::from_secs(1)
        ),
        Err(ExportFailure::ExportTimedOut(t)) if t == Timeout::from_secs(1)
    ));
}

#[test]
fn metric_exporter_is_the_backend_the_config_resolved_to() {
    let config = grpc("localhost:4317").with_timeout(Timeout::from_secs(6)).build().unwrap();
    let exporter = MetricExporter::try_new(config, "aggregation", 7u8, &never).unwrap();
    assert_eq!(*exporter.aggregator_selector(), "aggregation");
    assert_eq!(*exporter.temporality_selector(), 7u8);
    match exporter.inner() {
        InnerMetricExporter::Tonic(tonic) => {
            assert_eq!(tonic.client().endpoint, "https://localhost:4317/");
            assert_eq!(tonic.metadata_map().len(), 1);
        }
        other => panic!("unexpected backend: {:?}", other),
    }
    assert_eq!(
        exporter.export_call().unwrap(),
        ExportCall::Tonic { timeout: Timeout::from_secs(6) }
    );
    assert!(exporter.force_flush().is_ok());
    assert!(exporter.shutdown().is_ok());
    assert!(exporter.force_flush().is_ok());
    assert_eq!(
        exporter.export_call().unwrap(),
        ExportCall::Tonic { timeout: Timeout::from_secs(6) }
    );
    assert!(exporter.export_result(CallReply::Delivered).is_ok());
    assert!(matches!(
        exporter.export_result(CallReply::Status(tonic::Status::cancelled("late"))),
        Err(ExportFailure::ExportTimedOut(t)) if t == Timeout::from_secs(6)
    ));
    assert!(matches!(
        exporter.export_result(CallReply::Status(tonic::Status::unavailable("down"))),
        Err(ExportFailure::ExportFailed(OtlpExporterError::TonicError(_)))
    ));
    assert!(matches!(
        exporter.export_result(CallReply::HttpFailed(http_failure())),
        Err(ExportFailure::ExportFailed(OtlpExporterError::ReqwestError(_)))
    ));
    assert_eq!(exporter.inner().timeout(), Timeout::from_secs(6));

    let config = grpc("localhost:4317")
        .with_grpc_impl(GrpcImpl::Grpcio(GrpcioConfig::default().with_cq_count(3)))
        .with_timeout(Timeout::from_secs(8))
        .build()
        .unwrap();
    let exporter = MetricExporter::try_new(config, (), (), &never).unwrap();
    match exporter.inner() {
        InnerMetricExporter::Grpcio(grpcio) => {
            assert_eq!(grpcio.client().cq_count, 3);
            assert_eq!(grpcio.metadata().len(), 1);
            assert_eq!(grpcio.config().protocol(), Protocol::Grpc);
        }
        other => panic!("unexpected backend: {:?}", other),
    }
    assert_eq!(
        exporter.export_call().unwrap(),
        ExportCall::Grpcio { timeout: Timeout::from_secs(8) }
    );
    assert!(matches!(
        exporter.export_result(CallReply::Status(tonic::Status::cancelled("late"))),
        Err(ExportFailure::ExportTimedOut(t)) if t == Timeout::from_secs(8)
    ));

    let config = ConfigBuilder::default().with_endpoint("http://collector:4318/v1/metrics");
    let exporter = MetricExporter::try_new(config.build().unwrap(), (), (), &never).unwrap();
    match exporter.inner() {
        InnerMetricExporter::Http(http) => {
            assert_eq!(http.encoder(), Encoder::Protobuf);
            assert_eq!(http.config().protocol(), Protocol::HttpProtobuf);
            assert_eq!(http.client().timeout, Timeout::from_secs(10));
            assert_eq!(
                http.gen_request_builder().unwrap(),
                ExportCall::HttpPost {
                    url: "http://collector:4318/v1/metrics".to_string(),
                    content_type: "application/x-protobuf"
                }
            );
        }
        other => panic!("unexpected backend: {:?}", other),
    }
}

#[test]
fn metrics_are_not_written_as_json() {
    let config = ConfigBuilder::default().with_protocol(Protocol::HttpJson).build().unwrap();
    assert_eq!(
        unsupported(MetricExporter::try_new(config.clone(), (), (), &never).unwrap_err()),
        "exporting metrics over http/json is not supported"
    );
    assert_eq!(
        unsupported(HttpMetricExporter::try_new_in_json(config).unwrap_err()),
        "exporting metrics over http/json is not supported"
    );
    let grpc_config: Config = grpc("localhost:4317").build().unwrap();
    assert_eq!(
        config_error(HttpMetricExporter::try_new_in_protobuf(grpc_config, &never).unwrap_err()),
        "protocol is grpc, not http/protobuf/http/json"
    );
}
