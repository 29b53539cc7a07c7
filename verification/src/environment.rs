//! The environment cascade: compiled defaults, then the generic OTLP
//! variables, then the variables of one signal, each layer over the one
//! before. The environment itself is handed in as a value; nothing here
//! reads the process.

use crate::config::{
    default_endpoint, default_endpoint_spec, ConfigBuilder, ConfigBuilderView, DataType, Protocol, Timeout, NANOS_PER_SEC,
    OTEL_EXPORTER_OTLP_CERTIFICATE, OTEL_EXPORTER_OTLP_CLIENT_CERTIFICATE,
    OTEL_EXPORTER_OTLP_CLIENT_KEY, OTEL_EXPORTER_OTLP_ENDPOINT, OTEL_EXPORTER_OTLP_HEADERS,
    OTEL_EXPORTER_OTLP_INSECURE, OTEL_EXPORTER_OTLP_LOGS_CERTIFICATE,
    OTEL_EXPORTER_OTLP_LOGS_CLIENT_CERTIFICATE, OTEL_EXPORTER_OTLP_LOGS_CLIENT_KEY,
    OTEL_EXPORTER_OTLP_LOGS_ENDPOINT, OTEL_EXPORTER_OTLP_LOGS_HEADERS,
    OTEL_EXPORTER_OTLP_LOGS_INSECURE, OTEL_EXPORTER_OTLP_LOGS_PROTOCOL,
    OTEL_EXPORTER_OTLP_LOGS_TIMEOUT, OTEL_EXPORTER_OTLP_METRICS_CERTIFICATE,
    OTEL_EXPORTER_OTLP_METRICS_CLIENT_CERTIFICATE, OTEL_EXPORTER_OTLP_METRICS_CLIENT_KEY,
    OTEL_EXPORTER_OTLP_METRICS_ENDPOINT, OTEL_EXPORTER_OTLP_METRICS_HEADERS,
    OTEL_EXPORTER_OTLP_METRICS_INSECURE, OTEL_EXPORTER_OTLP_METRICS_PROTOCOL,
    OTEL_EXPORTER_OTLP_METRICS_TIMEOUT, OTEL_EXPORTER_OTLP_PROTOCOL,
    OTEL_EXPORTER_OTLP_TIMEOUT, OTEL_EXPORTER_OTLP_TRACES_CERTIFICATE,
    OTEL_EXPORTER_OTLP_TRACES_CLIENT_CERTIFICATE, OTEL_EXPORTER_OTLP_TRACES_CLIENT_KEY,
    OTEL_EXPORTER_OTLP_TRACES_ENDPOINT, OTEL_EXPORTER_OTLP_TRACES_HEADERS,
    OTEL_EXPORTER_OTLP_TRACES_INSECURE, OTEL_EXPORTER_OTLP_TRACES_PROTOCOL,
    OTEL_EXPORTER_OTLP_TRACES_TIMEOUT,
};
use crate::headers::{default_headers_view, with_header_text, Headers};
use crate::text::{
    chars_of, lemma_trim_end_matches, parse_u64_range, parse_u64_spec, same_text, substring,
    trim_end_matches, trim_end_matches_range,
};
use vstd::prelude::*;

verus! {

/// What an [`Environment`] is, mathematically: variable names with their
/// values.
pub type EnvironmentView = Map<Seq<char>, Seq<char>>;

/// The variables that a list of settings leaves: a later setting of a name
/// overrides an earlier one.
pub open spec fn vars_map(vars: Seq<(String, String)>) -> EnvironmentView
    decreases vars.len(),
{
    if vars.len() == 0 {
        Map::empty()
    } else {
        vars_map(vars.drop_last()).insert(vars.last().0@, vars.last().1@)
    }
}

/// The value of the variable `name`, where it is set.
pub open spec fn env_var(env: EnvironmentView, name: Seq<char>) -> Option<Seq<char>> {
    if env.contains_key(name) {
        Some(env[name])
    } else {
        None
    }
}

proof fn lemma_vars_map_tail(vars: Seq<(String, String)>, i: int, name: Seq<char>)
    requires
        0 <= i <= vars.len(),
        forall|j: int| i <= j < vars.len() ==> (#[trigger] vars[j]).0@ != name,
    ensures
        env_var(vars_map(vars), name) == env_var(vars_map(vars.take(i)), name),
    decreases vars.len() - i,
{
    if i < vars.len() {
        let init = vars.drop_last();
        assert(vars.last() == vars[vars.len() - 1]);
        assert forall|j: int| i <= j < init.len() implies (#[trigger] init[j]).0@ != name by {
            assert(init[j] == vars[j]);
        }
        lemma_vars_map_tail(init, i, name);
        assert(init.take(i) == vars.take(i));
    } else {
        assert(vars.take(i) == vars);
    }
}

/// A snapshot of environment variables: the names that are set, each with
/// its value. Only variables whose value is text can be held.
#[derive(Clone, Debug)]
pub struct Environment {
    vars: Vec<(String, String)>,
}

impl View for Environment {
    type V = EnvironmentView;

    closed spec fn view(&self) -> EnvironmentView {
        vars_map(self.vars@)
    }
}

impl Environment {
    /// An environment in which no variable is set.
    pub fn new() -> (r: Environment)
        ensures
            r@ == Map::<Seq<char>, Seq<char>>::empty(),
    {
        Environment { vars: Vec::new() }
    }

    /// Sets the variable `name` to `value`.
    pub fn set(&mut self, name: &str, value: &str)
        ensures
            final(self)@ == old(self)@.insert(name@, value@),
    {
        let ghost before = self.vars@;
        self.vars.push((name.to_owned(), value.to_owned()));
        assert(self.vars@.drop_last() == before);
    }

    /// Unsets the variable `name`.
    pub fn remove(&mut self, name: &str)
        ensures
            final(self)@ == old(self)@.remove(name@),
    {
        let ghost before = self.vars@;
        let mut kept: Vec<(String, String)> = Vec::new();
        let mut i: usize = 0;
        while i < self.vars.len()
            invariant
                i <= self.vars@.len(),
                self.vars@ == before,
                vars_map(kept@) == vars_map(before.take(i as int)).remove(name@),
            decreases self.vars@.len() - i,
        {
            let ghost seen = before.take(i as int + 1);
            assert(seen.drop_last() == before.take(i as int));
            assert(seen.last() == before[i as int]);
            if !same_text(self.vars[i].0.as_str(), name) {
                let ghost kept_before = kept@;
                kept.push((self.vars[i].0.clone(), self.vars[i].1.clone()));
                assert(kept@.drop_last() == kept_before);
                assert(vars_map(kept@) == vars_map(seen).remove(name@));
            } else {
                assert(vars_map(kept@) == vars_map(seen).remove(name@));
            }
            i += 1;
        }
        assert(before.take(i as int) == before);
        self.vars = kept;
    }

    /// The value of the variable `name`, where it is set.
    pub fn var(&self, name: &str) -> (r: Option<&String>)
        ensures
            match r {
                Some(value) => env_var(self@, name@) == Some(value@),
                None => env_var(self@, name@).is_none(),
            },
    {
        let mut i: usize = self.vars.len();
        while i > 0
            invariant
                i <= self.vars@.len(),
                forall|j: int| i <= j < self.vars@.len() ==> (#[trigger] self.vars@[j]).0@ != name@,
            decreases i,
        {
            if same_text(self.vars[i - 1].0.as_str(), name) {
                proof {
                    lemma_vars_map_tail(self.vars@, i as int, name@);
                    let seen = self.vars@.take(i as int);
                    assert(seen.last() == self.vars@[i - 1]);
                }
                return Some(&self.vars[i - 1].1);
            }
            i -= 1;
        }
        proof {
            lemma_vars_map_tail(self.vars@, 0, name@);
        }
        None
    }
}

/// The names of the variables of one layer of the cascade.
pub struct VarNames {
    /// The variable that names the endpoint.
    pub endpoint: &'static str,
    /// The variable that gives the timeout.
    pub timeout: &'static str,
    /// The variable that says whether to do without transport security.
    pub insecure: &'static str,
    /// The variable that names the trusted certificate's file.
    pub certificate: &'static str,
    /// The variable that names the client key's file.
    pub client_key: &'static str,
    /// The variable that names the client certificate's file.
    pub client_certificate: &'static str,
    /// The variable that lists headers.
    pub headers: &'static str,
    /// The variable that names the protocol.
    pub protocol: &'static str,
}

/// The generic variables, which hold for every signal.
pub open spec fn generic_vars_spec() -> VarNames {
    VarNames {
        endpoint: OTEL_EXPORTER_OTLP_ENDPOINT,
        timeout: OTEL_EXPORTER_OTLP_TIMEOUT,
        insecure: OTEL_EXPORTER_OTLP_INSECURE,
        certificate: OTEL_EXPORTER_OTLP_CERTIFICATE,
        client_key: OTEL_EXPORTER_OTLP_CLIENT_KEY,
        client_certificate: OTEL_EXPORTER_OTLP_CLIENT_CERTIFICATE,
        headers: OTEL_EXPORTER_OTLP_HEADERS,
        protocol: OTEL_EXPORTER_OTLP_PROTOCOL,
    }
}

/// The variables of one signal.
pub open spec fn signal_vars_spec(signal: DataType) -> VarNames {
    match signal {
        DataType::Trace => VarNames {
            endpoint: OTEL_EXPORTER_OTLP_TRACES_ENDPOINT,
            timeout: OTEL_EXPORTER_OTLP_TRACES_TIMEOUT,
            insecure: OTEL_EXPORTER_OTLP_TRACES_INSECURE,
            certificate: OTEL_EXPORTER_OTLP_TRACES_CERTIFICATE,
            client_key: OTEL_EXPORTER_OTLP_TRACES_CLIENT_KEY,
            client_certificate: OTEL_EXPORTER_OTLP_TRACES_CLIENT_CERTIFICATE,
            headers: OTEL_EXPORTER_OTLP_TRACES_HEADERS,
            protocol: OTEL_EXPORTER_OTLP_TRACES_PROTOCOL,
        },
        DataType::Metric => VarNames {
            endpoint: OTEL_EXPORTER_OTLP_METRICS_ENDPOINT,
            timeout: OTEL_EXPORTER_OTLP_METRICS_TIMEOUT,
            insecure: OTEL_EXPORTER_OTLP_METRICS_INSECURE,
            certificate: OTEL_EXPORTER_OTLP_METRICS_CERTIFICATE,
            client_key: OTEL_EXPORTER_OTLP_METRICS_CLIENT_KEY,
            client_certificate: OTEL_EXPORTER_OTLP_METRICS_CLIENT_CERTIFICATE,
            headers: OTEL_EXPORTER_OTLP_METRICS_HEADERS,
            protocol: OTEL_EXPORTER_OTLP_METRICS_PROTOCOL,
        },
        DataType::Log => VarNames {
            endpoint: OTEL_EXPORTER_OTLP_LOGS_ENDPOINT,
            timeout: OTEL_EXPORTER_OTLP_LOGS_TIMEOUT,
            insecure: OTEL_EXPORTER_OTLP_LOGS_INSECURE,
            certificate: OTEL_EXPORTER_OTLP_LOGS_CERTIFICATE,
            client_key: OTEL_EXPORTER_OTLP_LOGS_CLIENT_KEY,
            client_certificate: OTEL_EXPORTER_OTLP_LOGS_CLIENT_CERTIFICATE,
            headers: OTEL_EXPORTER_OTLP_LOGS_HEADERS,
            protocol: OTEL_EXPORTER_OTLP_LOGS_PROTOCOL,
        },
    }
}

/// The generic variables, which hold for every signal.
pub fn generic_vars() -> (r: VarNames)
    ensures
        r == generic_vars_spec(),
{
    VarNames {
        endpoint: OTEL_EXPORTER_OTLP_ENDPOINT,
        timeout: OTEL_EXPORTER_OTLP_TIMEOUT,
        insecure: OTEL_EXPORTER_OTLP_INSECURE,
        certificate: OTEL_EXPORTER_OTLP_CERTIFICATE,
        client_key: OTEL_EXPORTER_OTLP_CLIENT_KEY,
        client_certificate: OTEL_EXPORTER_OTLP_CLIENT_CERTIFICATE,
        headers: OTEL_EXPORTER_OTLP_HEADERS,
        protocol: OTEL_EXPORTER_OTLP_PROTOCOL,
    }
}

/// The variables of one signal.
pub fn signal_vars(signal: DataType) -> (r: VarNames)
    ensures
        r == signal_vars_spec(signal),
{
    match signal {
        DataType::Trace => VarNames {
            endpoint: OTEL_EXPORTER_OTLP_TRACES_ENDPOINT,
            timeout: OTEL_EXPORTER_OTLP_TRACES_TIMEOUT,
            insecure: OTEL_EXPORTER_OTLP_TRACES_INSECURE,
            certificate: OTEL_EXPORTER_OTLP_TRACES_CERTIFICATE,
            client_key: OTEL_EXPORTER_OTLP_TRACES_CLIENT_KEY,
            client_certificate: OTEL_EXPORTER_OTLP_TRACES_CLIENT_CERTIFICATE,
            headers: OTEL_EXPORTER_OTLP_TRACES_HEADERS,
            protocol: OTEL_EXPORTER_OTLP_TRACES_PROTOCOL,
        },
        DataType::Metric => VarNames {
            endpoint: OTEL_EXPORTER_OTLP_METRICS_ENDPOINT,
            timeout: OTEL_EXPORTER_OTLP_METRICS_TIMEOUT,
            insecure: OTEL_EXPORTER_OTLP_METRICS_INSECURE,
            certificate: OTEL_EXPORTER_OTLP_METRICS_CERTIFICATE,
            client_key: OTEL_EXPORTER_OTLP_METRICS_CLIENT_KEY,
            client_certificate: OTEL_EXPORTER_OTLP_METRICS_CLIENT_CERTIFICATE,
            headers: OTEL_EXPORTER_OTLP_METRICS_HEADERS,
            protocol: OTEL_EXPORTER_OTLP_METRICS_PROTOCOL,
        },
        DataType::Log => VarNames {
            endpoint: OTEL_EXPORTER_OTLP_LOGS_ENDPOINT,
            timeout: OTEL_EXPORTER_OTLP_LOGS_TIMEOUT,
            insecure: OTEL_EXPORTER_OTLP_LOGS_INSECURE,
            certificate: OTEL_EXPORTER_OTLP_LOGS_CERTIFICATE,
            client_key: OTEL_EXPORTER_OTLP_LOGS_CLIENT_KEY,
            client_certificate: OTEL_EXPORTER_OTLP_LOGS_CLIENT_CERTIFICATE,
            headers: OTEL_EXPORTER_OTLP_LOGS_HEADERS,
            protocol: OTEL_EXPORTER_OTLP_LOGS_PROTOCOL,
        },
    }
}

/// The path that a signal's requests go to under an HTTP endpoint.
pub open spec fn signal_path_spec(signal: DataType) -> Seq<char> {
    match signal {
        DataType::Trace => "/v1/traces"@,
        DataType::Metric => "/v1/metrics"@,
        DataType::Log => "/v1/logs"@,
    }
}

/// The path that a signal's requests go to under an HTTP endpoint.
pub fn signal_path(signal: DataType) -> (r: &'static str)
    ensures
        r@ == signal_path_spec(signal),
{
    match signal {
        DataType::Trace => "/v1/traces",
        DataType::Metric => "/v1/metrics",
        DataType::Log => "/v1/logs",
    }
}

/// The protocol that `text` names: exactly `http/protobuf`, `http/json` or
/// `grpc`.
pub open spec fn parse_protocol_spec(text: Seq<char>) -> Option<Protocol> {
    if text == "http/protobuf"@ {
        Some(Protocol::HttpProtobuf)
    } else if text == "http/json"@ {
        Some(Protocol::HttpJson)
    } else if text == "grpc"@ {
        Some(Protocol::Grpc)
    } else {
        None
    }
}

/// The boolean that `text` writes: exactly `true` or `false`.
pub open spec fn parse_bool_spec(text: Seq<char>) -> Option<bool> {
    if text == "true"@ {
        Some(true)
    } else if text == "false"@ {
        Some(false)
    } else {
        None
    }
}

/// `text` without one trailing `s` or `S`.
pub open spec fn without_seconds_suffix(text: Seq<char>) -> Seq<char> {
    if text.len() > 0 && (text.last() == 's' || text.last() == 'S') {
        text.drop_last()
    } else {
        text
    }
}

/// The timeout that `text` writes: a whole number of seconds, which may be
/// followed by one `s` or `S`.
pub open spec fn parse_duration_spec(text: Seq<char>) -> Option<Timeout> {
    match parse_u64_spec(without_seconds_suffix(text)) {
        Some(secs) => Some(Timeout { nanos: (secs * NANOS_PER_SEC) as u128 }),
        None => None,
    }
}

/// The endpoint of a signal for which no endpoint variable of its own is set.
///
/// It starts from the global endpoint where the signal's protocol is the
/// global one, and from the default endpoint of the signal's protocol where
/// it is not. Under gRPC that is the endpoint. Under HTTP its trailing
/// slashes go and the signal's path is put behind it.
pub open spec fn gen_endpoint_spec(
    cur_protocol: Protocol,
    global_protocol: Protocol,
    path: Seq<char>,
    endpoint: Seq<char>,
) -> Seq<char> {
    let base = if cur_protocol == global_protocol {
        endpoint
    } else {
        default_endpoint_spec(cur_protocol)
    };
    if cur_protocol == Protocol::Grpc {
        base
    } else {
        trim_end_matches(base, '/') + path
    }
}

/// The protocol that `text` names.
pub fn parse_protocol(text: &str) -> (r: Option<Protocol>)
    ensures
        r == parse_protocol_spec(text@),
{
    if same_text(text, "http/protobuf") {
        Some(Protocol::HttpProtobuf)
    } else if same_text(text, "http/json") {
        Some(Protocol::HttpJson)
    } else if same_text(text, "grpc") {
        Some(Protocol::Grpc)
    } else {
        None
    }
}

/// The boolean that `text` writes.
pub fn parse_bool(text: &str) -> (r: Option<bool>)
    ensures
        r == parse_bool_spec(text@),
{
    if same_text(text, "true") {
        Some(true)
    } else if same_text(text, "false") {
        Some(false)
    } else {
        None
    }
}

/// The timeout that `text` writes.
pub fn parse_duration(text: &str) -> (r: Option<Timeout>)
    ensures
        r == parse_duration_spec(text@),
{
    let chars = chars_of(text);
    let n = chars.len();
    let end = if n > 0 && (chars[n - 1] == 's' || chars[n - 1] == 'S') {
        n - 1
    } else {
        n
    };
    assert(chars@.subrange(0, end as int) == without_seconds_suffix(text@));
    match parse_u64_range(&chars, 0, end) {
        Some(secs) => Some(Timeout::from_secs(secs)),
        None => None,
    }
}

/// The header set that the header list `text` writes: the default headers
/// with the items of the list read on top.
pub fn parse_headers(text: &str) -> (r: Headers)
    ensures
        r@ == with_header_text(default_headers_view(), text@),
{
    Headers::default_set().with_text(text)
}

/// The endpoint of a signal for which no endpoint variable of its own is set.
pub fn gen_endpoint(
    cur_protocol: Protocol,
    global_protocol: Protocol,
    path: &str,
    endpoint: &str,
) -> (r: String)
    ensures
        r@ == gen_endpoint_spec(cur_protocol, global_protocol, path@, endpoint@),
{
    let base: &str = if cur_protocol == global_protocol {
        endpoint
    } else {
        default_endpoint(cur_protocol)
    };
    if cur_protocol == Protocol::Grpc {
        base.to_owned()
    } else {
        let chars = chars_of(base);
        let end = trim_end_matches_range(&chars, chars.len(), '/');
        assert(chars@.take(chars@.len() as int) == chars@);
        assert(base@.subrange(0, end as int) == chars@.take(end as int));
        substring(base, 0, end).concat(path)
    }
}

/// What one layer of variables makes of the settings `b`.
///
/// Timeout and the insecure flag change where their variable is set and can
/// be read; the three file paths where their variable is set. The header
/// variable, where set, has its items read on top of the default headers if
/// `fresh_headers` is set, and on top of the headers of `b` if not. Endpoint
/// and protocol are not this function's business.
pub open spec fn overlaid(
    b: ConfigBuilderView,
    env: EnvironmentView,
    names: VarNames,
    fresh_headers: bool,
) -> ConfigBuilderView {
    ConfigBuilderView {
        timeout: match env_var(env, names.timeout@) {
            Some(text) => match parse_duration_spec(text) {
                Some(timeout) => timeout,
                None => b.timeout,
            },
            None => b.timeout,
        },
        insecure: match env_var(env, names.insecure@) {
            Some(text) => match parse_bool_spec(text) {
                Some(insecure) => insecure,
                None => b.insecure,
            },
            None => b.insecure,
        },
        certificate_file: match env_var(env, names.certificate@) {
            Some(path) => Some(path),
            None => b.certificate_file,
        },
        client_key_file: match env_var(env, names.client_key@) {
            Some(path) => Some(path),
            None => b.client_key_file,
        },
        client_certificate_file: match env_var(env, names.client_certificate@) {
            Some(path) => Some(path),
            None => b.client_certificate_file,
        },
        headers: match env_var(env, names.headers@) {
            Some(text) => with_header_text(
                if fresh_headers {
                    default_headers_view()
                } else {
                    b.headers
                },
                text,
            ),
            None => b.headers,
        },
        ..b
    }
}

/// The protocol that the variable `name` selects; `fallback` where it is not
/// set or names no protocol.
pub open spec fn protocol_from(env: EnvironmentView, name: Seq<char>, fallback: Protocol) -> Protocol {
    match env_var(env, name) {
        Some(text) => match parse_protocol_spec(text) {
            Some(protocol) => protocol,
            None => fallback,
        },
        None => fallback,
    }
}

/// The value of the variable `name`; `fallback` where it is not set.
pub open spec fn text_from(env: EnvironmentView, name: Seq<char>, fallback: Seq<char>) -> Seq<char> {
    match env_var(env, name) {
        Some(text) => text,
        None => fallback,
    }
}

/// The protocol that holds for all signals: what the generic protocol
/// variable names, else the protocol that the settings `b` hold.
pub open spec fn global_protocol(b: ConfigBuilderView, env: EnvironmentView) -> Protocol {
    protocol_from(env, OTEL_EXPORTER_OTLP_PROTOCOL@, b.protocol)
}

/// The endpoint that holds for all signals: the generic endpoint variable,
/// else the endpoint that the settings `b` hold.
pub open spec fn global_endpoint(b: ConfigBuilderView, env: EnvironmentView) -> Seq<char> {
    text_from(env, OTEL_EXPORTER_OTLP_ENDPOINT@, b.endpoint)
}

/// The settings that the environment `env` resolves to for `data_type`,
/// starting from the settings `b`.
///
/// Every setting starts from what `b` holds, be it the compiled default or
/// what was set since. The generic variables come over that, and a signal's
/// own variables over those; a variable that is not set, or that cannot be
/// read, leaves the setting as it is.
///
/// Two settings of a signal go their own way. A signal without an endpoint
/// variable of its own gets the endpoint that [`gen_endpoint_spec`] derives
/// from the global protocol and endpoint. And a signal's header list does
/// not take the place of the generic one: the generic list is read on top of
/// the default headers, the signal's list on top of what that left.
pub open spec fn resolved(
    b: ConfigBuilderView,
    data_type: Option<DataType>,
    env: EnvironmentView,
) -> ConfigBuilderView {
    let generic = overlaid(b, env, generic_vars_spec(), true);
    match data_type {
        None => ConfigBuilderView {
            protocol: global_protocol(b, env),
            endpoint: global_endpoint(b, env),
            ..generic
        },
        Some(signal) => {
            let names = signal_vars_spec(signal);
            let protocol = protocol_from(env, names.protocol@, global_protocol(b, env));
            ConfigBuilderView {
                protocol,
                endpoint: text_from(
                    env,
                    names.endpoint@,
                    gen_endpoint_spec(
                        protocol,
                        global_protocol(b, env),
                        signal_path_spec(signal),
                        global_endpoint(b, env),
                    ),
                ),
                ..overlaid(generic, env, names, false)
            }
        },
    }
}

impl ConfigBuilder {
    /// Resolves the settings against the environment `env`, for the signal
    /// `data_type` or, with `None`, for no signal in particular.
    ///
    /// This never fails. A variable that is not set, or whose value cannot be
    /// read as what it stands for, counts for nothing: the setting stays as
    /// the layer below left it (see [`resolved`]).
    pub fn with_env(self, data_type: Option<DataType>, env: &Environment) -> (r: ConfigBuilder)
        ensures
            r@ == resolved(self@, data_type, env@),
    {
        proof {
            self.lemma_view();
        }
        let protocol = read_protocol(env, OTEL_EXPORTER_OTLP_PROTOCOL, self.protocol);
        let endpoint = match env.var(OTEL_EXPORTER_OTLP_ENDPOINT) {
            Some(text) => text.clone(),
            None => self.endpoint.clone(),
        };
        let generic = self.overlay(env, &generic_vars(), true);
        match data_type {
            None => {
                let mut b = generic;
                proof {
                    b.lemma_view();
                }
                b.protocol = protocol;
                b.endpoint = endpoint;
                proof {
                    b.lemma_view();
                }
                b
            },
            Some(signal) => {
                let names = signal_vars(signal);
                let signal_protocol = read_protocol(env, names.protocol, protocol);
                let signal_endpoint = match env.var(names.endpoint) {
                    Some(text) => text.clone(),
                    None => gen_endpoint(
                        signal_protocol,
                        protocol,
                        signal_path(signal),
                        endpoint.as_str(),
                    ),
                };
                let mut b = generic.overlay(env, &names, false);
                proof {
                    b.lemma_view();
                }
                b.protocol = signal_protocol;
                b.endpoint = signal_endpoint;
                proof {
                    b.lemma_view();
                }
                b
            },
        }
    }

    /// Applies one layer of variables: see [`overlaid`].
    pub fn overlay(self, env: &Environment, names: &VarNames, fresh_headers: bool) -> (r:
        ConfigBuilder)
        ensures
            r@ == overlaid(self@, env@, *names, fresh_headers),
    {
        proof {
            self.lemma_view();
        }
        let ConfigBuilder {
            endpoint,
            insecure,
            certificate_file,
            client_key_file,
            client_certificate_file,
            headers,
            timeout,
            protocol,
            grpc_impl,
            certificate_domain,
        } = self;
        let timeout = match env.var(names.timeout) {
            Some(text) => match parse_duration(text.as_str()) {
                Some(t) => t,
                None => timeout,
            },
            None => timeout,
        };
        let insecure = match env.var(names.insecure) {
            Some(text) => match parse_bool(text.as_str()) {
                Some(flag) => flag,
                None => insecure,
            },
            None => insecure,
        };
        let certificate_file = match env.var(names.certificate) {
            Some(path) => Some(path.clone()),
            None => certificate_file,
        };
        let client_key_file = match env.var(names.client_key) {
            Some(path) => Some(path.clone()),
            None => client_key_file,
        };
        let client_certificate_file = match env.var(names.client_certificate) {
            Some(path) => Some(path.clone()),
            None => client_certificate_file,
        };
        let headers = match env.var(names.headers) {
            Some(text) => if fresh_headers {
                parse_headers(text.as_str())
            } else {
                headers.with_text(text.as_str())
            },
            None => headers,
        };
        let r = ConfigBuilder {
            endpoint,
            insecure,
            certificate_file,
            client_key_file,
            client_certificate_file,
            headers,
            timeout,
            protocol,
            grpc_impl,
            certificate_domain,
        };
        proof {
            r.lemma_view();
        }
        r
    }
}

/// The protocol that the variable `name` selects; `fallback` where it is not
/// set or names no protocol.
pub fn read_protocol(env: &Environment, name: &str, fallback: Protocol) -> (r: Protocol)
    ensures
        r == protocol_from(env@, name@, fallback),
{
    match env.var(name) {
        Some(text) => match parse_protocol(text.as_str()) {
            Some(protocol) => protocol,
            None => fallback,
        },
        None => fallback,
    }
}

/// Whether the variable `name` leaves a timeout alone: it is not set, or its
/// value is not a timeout.
pub open spec fn no_timeout_in(env: EnvironmentView, name: Seq<char>) -> bool {
    match env_var(env, name) {
        Some(text) => parse_duration_spec(text).is_none(),
        None => true,
    }
}

/// One layer of variables whose timeout variable is unset or malformed
/// leaves the timeout as it found it.
pub proof fn lemma_malformed_timeout_keeps_layer(
    b: ConfigBuilderView,
    env: EnvironmentView,
    names: VarNames,
    fresh_headers: bool,
)
    requires
        no_timeout_in(env, names.timeout@),
    ensures
        overlaid(b, env, names, fresh_headers).timeout == b.timeout,
{
}

/// A malformed timeout variable leaves the timeout that was configured
/// before, be it the default or one set earlier: where the generic timeout
/// variable, and for a signal also the signal's own, is unset or cannot be
/// read as a timeout, resolving keeps the timeout of the settings it started
/// from.
pub proof fn lemma_malformed_timeout_keeps_prior(
    b: ConfigBuilderView,
    data_type: Option<DataType>,
    env: EnvironmentView,
)
    requires
        no_timeout_in(env, OTEL_EXPORTER_OTLP_TIMEOUT@),
        data_type matches Some(signal) ==> no_timeout_in(env, signal_vars_spec(signal).timeout@),
    ensures
        resolved(b, data_type, env).timeout == b.timeout,
{
}

/// A malformed timeout variable of a signal leaves the timeout that the
/// generic layer resolved to.
pub proof fn lemma_malformed_signal_timeout_keeps_generic(
    b: ConfigBuilderView,
    signal: DataType,
    env: EnvironmentView,
)
    requires
        no_timeout_in(env, signal_vars_spec(signal).timeout@),
    ensures
        resolved(b, Some(signal), env).timeout == resolved(b, None, env).timeout,
{
}

/// `abc` is no timeout.
pub proof fn lemma_abc_is_no_timeout()
    ensures
        parse_duration_spec("abc"@).is_none(),
{
    reveal_strlit("abc");
    let text = "abc"@;
    assert(without_seconds_suffix(text) == text);
    assert(!crate::text::is_digit(text[0]));
}

/// Under HTTP, the endpoint derived for a signal is a stem followed by the
/// signal's path, and the stem does not end in a slash: however many slashes
/// end the endpoint that the derivation starts from, none is doubled.
pub proof fn lemma_derived_endpoint_has_no_double_slash(
    cur_protocol: Protocol,
    global_protocol: Protocol,
    path: Seq<char>,
    endpoint: Seq<char>,
)
    requires
        cur_protocol != Protocol::Grpc,
    ensures
        ({
            let derived = gen_endpoint_spec(cur_protocol, global_protocol, path, endpoint);
            let stem = derived.take(derived.len() - path.len());
            &&& derived == stem + path
            &&& stem.len() > 0 ==> stem.last() != '/'
        }),
{
    let base = if cur_protocol == global_protocol {
        endpoint
    } else {
        default_endpoint_spec(cur_protocol)
    };
    lemma_trim_end_matches(base, '/');
    let stem = trim_end_matches(base, '/');
    assert((stem + path).take(stem.len() as int) == stem);
}

/// Under gRPC no path is put behind an endpoint: a signal whose protocol is
/// the global one gets the global endpoint unchanged.
pub proof fn lemma_grpc_endpoint_is_unchanged(path: Seq<char>, endpoint: Seq<char>)
    ensures
        gen_endpoint_spec(Protocol::Grpc, Protocol::Grpc, path, endpoint) == endpoint,
{
}

/// A signal's own endpoint variable is used as it is written.
pub proof fn lemma_signal_endpoint_is_verbatim(
    b: ConfigBuilderView,
    signal: DataType,
    env: EnvironmentView,
)
    requires
        env.contains_key(signal_vars_spec(signal).endpoint@),
    ensures
        resolved(b, Some(signal), env).endpoint == env[signal_vars_spec(signal).endpoint@],
{
}

/// Where the generic protocol variable is not set, or names no protocol,
/// the protocol stays what the settings held before, the default or one set
/// since; and so does the endpoint where the generic endpoint variable is not
/// set.
pub proof fn lemma_unset_protocol_and_endpoint_keep_prior(
    b: ConfigBuilderView,
    env: EnvironmentView,
)
    ensures
        (match env_var(env, OTEL_EXPORTER_OTLP_PROTOCOL@) {
            Some(text) => parse_protocol_spec(text).is_none(),
            None => true,
        }) ==> resolved(b, None, env).protocol == b.protocol,
        env_var(env, OTEL_EXPORTER_OTLP_ENDPOINT@).is_none() ==> resolved(b, None, env).endpoint
            == b.endpoint,
{
}

/// A signal's header list is read on top of what holds for all signals: its
/// items come behind the values that are there, and nothing is taken away.
pub proof fn lemma_signal_headers_come_on_top(
    b: ConfigBuilderView,
    signal: DataType,
    env: EnvironmentView,
)
    ensures
        resolved(b, Some(signal), env).headers == match env_var(
            env,
            signal_vars_spec(signal).headers@,
        ) {
            Some(text) => with_header_text(resolved(b, None, env).headers, text),
            None => resolved(b, None, env).headers,
        },
{
}

/// Whether `name` is one of the variables of the layer `names`.
pub open spec fn is_var_of(names: VarNames, name: Seq<char>) -> bool {
    ||| name == names.endpoint@
    ||| name == names.timeout@
    ||| name == names.insecure@
    ||| name == names.certificate@
    ||| name == names.client_key@
    ||| name == names.client_certificate@
    ||| name == names.headers@
    ||| name == names.protocol@
}

/// Whether resolving for `data_type` reads the variable `name`: the generic
/// variables are read for all, a signal's own only for that signal.
pub open spec fn is_read_for(data_type: Option<DataType>, name: Seq<char>) -> bool {
    ||| is_var_of(generic_vars_spec(), name)
    ||| data_type matches Some(signal) && is_var_of(signal_vars_spec(signal), name)
}

/// The header variable of the trace signal is read for traces only.
proof fn lemma_trace_headers_are_private(other: Option<DataType>)
    requires
        other != Some(DataType::Trace),
    ensures
        !is_read_for(other, OTEL_EXPORTER_OTLP_TRACES_HEADERS@),
{
    reveal_strlit("OTEL_EXPORTER_OTLP_TRACES_HEADERS");
    lemma_generic_lengths();
    lemma_metric_lengths();
    lemma_log_lengths();
}

/// The header variable of the metric signal is read for metrics only.
proof fn lemma_metric_headers_are_private(other: Option<DataType>)
    requires
        other != Some(DataType::Metric),
    ensures
        !is_read_for(other, OTEL_EXPORTER_OTLP_METRICS_HEADERS@),
{
    reveal_strlit("OTEL_EXPORTER_OTLP_METRICS_HEADERS");
    reveal_strlit("OTEL_EXPORTER_OTLP_TRACES_ENDPOINT");
    reveal_strlit("OTEL_EXPORTER_OTLP_TRACES_INSECURE");
    reveal_strlit("OTEL_EXPORTER_OTLP_TRACES_PROTOCOL");
    reveal_strlit("OTEL_EXPORTER_OTLP_LOGS_CLIENT_KEY");
    lemma_generic_lengths();
    lemma_trace_lengths();
    lemma_log_lengths();
    let name = OTEL_EXPORTER_OTLP_METRICS_HEADERS@;
    assert(name[19] == 'M');
    assert(OTEL_EXPORTER_OTLP_TRACES_ENDPOINT@[19] == 'T');
    assert(OTEL_EXPORTER_OTLP_TRACES_INSECURE@[19] == 'T');
    assert(OTEL_EXPORTER_OTLP_TRACES_PROTOCOL@[19] == 'T');
    assert(OTEL_EXPORTER_OTLP_LOGS_CLIENT_KEY@[19] == 'L');
}

/// The header variable of the log signal is read for logs only.
proof fn lemma_log_headers_are_private(other: Option<DataType>)
    requires
        other != Some(DataType::Log),
    ensures
        !is_read_for(other, OTEL_EXPORTER_OTLP_LOGS_HEADERS@),
{
    reveal_strlit("OTEL_EXPORTER_OTLP_LOGS_HEADERS");
    lemma_generic_lengths();
    lemma_trace_lengths();
    lemma_metric_lengths();
}

proof fn lemma_generic_lengths()
    ensures
        OTEL_EXPORTER_OTLP_ENDPOINT@.len() == 27,
        OTEL_EXPORTER_OTLP_TIMEOUT@.len() == 26,
        OTEL_EXPORTER_OTLP_INSECURE@.len() == 27,
        OTEL_EXPORTER_OTLP_CERTIFICATE@.len() == 30,
        OTEL_EXPORTER_OTLP_CLIENT_KEY@.len() == 29,
        OTEL_EXPORTER_OTLP_CLIENT_CERTIFICATE@.len() == 37,
        OTEL_EXPORTER_OTLP_HEADERS@.len() == 26,
        OTEL_EXPORTER_OTLP_PROTOCOL@.len() == 27,
{
    reveal_strlit("OTEL_EXPORTER_OTLP_ENDPOINT");
    reveal_strlit("OTEL_EXPORTER_OTLP_TIMEOUT");
    reveal_strlit("OTEL_EXPORTER_OTLP_INSECURE");
    reveal_strlit("OTEL_EXPORTER_OTLP_CERTIFICATE");
    reveal_strlit("OTEL_EXPORTER_OTLP_CLIENT_KEY");
    reveal_strlit("OTEL_EXPORTER_OTLP_CLIENT_CERTIFICATE");
    reveal_strlit("OTEL_EXPORTER_OTLP_HEADERS");
    reveal_strlit("OTEL_EXPORTER_OTLP_PROTOCOL");
}

proof fn lemma_trace_lengths()
    ensures
        OTEL_EXPORTER_OTLP_TRACES_ENDPOINT@.len() == 34,
        OTEL_EXPORTER_OTLP_TRACES_TIMEOUT@.len() == 33,
        OTEL_EXPORTER_OTLP_TRACES_INSECURE@.len() == 34,
        OTEL_EXPORTER_OTLP_TRACES_CERTIFICATE@.len() == 37,
        OTEL_EXPORTER_OTLP_TRACES_CLIENT_KEY@.len() == 36,
        OTEL_EXPORTER_OTLP_TRACES_CLIENT_CERTIFICATE@.len() == 44,
        OTEL_EXPORTER_OTLP_TRACES_HEADERS@.len() == 33,
        OTEL_EXPORTER_OTLP_TRACES_PROTOCOL@.len() == 34,
{
    reveal_strlit("OTEL_EXPORTER_OTLP_TRACES_ENDPOINT");
    reveal_strlit("OTEL_EXPORTER_OTLP_TRACES_TIMEOUT");
    reveal_strlit("OTEL_EXPORTER_OTLP_TRACES_INSECURE");
    reveal_strlit("OTEL_EXPORTER_OTLP_TRACES_CERTIFICATE");
    reveal_strlit("OTEL_EXPORTER_OTLP_TRACES_CLIENT_KEY");
    reveal_strlit("OTEL_EXPORTER_OTLP_TRACES_CLIENT_CERTIFICATE");
    reveal_strlit("OTEL_EXPORTER_OTLP_TRACES_HEADERS");
    reveal_strlit("OTEL_EXPORTER_OTLP_TRACES_PROTOCOL");
}

proof fn lemma_metric_lengths()
    ensures
        OTEL_EXPORTER_OTLP_METRICS_ENDPOINT@.len() == 35,
        OTEL_EXPORTER_OTLP_METRICS_TIMEOUT@.len() == 34,
        OTEL_EXPORTER_OTLP_METRICS_INSECURE@.len() == 35,
        OTEL_EXPORTER_OTLP_METRICS_CERTIFICATE@.len() == 38,
        OTEL_EXPORTER_OTLP_METRICS_CLIENT_KEY@.len() == 37,
        OTEL_EXPORTER_OTLP_METRICS_CLIENT_CERTIFICATE@.len() == 45,
        OTEL_EXPORTER_OTLP_METRICS_HEADERS@.len() == 34,
        OTEL_EXPORTER_OTLP_METRICS_PROTOCOL@.len() == 35,
{
    reveal_strlit("OTEL_EXPORTER_OTLP_METRICS_ENDPOINT");
    reveal_strlit("OTEL_EXPORTER_OTLP_METRICS_TIMEOUT");
    reveal_strlit("OTEL_EXPORTER_OTLP_METRICS_INSECURE");
    reveal_strlit("OTEL_EXPORTER_OTLP_METRICS_CERTIFICATE");
    reveal_strlit("OTEL_EXPORTER_OTLP_METRICS_CLIENT_KEY");
    reveal_strlit("OTEL_EXPORTER_OTLP_METRICS_CLIENT_CERTIFICATE");
    reveal_strlit("OTEL_EXPORTER_OTLP_METRICS_HEADERS");
    reveal_strlit("OTEL_EXPORTER_OTLP_METRICS_PROTOCOL");
}

proof fn lemma_log_lengths()
    ensures
        OTEL_EXPORTER_OTLP_LOGS_ENDPOINT@.len() == 32,
        OTEL_EXPORTER_OTLP_LOGS_TIMEOUT@.len() == 31,
        OTEL_EXPORTER_OTLP_LOGS_INSECURE@.len() == 32,
        OTEL_EXPORTER_OTLP_LOGS_CERTIFICATE@.len() == 35,
        OTEL_EXPORTER_OTLP_LOGS_CLIENT_KEY@.len() == 34,
        OTEL_EXPORTER_OTLP_LOGS_CLIENT_CERTIFICATE@.len() == 42,
        OTEL_EXPORTER_OTLP_LOGS_HEADERS@.len() == 31,
        OTEL_EXPORTER_OTLP_LOGS_PROTOCOL@.len() == 32,
{
    reveal_strlit("OTEL_EXPORTER_OTLP_LOGS_ENDPOINT");
    reveal_strlit("OTEL_EXPORTER_OTLP_LOGS_TIMEOUT");
    reveal_strlit("OTEL_EXPORTER_OTLP_LOGS_INSECURE");
    reveal_strlit("OTEL_EXPORTER_OTLP_LOGS_CERTIFICATE");
    reveal_strlit("OTEL_EXPORTER_OTLP_LOGS_CLIENT_KEY");
    reveal_strlit("OTEL_EXPORTER_OTLP_LOGS_CLIENT_CERTIFICATE");
    reveal_strlit("OTEL_EXPORTER_OTLP_LOGS_HEADERS");
    reveal_strlit("OTEL_EXPORTER_OTLP_LOGS_PROTOCOL");
}

/// Setting a variable that a layer does not have changes nothing of what the
/// layer makes of the settings.
proof fn lemma_overlaid_ignores_other_vars(
    b: ConfigBuilderView,
    env: EnvironmentView,
    names: VarNames,
    fresh_headers: bool,
    name: Seq<char>,
    value: Seq<char>,
)
    requires
        !is_var_of(names, name),
    ensures
        overlaid(b, env.insert(name, value), names, fresh_headers) == overlaid(
            b,
            env,
            names,
            fresh_headers,
        ),
{
}

/// Setting a variable that is not read for `data_type` changes nothing of
/// what the environment resolves to for `data_type`.
pub proof fn lemma_unread_variable_changes_nothing(
    b: ConfigBuilderView,
    data_type: Option<DataType>,
    env: EnvironmentView,
    name: Seq<char>,
    value: Seq<char>,
)
    requires
        !is_read_for(data_type, name),
    ensures
        resolved(b, data_type, env.insert(name, value)) == resolved(b, data_type, env),
{
    let changed = env.insert(name, value);
    lemma_overlaid_ignores_other_vars(b, env, generic_vars_spec(), true, name, value);
    let generic = overlaid(b, env, generic_vars_spec(), true);
    assert(global_protocol(b, changed) == global_protocol(b, env));
    assert(global_endpoint(b, changed) == global_endpoint(b, env));
    match data_type {
        None => {},
        Some(signal) => {
            lemma_overlaid_ignores_other_vars(
                generic,
                env,
                signal_vars_spec(signal),
                false,
                name,
                value,
            );
        },
    }
}

/// The header variable of a signal changes what is resolved for that signal
/// and for nothing else: whatever it is set to, the settings resolved for
/// another signal, and for no signal in particular, stay as they are.
pub proof fn lemma_signal_headers_change_only_that_signal(
    b: ConfigBuilderView,
    signal: DataType,
    other: Option<DataType>,
    env: EnvironmentView,
    value: Seq<char>,
)
    requires
        other != Some(signal),
    ensures
        resolved(b, other, env.insert(signal_vars_spec(signal).headers@, value)) == resolved(
            b,
            other,
            env,
        ),
{
    match signal {
        DataType::Trace => lemma_trace_headers_are_private(other),
        DataType::Metric => lemma_metric_headers_are_private(other),
        DataType::Log => lemma_log_headers_are_private(other),
    }
    lemma_unread_variable_changes_nothing(
        b,
        other,
        env,
        signal_vars_spec(signal).headers@,
        value,
    );
}

} // verus!
