//! From a validated configuration to what a transport client is made of, and
//! from the end of a call to the result of an export.
//!
//! Nothing here touches the network or the disk. Headers are put into the
//! `http` crate's header map here; channels and clients are described by
//! plain settings, which the caller hands to the transport.

use crate::config::{Config, ConfigView, GrpcImpl, Protocol, Timeout};
use crate::endpoint::{endpoint_text, opt_view, SCHEME_HTTPS};
use crate::error::OtlpExporterError;
use crate::headers::{texts, Headers, HeadersView};
use vstd::prelude::*;

pub mod metric;
pub mod trace;

verus! {

/// `http::HeaderMap`, the header collection of the `http` crate.
#[verifier::external_type_specification]
#[verifier::external_body]
#[verifier::reject_recursive_types(T)]
pub struct ExHeaderMap<T>(http::HeaderMap<T>);

/// `http::HeaderValue`, a header value of the `http` crate.
#[verifier::external_type_specification]
#[verifier::external_body]
pub struct ExHeaderValue(http::HeaderValue);

/// `tonic::metadata::MetadataMap`, the header collection that tonic sends
/// with a request.
#[verifier::external_type_specification]
#[verifier::external_body]
pub struct ExMetadataMap(tonic::metadata::MetadataMap);

/// The header map that goes on the wire.
pub type WireMap = http::HeaderMap<http::HeaderValue>;

/// What a wire header map holds, mathematically: for each name the values
/// given for it, in the order in which they were given.
pub type WireEntries = Map<Seq<char>, Seq<Seq<char>>>;

/// What a header map of the `http` crate holds: its names, as the map writes
/// them, each with its values, as the texts they were made from.
pub uninterp spec fn header_map_entries(map: http::HeaderMap<http::HeaderValue>) -> Map<
    Seq<char>,
    Seq<Seq<char>>,
>;

/// What a metadata map of tonic holds, in the same terms.
pub uninterp spec fn metadata_entries(map: tonic::metadata::MetadataMap) -> Map<
    Seq<char>,
    Seq<Seq<char>>,
>;

/// The longest header name that the `http` crate takes.
pub const MAX_HEADER_NAME_LEN: usize = 65535;

/// Whether the `http` crate takes `c` in a header name.
pub open spec fn is_name_char(c: char) -> bool {
    ||| '!' <= c <= '\''
    ||| c == '*'
    ||| c == '+'
    ||| c == '-'
    ||| c == '.'
    ||| '0' <= c <= '9'
    ||| 'A' <= c <= 'Z'
    ||| '^' <= c <= 'z'
    ||| c == '|'
    ||| c == '~'
}

/// Whether the `http` crate takes `name` as a header name: it is not empty,
/// not longer than [`MAX_HEADER_NAME_LEN`], and made of name characters.
pub open spec fn header_name_valid(name: Seq<char>) -> bool {
    &&& 1 <= name.len() <= MAX_HEADER_NAME_LEN
    &&& forall|i: int| 0 <= i < name.len() ==> is_name_char(#[trigger] name[i])
}

/// Whether the `http` crate takes `c` in a header value made from a string:
/// the tab, and every character from the space on but the delete character.
pub open spec fn is_value_char(c: char) -> bool {
    (c >= ' ' && c != '\u{7f}') || c == '\t'
}

/// Whether the `http` crate takes `value` as a header value.
pub open spec fn header_value_valid(value: Seq<char>) -> bool {
    forall|i: int| 0 <= i < value.len() ==> is_value_char(#[trigger] value[i])
}

/// `c` in lower case, where it is one of the letters `A` to `Z`.
pub open spec fn lower_char(c: char) -> char {
    if 'A' <= c <= 'Z' {
        ((c as u8) + 32) as char
    } else {
        c
    }
}

/// A header name as a header map writes it: in lower case.
pub open spec fn wire_name(name: Seq<char>) -> Seq<char> {
    Seq::new(name.len(), |i: int| lower_char(name[i]))
}

/// `entries` after one more value was given for `name`.
pub open spec fn with_wire_header(
    entries: WireEntries,
    name: Seq<char>,
    value: Seq<char>,
) -> WireEntries {
    let key = wire_name(name);
    let before = if entries.contains_key(key) {
        entries[key]
    } else {
        Seq::empty()
    };
    entries.insert(key, before.push(value))
}

/// What the `http` crate says of a name it does not take.
pub const INVALID_NAME_REASON: &'static str = "invalid HTTP header name";

/// What the `http` crate says of a value it does not take.
pub const INVALID_VALUE_REASON: &'static str = "failed to parse header value";

/// Why a header did not go into a header map.
#[derive(Debug, PartialEq, Eq)]
pub enum WireFault {
    /// The name is not a header name; with the `http` crate's reason.
    Name(String),
    /// The value is not a header value; with the `http` crate's reason.
    Value(String),
    /// The map takes no more; with the `http` crate's reason.
    Full(String),
}

/// The largest capacity that a header map of the `http` crate can be made
/// with.
pub const MAX_WIRE_CAPACITY: usize = 24576;

/// Makes an empty header map with room for `capacity` names, by
/// `HeaderMap::with_capacity`.
///
/// Claimed without proof: the map holds nothing. `requires` leaves out the
/// capacities on which the `http` crate panics: it allots a third more than
/// it is asked for, rounds that up to a power of two, and takes no more than
/// 32768.
#[verifier::external_body]
fn new_wire_map(capacity: usize) -> (r: WireMap)
    requires
        capacity <= MAX_WIRE_CAPACITY,
    ensures
        header_map_entries(r) == no_wire_entries(),
{
    http::HeaderMap::with_capacity(capacity)
}

/// A header map's content when it holds nothing.
pub open spec fn no_wire_entries() -> WireEntries {
    Map::empty()
}

/// A header map of the `http` crate is never full while it holds fewer names
/// than this.
pub const WIRE_NAMES_TAKEN: usize = 6554;

/// Whether a header map with the content `entries` surely has room: it holds
/// fewer than [`WIRE_NAMES_TAKEN`] names.
pub open spec fn has_room(entries: WireEntries) -> bool {
    entries.dom().finite() && entries.dom().len() < WIRE_NAMES_TAKEN
}

/// Whether `r` is a fitting answer to the header `name`, `value`, from a map
/// that held `before`: an unfit name is refused as such, with the `http`
/// crate's reason; a fit name with an unfit value is refused for the value,
/// with the reason for that; a header that is fit goes in, unless the map is
/// full, which it is not while it surely has room.
pub open spec fn append_fits(
    r: Result<(), WireFault>,
    before: WireEntries,
    name: Seq<char>,
    value: Seq<char>,
) -> bool {
    match r {
        Ok(()) => header_name_valid(name) && header_value_valid(value),
        Err(WireFault::Name(reason)) => !header_name_valid(name) && reason@
            == INVALID_NAME_REASON@,
        Err(WireFault::Value(reason)) => header_name_valid(name) && !header_value_valid(value)
            && reason@ == INVALID_VALUE_REASON@,
        Err(WireFault::Full(_)) => header_name_valid(name) && header_value_valid(value)
            && !has_room(before),
    }
}

/// What a header map holds after the answer `r` to the header `name`,
/// `value`: one value more for the name if the header went in, and else what
/// it held before.
pub open spec fn entries_after(
    r: Result<(), WireFault>,
    before: WireEntries,
    name: Seq<char>,
    value: Seq<char>,
) -> WireEntries {
    if r is Ok {
        with_wire_header(before, name, value)
    } else {
        before
    }
}

/// Puts one header into `map`: makes the name with `HeaderName::from_str`,
/// then the value with `HeaderValue::from_str`, then adds the pair with
/// `HeaderMap::try_append`.
///
/// Claimed without proof, from the `http` crate's source: which names and
/// which values it takes ([`header_name_valid`], [`header_value_valid`]),
/// with the name judged first; the text of its two errors; that a header
/// which goes in is added as [`with_wire_header`] says, the name in lower
/// case; and that the map is as before where the header does not go in.
/// Of a full map only this is claimed: the map is not full while it holds
/// fewer than [`WIRE_NAMES_TAKEN`] names. The crate refuses an entry only
/// where its table, which has 32768 places at most, would have to grow, and
/// a table of that size is grown only once a fifth of it is taken.
#[verifier::external_body]
fn append_wire_header(map: &mut WireMap, name: &str, value: &str) -> (r: Result<(), WireFault>)
    ensures
        append_fits(r, header_map_entries(*old(map)), name@, value@),
        header_map_entries(*final(map)) == entries_after(
            r,
            header_map_entries(*old(map)),
            name@,
            value@,
        ),
{
    let name = match name.parse::<http::header::HeaderName>() {
        Ok(name) => name,
        Err(e) => return Err(WireFault::Name(e.to_string())),
    };
    let value = match http::HeaderValue::from_str(value) {
        Ok(value) => value,
        Err(e) => return Err(WireFault::Value(e.to_string())),
    };
    match map.try_append(name, value) {
        Ok(_) => Ok(()),
        Err(e) => Err(WireFault::Full(e.to_string())),
    }
}

/// Turns a header map into tonic's metadata, by `MetadataMap::from_headers`.
///
/// Claimed without proof: the metadata holds what the header map held.
#[verifier::external_body]
fn metadata_from_headers(map: WireMap) -> (r: tonic::metadata::MetadataMap)
    ensures
        metadata_entries(r) == header_map_entries(map),
{
    tonic::metadata::MetadataMap::from_headers(map)
}

/// The name and value pairs that one entry of a header set stands for.
pub open spec fn entry_pairs(name: Seq<char>, values: Seq<Seq<char>>) -> Seq<
    (Seq<char>, Seq<char>),
> {
    Seq::new(values.len(), |i: int| (name, values[i]))
}

/// The name and value pairs of a header set, one for each value, in order.
pub open spec fn pairs_of(h: HeadersView) -> Seq<(Seq<char>, Seq<char>)>
    decreases h.len(),
{
    if h.len() == 0 {
        Seq::empty()
    } else {
        pairs_of(h.drop_last()) + entry_pairs(h.last().0, h.last().1)
    }
}

/// What a list of pairs is, mathematically.
pub open spec fn pairs_view(pairs: Seq<(String, String)>) -> Seq<(Seq<char>, Seq<char>)> {
    Seq::new(pairs.len(), |i: int| (pairs[i].0@, pairs[i].1@))
}

/// Start of the message that names a header name which cannot go on the wire.
pub const INVALID_HEADER_NAME_PREFIX: &'static str = "invalid header name: ";

/// Start of the message that names a header value which cannot go on the wire.
pub const INVALID_HEADER_VALUE_PREFIX: &'static str = "invalid header value: ";

/// What stands between the offending text and the reason.
pub const ERROR_INFIX: &'static str = ", error: ";

/// Start of the message for a header set that is too large for the wire.
pub const TOO_MANY_HEADERS_PREFIX: &'static str = "too many headers";

/// The message that names the header name `name` as the offender.
pub open spec fn invalid_name_message(name: Seq<char>) -> Seq<char> {
    INVALID_HEADER_NAME_PREFIX@ + name + ERROR_INFIX@ + INVALID_NAME_REASON@
}

/// The message that names the header value `value` as the offender.
pub open spec fn invalid_value_message(value: Seq<char>) -> Seq<char> {
    INVALID_HEADER_VALUE_PREFIX@ + value + ERROR_INFIX@ + INVALID_VALUE_REASON@
}

/// The message for a header map that took no more, for the reason `reason`.
pub open spec fn too_many_headers_message(reason: Seq<char>) -> Seq<char> {
    TOO_MANY_HEADERS_PREFIX@ + ERROR_INFIX@ + reason
}

/// What is wrong with a pair, if anything: the message that names its name,
/// or else its value, as the offender.
pub open spec fn pair_fault(name: Seq<char>, value: Seq<char>) -> Option<Seq<char>> {
    if !header_name_valid(name) {
        Some(invalid_name_message(name))
    } else if !header_value_valid(value) {
        Some(invalid_value_message(value))
    } else {
        None
    }
}

/// The message for the first pair that cannot go on the wire, if there is one.
pub open spec fn first_fault(pairs: Seq<(Seq<char>, Seq<char>)>) -> Option<Seq<char>>
    decreases pairs.len(),
{
    if pairs.len() == 0 {
        None
    } else {
        match first_fault(pairs.drop_last()) {
            Some(message) => Some(message),
            None => pair_fault(pairs.last().0, pairs.last().1),
        }
    }
}

/// What a header map holds after the pairs went into it in order.
pub open spec fn wire_entries(pairs: Seq<(Seq<char>, Seq<char>)>) -> WireEntries
    decreases pairs.len(),
{
    if pairs.len() == 0 {
        Map::empty()
    } else {
        with_wire_header(wire_entries(pairs.drop_last()), pairs.last().0, pairs.last().1)
    }
}

/// Whether `e` is an error of putting the header set `h` on the wire: a
/// configuration error that names the first name or value which is unfit;
/// or, for a set of [`WIRE_NAMES_TAKEN`] values or more only, one that says
/// that the `http` crate found its map full before any such was met.
pub open spec fn is_wire_error(e: OtlpExporterError, h: HeadersView) -> bool {
    e matches OtlpExporterError::ConfigError(m) && (first_fault(pairs_of(h)) == Some(m@) || (
    pairs_of(h).len() >= WIRE_NAMES_TAKEN && exists|reason: Seq<char>|
        m@ == too_many_headers_message(reason)))
}

/// Whether `entries` is what the header set `h` leaves on the wire: nothing in
/// the set is unfit, and each value stands under its name in lower case, in
/// order.
pub open spec fn is_wire_form(entries: WireEntries, h: HeadersView) -> bool {
    first_fault(pairs_of(h)).is_none() && entries == wire_entries(pairs_of(h))
}

/// Whether `r` is what putting the header set `h` on the wire may give: a map
/// in the wire form of `h`, or an error of putting `h` on the wire.
pub open spec fn is_wire_result<M>(
    r: Result<M, OtlpExporterError>,
    h: HeadersView,
    entries: spec_fn(M) -> WireEntries,
) -> bool {
    match r {
        Ok(map) => is_wire_form(entries(map), h),
        Err(e) => is_wire_error(e, h),
    }
}

/// A header set of fewer than [`WIRE_NAMES_TAKEN`] values goes on the wire
/// exactly if none of its names and values is unfit, and an error names the
/// first that is.
pub proof fn lemma_small_header_sets_go_through<M>(
    r: Result<M, OtlpExporterError>,
    h: HeadersView,
    entries: spec_fn(M) -> WireEntries,
)
    requires
        is_wire_result(r, h, entries),
        pairs_of(h).len() < WIRE_NAMES_TAKEN,
    ensures
        r is Ok <==> first_fault(pairs_of(h)).is_none(),
        r matches Err(e) ==> (e matches OtlpExporterError::ConfigError(m) && first_fault(
            pairs_of(h),
        ) == Some(m@)),
{
}

/// A fault found in a prefix of the pairs is the first fault of them all.
pub proof fn lemma_first_fault_prefix(pairs: Seq<(Seq<char>, Seq<char>)>, k: int)
    requires
        0 <= k <= pairs.len(),
        first_fault(pairs.take(k)).is_some(),
    ensures
        first_fault(pairs) == first_fault(pairs.take(k)),
    decreases pairs.len() - k,
{
    if k < pairs.len() {
        let next = pairs.take(k + 1);
        assert(next.drop_last() == pairs.take(k));
        lemma_first_fault_prefix(pairs, k + 1);
    } else {
        assert(pairs.take(k) == pairs);
    }
}

/// The error for a header that did not go into the header map.
///
/// For a name or a value that the `http` crate does not take, the message
/// names the offender and gives the crate's reason; for a map that is full,
/// it says that there are too many headers.
pub fn header_fault_error(fault: WireFault, name: &str, value: &str) -> (r: OtlpExporterError)
    ensures
        r matches OtlpExporterError::ConfigError(m) && m@ == match fault {
            WireFault::Name(reason) => INVALID_HEADER_NAME_PREFIX@ + name@ + ERROR_INFIX@
                + reason@,
            WireFault::Value(reason) => INVALID_HEADER_VALUE_PREFIX@ + value@ + ERROR_INFIX@
                + reason@,
            WireFault::Full(reason) => too_many_headers_message(reason@),
        },
{
    let message = match fault {
        WireFault::Name(reason) => INVALID_HEADER_NAME_PREFIX.to_owned().concat(name).concat(
            ERROR_INFIX,
        ).concat(reason.as_str()),
        WireFault::Value(reason) => INVALID_HEADER_VALUE_PREFIX.to_owned().concat(value).concat(
            ERROR_INFIX,
        ).concat(reason.as_str()),
        WireFault::Full(reason) => TOO_MANY_HEADERS_PREFIX.to_owned().concat(ERROR_INFIX).concat(
            reason.as_str(),
        ),
    };
    OtlpExporterError::ConfigError(message)
}

/// The name and value pairs of a header set, one for each value, in order.
pub fn gen_metadata(headers: &Headers) -> (r: Vec<(String, String)>)
    ensures
        pairs_view(r@) == pairs_of(headers@),
{
    let mut out: Vec<(String, String)> = Vec::new();
    let mut i: usize = 0;
    assert(headers@.take(0) == Seq::<(Seq<char>, Seq<Seq<char>>)>::empty());
    assert(pairs_view(out@) == pairs_of(headers@.take(0)));
    while i < headers.len()
        invariant
            i <= headers@.len(),
            pairs_view(out@) == pairs_of(headers@.take(i as int)),
        decreases headers@.len() - i,
    {
        let name = headers.name_at(i);
        let values = headers.values_at(i);
        let ghost done = pairs_of(headers@.take(i as int));
        let ghost entry = headers@[i as int];
        let mut j: usize = 0;
        assert(done + entry_pairs(entry.0, entry.1.take(0)) == done);
        while j < values.len()
            invariant
                i < headers@.len(),
                j <= values@.len(),
                name@ == entry.0,
                texts(values@) == entry.1,
                pairs_view(out@) == done + entry_pairs(entry.0, entry.1.take(j as int)),
            decreases values@.len() - j,
        {
            let ghost before = pairs_view(out@);
            out.push((name.clone(), values[j].clone()));
            assert(pairs_view(out@) == before.push((name@, values@[j as int]@)));
            assert(entry.1[j as int] == values@[j as int]@);
            assert(entry_pairs(entry.0, entry.1.take(j as int + 1)) == entry_pairs(
                entry.0,
                entry.1.take(j as int),
            ).push((entry.0, entry.1[j as int])));
            j += 1;
        }
        proof {
            assert(entry.1.take(j as int) == entry.1);
            let next = headers@.take(i as int + 1);
            assert(next.drop_last() == headers@.take(i as int));
            assert(next.last() == entry);
        }
        i += 1;
    }
    assert(headers@.take(i as int) == headers@);
    out
}

/// Puts a header set into a header map for the wire: every value becomes an
/// entry of its own under its name.
pub fn gen_header_map(headers: &Headers) -> (r: Result<WireMap, OtlpExporterError>)
    ensures
        is_wire_result(r, headers@, |map: WireMap| header_map_entries(map)),
{
    let pairs = gen_metadata(headers);
    let capacity = if headers.len() <= MAX_WIRE_CAPACITY {
        headers.len()
    } else {
        MAX_WIRE_CAPACITY
    };
    let mut map = new_wire_map(capacity);
    let ghost all = pairs_of(headers@);
    let mut i: usize = 0;
    assert(all.take(0) == Seq::<(Seq<char>, Seq<char>)>::empty());
    while i < pairs.len()
        invariant
            i <= pairs@.len(),
            pairs_view(pairs@) == all,
            all == pairs_of(headers@),
            first_fault(all.take(i as int)).is_none(),
            header_map_entries(map) == wire_entries(all.take(i as int)),
            header_map_entries(map).dom().finite(),
            header_map_entries(map).dom().len() <= i,
        decreases pairs@.len() - i,
    {
        let ghost next = all.take(i as int + 1);
        proof {
            assert(next.drop_last() == all.take(i as int));
            assert(next.last() == all[i as int]);
            assert(all[i as int] == (pairs@[i as int].0@, pairs@[i as int].1@));
        }
        let name = pairs[i].0.as_str();
        let value = pairs[i].1.as_str();
        match append_wire_header(&mut map, name, value) {
            Ok(()) => {},
            Err(fault) => {
                proof {
                    if !(fault is Full) {
                        assert(first_fault(next) == pair_fault(name@, value@));
                        lemma_first_fault_prefix(all, i as int + 1);
                    }
                }
                return Err(header_fault_error(fault, name, value));
            },
        }
        i += 1;
    }
    assert(all.take(i as int) == all);
    Ok(map)
}

/// Puts a header set into the metadata that tonic sends with a request.
pub fn gen_metadata_map(headers: &Headers) -> (r: Result<
    tonic::metadata::MetadataMap,
    OtlpExporterError,
>)
    ensures
        is_wire_result(r, headers@, |map: tonic::metadata::MetadataMap| metadata_entries(map)),
{
    match gen_header_map(headers) {
        Ok(map) => Ok(metadata_from_headers(map)),
        Err(e) => Err(e),
    }
}

/// The transport that carries an exporter's calls: one of the two gRPC
/// backends, or HTTP.
#[derive(Clone, Copy, Debug, PartialEq, Eq, Structural)]
pub enum TransportImplementation {
    /// gRPC by the tonic backend.
    Tonic,
    /// gRPC by the grpcio backend.
    Grpcio,
    /// HTTP.
    Http,
}

/// The transport that a protocol and a choice of gRPC backend select: under
/// gRPC the chosen backend, under either HTTP protocol HTTP.
pub open spec fn transport_of(protocol: Protocol, grpc_impl: GrpcImpl) -> TransportImplementation {
    match protocol {
        Protocol::Grpc => match grpc_impl {
            GrpcImpl::Tonic(_) => TransportImplementation::Tonic,
            GrpcImpl::Grpcio(_) => TransportImplementation::Grpcio,
        },
        Protocol::HttpProtobuf => TransportImplementation::Http,
        Protocol::HttpJson => TransportImplementation::Http,
    }
}

/// The transport that `config` resolved to.
pub fn transport(config: &Config) -> (r: TransportImplementation)
    ensures
        r == transport_of(config@.builder.protocol, config@.builder.grpc_impl),
{
    match config.protocol() {
        Protocol::Grpc => match config.grpc_impl() {
            GrpcImpl::Tonic(_) => TransportImplementation::Tonic,
            GrpcImpl::Grpcio(_) => TransportImplementation::Grpcio,
        },
        Protocol::HttpProtobuf => TransportImplementation::Http,
        Protocol::HttpJson => TransportImplementation::Http,
    }
}

/// How an HTTP exporter writes a batch into the body of a request.
#[derive(Clone, Copy, Debug, PartialEq, Eq, Structural)]
pub enum Encoder {
    /// Binary protobuf.
    Protobuf,
    /// JSON.
    Json,
}

/// The content type of a request whose body is binary protobuf.
pub const CONTENT_TYPE_PROTOBUF: &'static str = "application/x-protobuf";

/// The message that refuses to encode a batch as JSON.
pub const JSON_UNSUPPORTED_MESSAGE: &'static str =
    "encoding an export request as json is not supported";

impl Encoder {
    /// The content type that goes with the encoding. JSON is not offered:
    /// asking for it is an unsupported operation.
    pub fn content_type(&self) -> (r: Result<&'static str, OtlpExporterError>)
        ensures
            match *self {
                Encoder::Protobuf => r matches Ok(t) && t@ == CONTENT_TYPE_PROTOBUF@,
                Encoder::Json => r matches Err(OtlpExporterError::Unsupported(m)) && m@
                    == JSON_UNSUPPORTED_MESSAGE@,
            },
    {
        match self {
            Encoder::Protobuf => Ok(CONTENT_TYPE_PROTOBUF),
            Encoder::Json => Err(
                OtlpExporterError::Unsupported(JSON_UNSUPPORTED_MESSAGE.to_owned()),
            ),
        }
    }
}

/// Whether `r` is a configuration error with the message `message`.
pub open spec fn is_config_error<T>(r: Result<T, OtlpExporterError>, message: Seq<char>) -> bool {
    r matches Err(OtlpExporterError::ConfigError(m)) && m@ == message
}

/// The message for a client that is asked of a configuration which resolved
/// to the protocol `actual`, when the client speaks `expected`.
pub open spec fn protocol_mismatch_message(actual: Protocol, expected: Seq<char>) -> Seq<char> {
    "protocol is "@ + actual.name() + ", not "@ + expected
}

/// The message for a gRPC client of the backend named `expected` that is
/// asked of a configuration which chose the backend `actual`.
pub open spec fn backend_mismatch_message(expected: Seq<char>, actual: GrpcImpl) -> Seq<char> {
    "grpc impl is not set to "@ + expected + ", it is "@ + actual.name()
}

/// The protocols that an HTTP client speaks, as the mismatch message names
/// them.
pub const HTTP_PROTOCOLS: &'static str = "http/protobuf/http/json";

/// The configuration error for a protocol mismatch.
pub fn protocol_mismatch(actual: Protocol, expected: &str) -> (r: OtlpExporterError)
    ensures
        r matches OtlpExporterError::ConfigError(m) && m@ == protocol_mismatch_message(
            actual,
            expected@,
        ),
{
    let name = actual.to_string();
    OtlpExporterError::ConfigError(
        "protocol is ".to_owned().concat(name.as_str()).concat(", not ").concat(expected),
    )
}

/// The configuration error for a backend mismatch.
pub fn backend_mismatch(expected: &str, actual: &GrpcImpl) -> (r: OtlpExporterError)
    ensures
        r matches OtlpExporterError::ConfigError(m) && m@ == backend_mismatch_message(
            expected@,
            *actual,
        ),
{
    let name = actual.to_string();
    OtlpExporterError::ConfigError(
        "grpc impl is not set to ".to_owned().concat(expected).concat(", it is ").concat(
            name.as_str(),
        ),
    )
}

/// The key and the certificate by which a client shows who it is.
#[derive(Clone, Debug, PartialEq, Eq)]
pub struct ClientIdentity {
    /// The private key, in PEM.
    pub key: String,
    /// The certificate or chain, in PEM.
    pub certificate: String,
}

/// The TLS material of a client, as read from the configured files.
#[derive(Clone, Debug, PartialEq, Eq)]
pub struct TlsMaterial {
    /// The certificate to trust when verifying the server, in PEM.
    pub ca_certificate: Option<String>,
    /// The client's identity, for mutual TLS.
    pub identity: Option<ClientIdentity>,
}

/// Whether `text` is what `read` returned for the file at `path`.
pub open spec fn was_read<F: Fn(&String) -> Result<String, std::io::Error>>(
    read: &F,
    path: String,
    text: String,
) -> bool {
    read.ensures((&path,), Ok(text))
}

/// Whether `e` is the error that `read` returned for the file at `path`.
pub open spec fn read_failed<F: Fn(&String) -> Result<String, std::io::Error>>(
    read: &F,
    path: String,
    e: std::io::Error,
) -> bool {
    read.ensures((&path,), Err(e))
}

/// Whether `material` is what the configured files hold, as `read` read them.
///
/// The trusted certificate is there exactly if a file is configured for it.
/// The identity is there exactly if both a key file and a certificate file
/// are configured; one of the two alone counts for nothing.
pub open spec fn is_material_of<F: Fn(&String) -> Result<String, std::io::Error>>(
    material: TlsMaterial,
    config: &Config,
    read: &F,
) -> bool {
    &&& match config.certificate_path() {
        Some(path) => material.ca_certificate matches Some(text) && was_read(read, path, text),
        None => material.ca_certificate is None,
    }
    &&& match (config.client_key_path(), config.client_certificate_path()) {
        (Some(key_path), Some(certificate_path)) => material.identity matches Some(identity)
            && was_read(read, key_path, identity.key) && was_read(
            read,
            certificate_path,
            identity.certificate,
        ),
        _ => material.identity is None,
    }
}

/// Whether the file at `path` was read: `read` returned a text for it.
pub open spec fn was_read_at<F: Fn(&String) -> Result<String, std::io::Error>>(
    read: &F,
    path: String,
) -> bool {
    exists|text: String| was_read(read, path, text)
}

/// Whether `e` is the error at which reading the TLS material stopped.
///
/// The files are read in order: the trusted certificate, then, where both
/// are configured, the client's key, then the client's certificate. The
/// error is that of the first read that failed: the error of a file is
/// reported only where every file before it was read.
pub open spec fn is_material_failure<F: Fn(&String) -> Result<String, std::io::Error>>(
    e: std::io::Error,
    config: &Config,
    read: &F,
) -> bool {
    ||| config.certificate_path() matches Some(path) && read_failed(read, path, e)
    ||| {
        &&& config.certificate_path() matches Some(path) ==> was_read_at(read, path)
        &&& config.client_key_path() is Some
        &&& config.client_certificate_path() is Some
        &&& {
            ||| read_failed(read, config.client_key_path()->0, e)
            ||| was_read_at(read, config.client_key_path()->0) && read_failed(
                read,
                config.client_certificate_path()->0,
                e,
            )
        }
    }
}

/// Whether `r` is what reading the TLS material of `config` with `read` gives.
pub open spec fn is_material_result<F: Fn(&String) -> Result<String, std::io::Error>>(
    r: Result<TlsMaterial, OtlpExporterError>,
    config: &Config,
    read: &F,
) -> bool {
    match r {
        Ok(material) => is_material_of(material, config, read),
        Err(OtlpExporterError::StdIoError(e)) => is_material_failure(e, config, read),
        Err(_) => false,
    }
}

/// Reads the TLS material of `config`: the trusted certificate if one is
/// configured, then the client's key and certificate if both are.
///
/// `read` is what reads a file. It is called once for each file that is
/// needed, in that order, and reading stops at the first failure. A key file
/// without a certificate file, or the reverse, is not read at all.
pub fn read_tls_material<F: Fn(&String) -> Result<String, std::io::Error>>(
    config: &Config,
    read: &F,
) -> (r: Result<TlsMaterial, OtlpExporterError>)
    requires
        forall|path: &String| #[trigger] read.requires((path,)),
    ensures
        is_material_result(r, config, read),
{
    let ca_certificate = match config.read_certificate(read) {
        Ok(ca) => ca,
        Err(e) => {
            return Err(e);
        },
    };
    let both = config.client_key_file().is_some() && config.client_certificate_file().is_some();
    proof {
        config.lemma_paths();
        if config.certificate_path() is Some {
            assert(was_read(read, config.certificate_path()->0, ca_certificate->0));
        }
    }
    if !both {
        return Ok(TlsMaterial { ca_certificate, identity: None });
    }
    let key = match config.read_client_key(read) {
        Ok(key) => key,
        Err(e) => {
            return Err(e);
        },
    };
    assert(was_read(read, config.client_key_path()->0, key->0));
    let certificate = match config.read_client_certificate(read) {
        Ok(certificate) => certificate,
        Err(e) => {
            return Err(e);
        },
    };
    let identity = match (key, certificate) {
        (Some(key), Some(certificate)) => Some(ClientIdentity { key, certificate }),
        _ => None,
    };
    Ok(TlsMaterial { ca_certificate, identity })
}

/// A lone client key, without a client certificate, never makes an identity
/// and is never the cause of an error: what is read is at most the trusted
/// certificate.
pub proof fn lemma_lone_key_is_ignored<F: Fn(&String) -> Result<String, std::io::Error>>(
    r: Result<TlsMaterial, OtlpExporterError>,
    config: &Config,
    read: &F,
)
    requires
        is_material_result(r, config, read),
        config.client_key_path() is Some,
        config.client_certificate_path() is None,
    ensures
        r matches Ok(material) ==> material.identity is None,
        r matches Err(e) ==> (config.certificate_path() is Some && (e matches
            OtlpExporterError::StdIoError(io) && read_failed(
            read,
            config.certificate_path()->0,
            io,
        ))),
        config.certificate_path() is None ==> r is Ok,
{
}

/// Whether reading the file at `path` with `read` can only fail, and only
/// with the error `e`.
pub open spec fn always_fails_with<F: Fn(&String) -> Result<String, std::io::Error>>(
    read: &F,
    path: String,
    e: std::io::Error,
) -> bool {
    forall|outcome: Result<String, std::io::Error>| #[trigger]
        read.ensures((&path,), outcome) ==> outcome == Err::<String, std::io::Error>(e)
}

/// A trusted certificate that cannot be read is fatal: where its file is
/// configured and reading it can only fail, with the error `e`, the result is
/// that error, whatever else is configured.
pub proof fn lemma_unreadable_ca_is_fatal<F: Fn(&String) -> Result<String, std::io::Error>>(
    r: Result<TlsMaterial, OtlpExporterError>,
    config: &Config,
    read: &F,
    e: std::io::Error,
)
    requires
        is_material_result(r, config, read),
        config.certificate_path() is Some,
        always_fails_with(read, config.certificate_path()->0, e),
    ensures
        r == Err::<TlsMaterial, OtlpExporterError>(OtlpExporterError::StdIoError(e)),
{
    let path = config.certificate_path()->0;
    match r {
        Ok(material) => {
            assert(was_read(read, path, material.ca_certificate->0));
        },
        Err(OtlpExporterError::StdIoError(found)) => {
            if was_read_at(read, path) {
                let text = choose|text: String| was_read(read, path, text);
                assert(was_read(read, path, text));
            }
            assert(read_failed(read, path, found));
        },
        Err(_) => {},
    }
}

/// What a tonic channel is made with.
#[derive(Clone, Debug, PartialEq, Eq)]
pub struct TonicChannelSettings {
    /// The URI to connect to.
    pub endpoint: String,
    /// The time allowed for connecting.
    pub connect_timeout: Timeout,
    /// The time allowed for each call.
    pub timeout: Timeout,
    /// How to secure the transport; `None` for an endpoint reached without
    /// transport security.
    pub tls: Option<TonicTls>,
}

/// The TLS settings of a tonic channel.
#[derive(Clone, Debug, PartialEq, Eq)]
pub struct TonicTls {
    /// Certificates and keys.
    pub material: TlsMaterial,
    /// The name to expect in the server's certificate, where it is not the
    /// endpoint's host.
    pub domain_name: Option<String>,
}

/// What a grpcio channel is made with.
#[derive(Clone, Debug, PartialEq, Eq)]
pub struct GrpcioChannelSettings {
    /// How many completion queues the channel's environment runs.
    pub cq_count: usize,
    /// The address to connect to.
    pub endpoint: String,
    /// The credentials of the channel; `None` for an endpoint reached
    /// without transport security.
    pub credentials: Option<TlsMaterial>,
}

/// The TLS settings of an HTTP client.
#[derive(Clone, Debug, PartialEq, Eq)]
pub struct HttpTls {
    /// The certificate to trust when verifying the server, in PEM.
    pub root_certificate: Option<String>,
    /// The client's identity: its key followed by its certificate, in PEM.
    pub identity: Option<String>,
}

/// What an HTTP client is made with.
#[derive(Debug)]
pub struct HttpClientSettings {
    /// The time allowed for connecting.
    pub connect_timeout: Timeout,
    /// The time allowed for each request.
    pub timeout: Timeout,
    /// The headers sent with every request.
    pub default_headers: WireMap,
    /// How to secure the transport; `None` for an endpoint reached without
    /// transport security.
    pub tls: Option<HttpTls>,
}

/// Why no gRPC channel of the backend `wanted` can be made from a
/// configuration, if there is a reason: it did not resolve to gRPC, or it
/// chose the other backend.
pub open spec fn channel_refusal(config: ConfigView, wanted: TransportImplementation) -> Option<
    Seq<char>,
> {
    if config.builder.protocol != Protocol::Grpc {
        Some(protocol_mismatch_message(config.builder.protocol, Protocol::Grpc.name()))
    } else if transport_of(config.builder.protocol, config.builder.grpc_impl) != wanted {
        Some(
            backend_mismatch_message(
                if wanted == TransportImplementation::Tonic {
                    "tonic"@
                } else {
                    "grpcio"@
                },
                config.builder.grpc_impl,
            ),
        )
    } else {
        None
    }
}

/// Whether a configuration's endpoint is reached with transport security.
pub open spec fn is_secure(config: ConfigView) -> bool {
    config.endpoint.scheme == SCHEME_HTTPS@
}

/// Whether `tls` is what a tonic channel for `config` is secured with.
pub open spec fn is_tonic_tls<F: Fn(&String) -> Result<String, std::io::Error>>(
    tls: Option<TonicTls>,
    config: &Config,
    read: &F,
) -> bool {
    if is_secure(config@) {
        tls matches Some(t) && is_material_of(t.material, config, read) && opt_view(t.domain_name)
            == config@.builder.certificate_domain
    } else {
        tls is None
    }
}

/// Whether `r` is what asking for a tonic channel for `config` gives.
///
/// A configuration that did not resolve to gRPC by tonic is refused with a
/// configuration error that names what was expected and what is there. Else
/// the settings hold the endpoint, the timeout for connecting and for each
/// call, and, for a secure endpoint only, the TLS material and the expected
/// certificate name; a file that cannot be read is an I/O error.
pub open spec fn is_tonic_channel<F: Fn(&String) -> Result<String, std::io::Error>>(
    r: Result<TonicChannelSettings, OtlpExporterError>,
    config: &Config,
    read: &F,
) -> bool {
    match channel_refusal(config@, TransportImplementation::Tonic) {
        Some(message) => is_config_error(r, message),
        None => match r {
            Ok(settings) => {
                &&& settings.endpoint@ == endpoint_text(config@.endpoint)
                &&& settings.connect_timeout == config@.builder.timeout
                &&& settings.timeout == config@.builder.timeout
                &&& is_tonic_tls(settings.tls, config, read)
            },
            Err(OtlpExporterError::StdIoError(e)) => is_secure(config@) && is_material_failure(
                e,
                config,
                read,
            ),
            Err(_) => false,
        },
    }
}

/// The settings of a tonic channel for `config`: see [`is_tonic_channel`].
pub fn tonic_channel<F: Fn(&String) -> Result<String, std::io::Error>>(
    config: &Config,
    read: &F,
) -> (r: Result<TonicChannelSettings, OtlpExporterError>)
    requires
        forall|path: &String| #[trigger] read.requires((path,)),
    ensures
        is_tonic_channel(r, config, read),
{
    if config.protocol() != Protocol::Grpc {
        let expected = Protocol::Grpc.to_string();
        return Err(protocol_mismatch(config.protocol(), expected.as_str()));
    }
    match config.grpc_impl() {
        GrpcImpl::Tonic(_) => {},
        other => {
            return Err(backend_mismatch("tonic", other));
        },
    }
    let tls = if config.insecure() {
        None
    } else {
        let material = match read_tls_material(config, read) {
            Ok(material) => material,
            Err(e) => {
                return Err(e);
            },
        };
        let domain_name = match config.certificate_domain() {
            Some(domain) => Some(domain.to_owned()),
            None => None,
        };
        Some(TonicTls { material, domain_name })
    };
    Ok(
        TonicChannelSettings {
            endpoint: config.endpoint().to_string(),
            connect_timeout: config.timeout(),
            timeout: config.timeout(),
            tls,
        },
    )
}

/// Whether `r` is what asking for a grpcio channel for `config` gives.
///
/// A configuration that did not resolve to gRPC by grpcio is refused with a
/// configuration error that names what was expected and what is there. Else
/// the settings hold the number of completion queues, the endpoint, and, for
/// a secure endpoint only, the credentials; a file that cannot be read is an
/// I/O error.
pub open spec fn is_grpcio_channel<F: Fn(&String) -> Result<String, std::io::Error>>(
    r: Result<GrpcioChannelSettings, OtlpExporterError>,
    config: &Config,
    read: &F,
) -> bool {
    match channel_refusal(config@, TransportImplementation::Grpcio) {
        Some(message) => is_config_error(r, message),
        None => match r {
            Ok(settings) => {
                &&& config@.builder.grpc_impl matches GrpcImpl::Grpcio(c) && settings.cq_count
                    == c.cq_count
                &&& settings.endpoint@ == endpoint_text(config@.endpoint)
                &&& if is_secure(config@) {
                    settings.credentials matches Some(material) && is_material_of(
                        material,
                        config,
                        read,
                    )
                } else {
                    settings.credentials is None
                }
            },
            Err(OtlpExporterError::StdIoError(e)) => is_secure(config@) && is_material_failure(
                e,
                config,
                read,
            ),
            Err(_) => false,
        },
    }
}

/// The settings of a grpcio channel for `config`: see [`is_grpcio_channel`].
pub fn grpcio_channel<F: Fn(&String) -> Result<String, std::io::Error>>(
    config: &Config,
    read: &F,
) -> (r: Result<GrpcioChannelSettings, OtlpExporterError>)
    requires
        forall|path: &String| #[trigger] read.requires((path,)),
    ensures
        is_grpcio_channel(r, config, read),
{
    if config.protocol() != Protocol::Grpc {
        let expected = Protocol::Grpc.to_string();
        return Err(protocol_mismatch(config.protocol(), expected.as_str()));
    }
    let cq_count = match config.grpc_impl() {
        GrpcImpl::Grpcio(c) => c.cq_count(),
        other => {
            return Err(backend_mismatch("grpcio", other));
        },
    };
    let credentials = if config.insecure() {
        None
    } else {
        match read_tls_material(config, read) {
            Ok(material) => Some(material),
            Err(e) => {
                return Err(e);
            },
        }
    };
    Ok(GrpcioChannelSettings { cq_count, endpoint: config.endpoint().to_string(), credentials })
}

/// Whether `tls` is what an HTTP client for `config` is secured with, given
/// the material `material` that was read for it: the identity is the key
/// followed by the certificate.
pub open spec fn is_http_tls(tls: HttpTls, material: TlsMaterial) -> bool {
    &&& opt_view(tls.root_certificate) == opt_view(material.ca_certificate)
    &&& match material.identity {
        Some(identity) => tls.identity matches Some(pem) && pem@ == identity.key@
            + identity.certificate@,
        None => tls.identity is None,
    }
}

/// Whether `r` is what asking for an HTTP client for `config` gives.
///
/// A configuration that resolved to gRPC is refused with a configuration
/// error that names what was expected and what is there. Then the headers
/// are put on the wire (see [`is_wire_result`]). Then, for a secure endpoint
/// only, the TLS material is read; a file that cannot be read is an I/O
/// error.
pub open spec fn is_http_client<F: Fn(&String) -> Result<String, std::io::Error>>(
    r: Result<HttpClientSettings, OtlpExporterError>,
    config: &Config,
    read: &F,
) -> bool {
    if config@.builder.protocol == Protocol::Grpc {
        is_config_error(r, protocol_mismatch_message(Protocol::Grpc, HTTP_PROTOCOLS@))
    } else {
        match r {
            Ok(settings) => {
                &&& settings.connect_timeout == config@.builder.timeout
                &&& settings.timeout == config@.builder.timeout
                &&& is_wire_form(
                    header_map_entries(settings.default_headers),
                    config@.builder.headers,
                )
                &&& if is_secure(config@) {
                    settings.tls matches Some(tls) && exists|material: TlsMaterial|
                        is_material_of(material, config, read) && is_http_tls(tls, material)
                } else {
                    settings.tls is None
                }
            },
            Err(OtlpExporterError::StdIoError(e)) => first_fault(
                pairs_of(config@.builder.headers),
            ).is_none() && is_secure(config@) && is_material_failure(e, config, read),
            Err(e) => is_wire_error(e, config@.builder.headers),
        }
    }
}

/// The settings of an HTTP client for `config`: see [`is_http_client`].
pub fn http_client<F: Fn(&String) -> Result<String, std::io::Error>>(
    config: &Config,
    read: &F,
) -> (r: Result<HttpClientSettings, OtlpExporterError>)
    requires
        forall|path: &String| #[trigger] read.requires((path,)),
    ensures
        is_http_client(r, config, read),
{
    match config.protocol() {
        Protocol::HttpJson | Protocol::HttpProtobuf => {},
        Protocol::Grpc => {
            return Err(protocol_mismatch(Protocol::Grpc, HTTP_PROTOCOLS));
        },
    }
    let default_headers = match gen_header_map(config.headers()) {
        Ok(map) => map,
        Err(e) => {
            return Err(e);
        },
    };
    let tls = if config.insecure() {
        None
    } else {
        let material = match read_tls_material(config, read) {
            Ok(material) => material,
            Err(e) => {
                return Err(e);
            },
        };
        let ghost read_material = material;
        let TlsMaterial { ca_certificate, identity } = material;
        let identity = match identity {
            Some(ClientIdentity { key, certificate }) => Some(key.concat(certificate.as_str())),
            None => None,
        };
        let tls = HttpTls { root_certificate: ca_certificate, identity };
        assert(is_http_tls(tls, read_material));
        Some(tls)
    };
    Ok(
        HttpClientSettings {
            connect_timeout: config.timeout(),
            timeout: config.timeout(),
            default_headers,
            tls,
        },
    )
}

/// For a secure gRPC endpoint by tonic whose trusted certificate cannot be
/// read, asking for the channel gives the error of that read.
pub proof fn lemma_tonic_channel_needs_its_ca<F: Fn(&String) -> Result<String, std::io::Error>>(
    r: Result<TonicChannelSettings, OtlpExporterError>,
    config: &Config,
    read: &F,
    e: std::io::Error,
)
    requires
        is_tonic_channel(r, config, read),
        channel_refusal(config@, TransportImplementation::Tonic).is_none(),
        is_secure(config@),
        config.certificate_path() is Some,
        always_fails_with(read, config.certificate_path()->0, e),
    ensures
        r == Err::<TonicChannelSettings, OtlpExporterError>(OtlpExporterError::StdIoError(e)),
{
    let path = config.certificate_path()->0;
    match r {
        Ok(settings) => {
            assert(was_read(read, path, settings.tls->0.material.ca_certificate->0));
        },
        Err(OtlpExporterError::StdIoError(found)) => {
            if was_read_at(read, path) {
                let text = choose|text: String| was_read(read, path, text);
                assert(was_read(read, path, text));
            }
            assert(read_failed(read, path, found));
        },
        Err(_) => {},
    }
}

/// An HTTP client for a secure endpoint with a lone client key and no trusted
/// certificate is made without an identity, and the key is no cause of
/// failure: with headers that are fit, and fewer than [`WIRE_NAMES_TAKEN`] of
/// them, the client's settings come back.
pub proof fn lemma_http_client_ignores_lone_key<F: Fn(&String) -> Result<String, std::io::Error>>(
    r: Result<HttpClientSettings, OtlpExporterError>,
    config: &Config,
    read: &F,
)
    requires
        is_http_client(r, config, read),
        config@.builder.protocol != Protocol::Grpc,
        is_secure(config@),
        config.certificate_path() is None,
        config.client_key_path() is Some,
        config.client_certificate_path() is None,
        first_fault(pairs_of(config@.builder.headers)).is_none(),
        pairs_of(config@.builder.headers).len() < WIRE_NAMES_TAKEN,
    ensures
        r matches Ok(settings) && (settings.tls matches Some(tls) && tls.identity is None
            && tls.root_certificate is None),
{
}

/// Asking for an HTTP client of a configuration that resolved to gRPC always
/// gives a configuration error.
pub proof fn lemma_http_client_of_grpc_is_refused<
    F: Fn(&String) -> Result<String, std::io::Error>,
>(r: Result<HttpClientSettings, OtlpExporterError>, config: &Config, read: &F)
    requires
        is_http_client(r, config, read),
        config@.builder.protocol == Protocol::Grpc,
    ensures
        r matches Err(OtlpExporterError::ConfigError(_)),
{
}

/// A client is only ever made for the transport that the configuration
/// resolved to: settings come back only where the transport is the one asked
/// for.
pub proof fn lemma_settings_match_transport<F: Fn(&String) -> Result<String, std::io::Error>>(
    tonic: Result<TonicChannelSettings, OtlpExporterError>,
    grpcio: Result<GrpcioChannelSettings, OtlpExporterError>,
    http: Result<HttpClientSettings, OtlpExporterError>,
    config: &Config,
    read: &F,
)
    requires
        is_tonic_channel(tonic, config, read),
        is_grpcio_channel(grpcio, config, read),
        is_http_client(http, config, read),
    ensures
        tonic is Ok ==> transport_of(config@.builder.protocol, config@.builder.grpc_impl)
            == TransportImplementation::Tonic,
        grpcio is Ok ==> transport_of(config@.builder.protocol, config@.builder.grpc_impl)
            == TransportImplementation::Grpcio,
        http is Ok ==> transport_of(config@.builder.protocol, config@.builder.grpc_impl)
            == TransportImplementation::Http,
{
}

/// How a gRPC call ended, as far as an exporter cares.
#[derive(Clone, Copy, Debug, PartialEq, Eq, Structural)]
pub enum CallEnd {
    /// The call succeeded.
    Success,
    /// The call was cancelled, which is how a call that ran out of time ends.
    Cancelled,
    /// The call failed in any other way.
    Failed,
}

/// The status code of a gRPC call that succeeded.
pub const CODE_OK: i32 = 0;

/// The status code of a gRPC call that was cancelled.
pub const CODE_CANCELLED: i32 = 1;

/// How a call ended that ended with the status code `code`.
pub open spec fn call_end_of(code: i32) -> CallEnd {
    if code == CODE_OK {
        CallEnd::Success
    } else if code == CODE_CANCELLED {
        CallEnd::Cancelled
    } else {
        CallEnd::Failed
    }
}

/// How a call ended that ended with the status code `code`.
pub fn call_end(code: i32) -> (r: CallEnd)
    ensures
        r == call_end_of(code),
{
    if code == CODE_OK {
        CallEnd::Success
    } else if code == CODE_CANCELLED {
        CallEnd::Cancelled
    } else {
        CallEnd::Failed
    }
}

/// The code that a status of tonic carries, as the number that gRPC gives it.
pub uninterp spec fn status_code_of(status: tonic::Status) -> i32;

/// How a call ended that ended with the status `status`.
pub open spec fn status_end(status: tonic::Status) -> CallEnd {
    call_end_of(status_code_of(status))
}

/// The code of a status, by `tonic::Status::code`, as the number that gRPC
/// gives it.
///
/// Claimed without proof: the code depends on the status alone, and is named
/// [`status_code_of`]; and the number is one of gRPC's seventeen codes, from
/// 0 to 16.
#[verifier::external_body]
fn status_code(status: &tonic::Status) -> (code: i32)
    ensures
        code == status_code_of(*status),
        0 <= code <= 16,
{
    status.code() as i32
}

/// Why an export failed.
#[derive(Debug)]
pub enum ExportFailure {
    /// The call did not finish within this time.
    ExportTimedOut(Timeout),
    /// The call failed for this reason.
    ExportFailed(OtlpExporterError),
}

/// The result of a trace export whose call ended as `end` with the status
/// `status`, under the timeout `timeout`.
pub open spec fn trace_result_of(end: CallEnd, status: tonic::Status, timeout: Timeout) -> Result<
    (),
    ExportFailure,
> {
    match end {
        CallEnd::Success => Ok(()),
        CallEnd::Cancelled => Err(ExportFailure::ExportTimedOut(timeout)),
        CallEnd::Failed => Err(ExportFailure::ExportFailed(OtlpExporterError::TonicError(status))),
    }
}

/// The result of a trace export whose call ended as `end` with the status
/// `status`: success, a timeout that carries the configured time, or a
/// failure that carries the status as it came.
pub fn trace_result(end: CallEnd, status: tonic::Status, timeout: Timeout) -> (r: Result<
    (),
    ExportFailure,
>)
    ensures
        r == trace_result_of(end, status, timeout),
{
    match end {
        CallEnd::Success => Ok(()),
        CallEnd::Cancelled => Err(ExportFailure::ExportTimedOut(timeout)),
        CallEnd::Failed => Err(ExportFailure::ExportFailed(OtlpExporterError::TonicError(status))),
    }
}

/// The result of a trace export whose call ended with the status `status`:
/// what [`trace_result_of`] gives for the way the status's code ends a call.
pub fn gen_trace_error(status: tonic::Status, timeout: Timeout) -> (r: Result<(), ExportFailure>)
    ensures
        r == trace_result_of(status_end(status), status, timeout),
{
    let code = status_code(&status);
    trace_result(call_end(code), status, timeout)
}

/// The result of a metric export whose call ended as `end` with the status
/// `status`, under the timeout `timeout`.
pub open spec fn metric_result_of(end: CallEnd, status: tonic::Status, timeout: Timeout) -> Result<
    (),
    ExportFailure,
> {
    match end {
        CallEnd::Success => Ok(()),
        CallEnd::Cancelled => Err(ExportFailure::ExportTimedOut(timeout)),
        CallEnd::Failed => Err(ExportFailure::ExportFailed(OtlpExporterError::TonicError(status))),
    }
}

/// The result of a metric export whose call ended as `end` with the status
/// `status`: success, a timeout that carries the configured time, or a
/// failure that carries the status as it came.
pub fn metric_result(end: CallEnd, status: tonic::Status, timeout: Timeout) -> (r: Result<
    (),
    ExportFailure,
>)
    ensures
        r == metric_result_of(end, status, timeout),
{
    match end {
        CallEnd::Success => Ok(()),
        CallEnd::Cancelled => Err(ExportFailure::ExportTimedOut(timeout)),
        CallEnd::Failed => Err(ExportFailure::ExportFailed(OtlpExporterError::TonicError(status))),
    }
}

/// The result of a metric export whose call ended with the status `status`:
/// what [`metric_result_of`] gives for the way the status's code ends a call.
pub fn gen_metric_error(status: tonic::Status, timeout: Timeout) -> (r: Result<(), ExportFailure>)
    ensures
        r == metric_result_of(status_end(status), status, timeout),
{
    let code = status_code(&status);
    metric_result(call_end(code), status, timeout)
}

/// The wire call that one export makes.
#[derive(Clone, Debug, PartialEq, Eq)]
pub enum ExportCall {
    /// One unary gRPC call by tonic, with the exporter's metadata, under
    /// this timeout.
    Tonic {
        /// The time allowed for the call.
        timeout: Timeout,
    },
    /// One unary gRPC call by grpcio, with the exporter's metadata, under
    /// this timeout.
    Grpcio {
        /// The time allowed for the call.
        timeout: Timeout,
    },
    /// One HTTP POST of the encoded batch.
    HttpPost {
        /// Where to post.
        url: String,
        /// The content type of the body.
        content_type: &'static str,
    },
}

/// How the one wire call of an export ended.
#[derive(Debug)]
pub enum CallReply {
    /// The call went through.
    Delivered,
    /// The gRPC call ended with this status.
    Status(tonic::Status),
    /// The HTTP call failed with this error.
    HttpFailed(reqwest::Error),
}

/// Whether `r` is the call by which an HTTP exporter with the encoder
/// `encoder` sends a batch to `endpoint`: a POST to the endpoint with the
/// content type of binary protobuf; for JSON there is no call, only the
/// failure of an unsupported operation.
pub open spec fn is_http_call(
    r: Result<ExportCall, OtlpExporterError>,
    endpoint: crate::endpoint::EndpointView,
    encoder: Encoder,
) -> bool {
    match encoder {
        Encoder::Protobuf => r matches Ok(ExportCall::HttpPost { url, content_type }) && url@
            == endpoint_text(endpoint) && content_type@ == CONTENT_TYPE_PROTOBUF@,
        Encoder::Json => r matches Err(OtlpExporterError::Unsupported(m)) && m@
            == JSON_UNSUPPORTED_MESSAGE@,
    }
}

/// The call by which an HTTP exporter sends a batch: see [`is_http_call`].
pub fn http_call(config: &Config, encoder: Encoder) -> (r: Result<ExportCall, OtlpExporterError>)
    ensures
        is_http_call(r, config@.endpoint, encoder),
{
    match encoder.content_type() {
        Ok(content_type) => Ok(
            ExportCall::HttpPost { url: config.endpoint().to_string(), content_type },
        ),
        Err(e) => Err(e),
    }
}

/// The encoder that goes with a protocol spoken over HTTP.
pub open spec fn encoder_of(protocol: Protocol) -> Encoder {
    if protocol == Protocol::HttpJson {
        Encoder::Json
    } else {
        Encoder::Protobuf
    }
}

} // verus!
