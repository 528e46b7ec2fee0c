use crate::property::{
    bool_read, decode_read, get_property_bool, get_property_decode, get_property_int,
    get_property_string, int_read, string_read,
};
use prost::Message;
use vstd::prelude::*;

verus! {

/// The seconds and nanoseconds of the protobuf timestamp that `bytes`
/// encode, if they encode one.
pub uninterp spec fn decoded_timestamp(bytes: Seq<u8>) -> Option<(i64, i32)>;

/// The seconds and nanoseconds of the protobuf duration that `bytes`
/// encode, if they encode one.
pub uninterp spec fn decoded_duration(bytes: Seq<u8>) -> Option<(i64, i32)>;

/// Calls `prost::Message::decode` for `prost_types::Timestamp`. The
/// result, the two fields of the message or nothing where the bytes are
/// no such message, is named, not described.
#[verifier::external_body]
fn decode_timestamp(bytes: &Vec<u8>) -> (r: Option<(i64, i32)>)
    ensures
        r == decoded_timestamp(bytes@),
{
    match prost_types::Timestamp::decode(bytes.as_slice()) {
        Ok(timestamp) => Some((timestamp.seconds, timestamp.nanos)),
        Err(_) => None,
    }
}

/// Calls `prost::Message::decode` for `prost_types::Duration`. The
/// result, the two fields of the message or nothing where the bytes are
/// no such message, is named, not described.
#[verifier::external_body]
fn decode_duration(bytes: &Vec<u8>) -> (r: Option<(i64, i32)>)
    ensures
        r == decoded_duration(bytes@),
{
    match prost_types::Duration::decode(bytes.as_slice()) {
        Ok(duration) => Some((duration.seconds, duration.nanos)),
        Err(_) => None,
    }
}

/// The seconds and nanoseconds that a decoded timestamp or duration
/// stands for: none where there is none or one of the two is negative.
pub open spec fn spec_moment(decoded: Option<(i64, i32)>) -> Option<(u64, u32)> {
    match decoded {
        Some(fields) => if fields.0 < 0 || fields.1 < 0 {
            None
        } else {
            Some((fields.0 as u64, fields.1 as u32))
        },
        None => None,
    }
}

/// The seconds and nanoseconds that a decoded timestamp or duration
/// stands for: none where there is none or one of the two is negative.
pub fn moment_of(decoded: Option<(i64, i32)>) -> (r: Option<(u64, u32)>)
    ensures
        r == spec_moment(decoded),
{
    match decoded {
        Some((seconds, nanos)) => if seconds < 0 || nanos < 0 {
            None
        } else {
            Some((seconds as u64, nanos as u32))
        },
        None => None,
    }
}

/// The moment that the raw property `raw` holds as a timestamp.
pub open spec fn time_read(raw: Option<Vec<u8>>) -> Option<(u64, u32)> {
    match raw {
        Some(bytes) => spec_moment(decoded_timestamp(bytes@)),
        None => None,
    }
}

/// The span that the raw property `raw` holds as a duration.
pub open spec fn duration_read(raw: Option<Vec<u8>>) -> Option<(u64, u32)> {
    match raw {
        Some(bytes) => spec_moment(decoded_duration(bytes@)),
        None => None,
    }
}

/// The attributes that the host keeps for the stream a callback runs for,
/// grouped as the host documents them. Each attribute is read from the
/// host when it is asked for, through the reader that is handed in.
pub struct Attributes {
    pub request: RequestAttributes,
    pub response: ResponseAttributes,
    pub connection: ConnectionAttributes,
    pub upstream: UpstreamAttributes,
    pub metadata: MetadataAttributes,
    pub configuration: ConfigurationAttributes,
    pub wasm: WasmAttributes,
}

impl Attributes {
    /// The attribute groups. The groups have a private field, so they are
    /// only ever made here.
    pub fn get() -> (r: Self) {
        Attributes {
            request: RequestAttributes(()),
            response: ResponseAttributes(()),
            connection: ConnectionAttributes(()),
            upstream: UpstreamAttributes(()),
            metadata: MetadataAttributes(()),
            configuration: ConfigurationAttributes(()),
            wasm: WasmAttributes(()),
        }
    }
}

/// The direction of the traffic that a listener takes.
#[derive(Debug, Copy, Clone, PartialEq, Eq, Structural)]
pub enum ListenerDirection {
    Unspecified,
    Inbound,
    Outbound,
}

impl ListenerDirection {
    /// The direction that the host means by the number `v`, if any.
    pub open spec fn of(v: i64) -> Option<ListenerDirection> {
        if v == 0 {
            Some(ListenerDirection::Unspecified)
        } else if v == 1 {
            Some(ListenerDirection::Inbound)
        } else if v == 2 {
            Some(ListenerDirection::Outbound)
        } else {
            None
        }
    }

    /// The direction that the host means by the number `v`, if any.
    pub fn from_i64(v: i64) -> (r: Option<Self>)
        ensures
            r == Self::of(v),
    {
        match v {
            0 => Some(ListenerDirection::Unspecified),
            1 => Some(ListenerDirection::Inbound),
            2 => Some(ListenerDirection::Outbound),
            _ => None,
        }
    }
}

/// Available in HTTP filters during a request.
pub struct RequestAttributes(());

impl RequestAttributes {
    /// The path portion of the URL.
    pub fn path<P: FnOnce(&str) -> Option<Vec<u8>>>(&self, read: P) -> (r: Option<String>)
        requires
            call_requires(read, ("request.path",)),
        ensures
            exists|raw: Option<Vec<u8>>|
                #[trigger] call_ensures(read, ("request.path",), raw) && string_read(raw, r),
    {
        get_property_string("request.path", read)
    }

    /// The path portion of the URL without the query string.
    pub fn url_path<P: FnOnce(&str) -> Option<Vec<u8>>>(&self, read: P) -> (r: Option<String>)
        requires
            call_requires(read, ("request.url_path",)),
        ensures
            exists|raw: Option<Vec<u8>>|
                #[trigger] call_ensures(read, ("request.url_path",), raw) && string_read(raw, r),
    {
        get_property_string("request.url_path", read)
    }

    /// The host portion of the URL.
    pub fn host<P: FnOnce(&str) -> Option<Vec<u8>>>(&self, read: P) -> (r: Option<String>)
        requires
            call_requires(read, ("request.host",)),
        ensures
            exists|raw: Option<Vec<u8>>|
                #[trigger] call_ensures(read, ("request.host",), raw) && string_read(raw, r),
    {
        get_property_string("request.host", read)
    }

    /// The scheme portion of the URL e.g. "http".
    pub fn scheme<P: FnOnce(&str) -> Option<Vec<u8>>>(&self, read: P) -> (r: Option<String>)
        requires
            call_requires(read, ("request.scheme",)),
        ensures
            exists|raw: Option<Vec<u8>>|
                #[trigger] call_ensures(read, ("request.scheme",), raw) && string_read(raw, r),
    {
        get_property_string("request.scheme", read)
    }

    /// Request method e.g. "GET".
    pub fn method<P: FnOnce(&str) -> Option<Vec<u8>>>(&self, read: P) -> (r: Option<String>)
        requires
            call_requires(read, ("request.method",)),
        ensures
            exists|raw: Option<Vec<u8>>|
                #[trigger] call_ensures(read, ("request.method",), raw) && string_read(raw, r),
    {
        get_property_string("request.method", read)
    }

    /// All request headers indexed by the lower-cased header name. Header
    /// values are comma-concatenated in case of multiple values.
    /// `decode` reads the entries out of the string map that the bytes
    /// encode.
    pub fn headers<
        P: FnOnce(&str) -> Option<Vec<u8>>,
        D: FnOnce(Vec<u8>) -> Option<Vec<(String, Vec<u8>)>>,
    >(&self, read: P, decode: D) -> (r: Option<Vec<(String, Vec<u8>)>>)
        requires
            call_requires(read, ("request.headers",)),
            forall|bytes: Vec<u8>| call_requires(decode, (bytes,)),
        ensures
            exists|raw: Option<Vec<u8>>|
                #[trigger] call_ensures(read, ("request.headers",), raw)
                    && decode_read(raw, decode, r),
    {
        get_property_decode("request.headers", read, decode)
    }

    /// Referer request header.
    pub fn referer<P: FnOnce(&str) -> Option<Vec<u8>>>(&self, read: P) -> (r: Option<String>)
        requires
            call_requires(read, ("request.referer",)),
        ensures
            exists|raw: Option<Vec<u8>>|
                #[trigger] call_ensures(read, ("request.referer",), raw) && string_read(raw, r),
    {
        get_property_string("request.referer", read)
    }

    /// User agent request header.
    pub fn useragent<P: FnOnce(&str) -> Option<Vec<u8>>>(&self, read: P) -> (r: Option<String>)
        requires
            call_requires(read, ("request.useragent",)),
        ensures
            exists|raw: Option<Vec<u8>>|
                #[trigger] call_ensures(read, ("request.useragent",), raw) && string_read(raw, r),
    {
        get_property_string("request.useragent", read)
    }

    /// Time of the first byte received, as seconds and nanoseconds since
    /// the start of 1970. A timestamp with a negative field is passed
    /// over.
    pub fn time<P: FnOnce(&str) -> Option<Vec<u8>>>(&self, read: P) -> (r: Option<(u64, u32)>)
        requires
            call_requires(read, ("request.time",)),
        ensures
            exists|raw: Option<Vec<u8>>|
                #[trigger] call_ensures(read, ("request.time",), raw) && r == time_read(raw),
    {
        match read("request.time") {
            Some(bytes) => moment_of(decode_timestamp(&bytes)),
            None => None,
        }
    }

    /// Request ID corresponding to x-request-id header value.
    pub fn id<P: FnOnce(&str) -> Option<Vec<u8>>>(&self, read: P) -> (r: Option<String>)
        requires
            call_requires(read, ("request.id",)),
        ensures
            exists|raw: Option<Vec<u8>>|
                #[trigger] call_ensures(read, ("request.id",), raw) && string_read(raw, r),
    {
        get_property_string("request.id", read)
    }

    /// Request protocol ("HTTP/1.0", "HTTP/1.1", "HTTP/2", or "HTTP/3").
    pub fn protocol<P: FnOnce(&str) -> Option<Vec<u8>>>(&self, read: P) -> (r: Option<String>)
        requires
            call_requires(read, ("request.protocol",)),
        ensures
            exists|raw: Option<Vec<u8>>|
                #[trigger] call_ensures(read, ("request.protocol",), raw) && string_read(raw, r),
    {
        get_property_string("request.protocol", read)
    }

    /// The query portion of the URL in the format of
    /// "name1=value1&name2=value2".
    pub fn query<P: FnOnce(&str) -> Option<Vec<u8>>>(&self, read: P) -> (r: Option<String>)
        requires
            call_requires(read, ("request.query",)),
        ensures
            exists|raw: Option<Vec<u8>>|
                #[trigger] call_ensures(read, ("request.query",), raw) && string_read(raw, r),
    {
        get_property_string("request.query", read)
    }

    /// Total duration of the request, as seconds and nanoseconds.
    /// Available in HTTP filters after a request is complete. A duration
    /// with a negative field is passed over.
    pub fn duration<P: FnOnce(&str) -> Option<Vec<u8>>>(&self, read: P) -> (r: Option<(u64, u32)>)
        requires
            call_requires(read, ("request.duration",)),
        ensures
            exists|raw: Option<Vec<u8>>|
                #[trigger] call_ensures(read, ("request.duration",), raw) && r == duration_read(
                    raw,
                ),
    {
        match read("request.duration") {
            Some(bytes) => moment_of(decode_duration(&bytes)),
            None => None,
        }
    }

    /// Size of the request body. Content length header is used if available.
    /// Available in HTTP filters after a request is complete.
    pub fn size<P: FnOnce(&str) -> Option<Vec<u8>>>(&self, read: P) -> (r: Option<usize>)
        requires
            call_requires(read, ("request.size",)),
        ensures
            exists|raw: Option<Vec<u8>>|
                #[trigger] call_ensures(read, ("request.size",), raw) && r == match int_read(raw) {
                    Some(x) => Some(x as usize),
                    None => None,
                },
    {
        match get_property_int("request.size", read) {
            Some(x) => Some(#[verifier::truncate] (x as usize)),
            None => None,
        }
    }

    /// Total size of the request including the approximate uncompressed size
    /// of the headers. Available in HTTP filters after a request is complete.
    pub fn total_size<P: FnOnce(&str) -> Option<Vec<u8>>>(&self, read: P) -> (r: Option<usize>)
        requires
            call_requires(read, ("request.total_size",)),
        ensures
            exists|raw: Option<Vec<u8>>|
                #[trigger] call_ensures(read, ("request.total_size",), raw) && r
                    == match int_read(raw) {
                    Some(x) => Some(x as usize),
                    None => None,
                },
    {
        match get_property_int("request.total_size", read) {
            Some(x) => Some(#[verifier::truncate] (x as usize)),
            None => None,
        }
    }
}

/// Available in HTTP filters during a response.
pub struct ResponseAttributes(());

impl ResponseAttributes {
    /// Response HTTP status code.
    pub fn code<P: FnOnce(&str) -> Option<Vec<u8>>>(&self, read: P) -> (r: Option<u32>)
        requires
            call_requires(read, ("response.code",)),
        ensures
            exists|raw: Option<Vec<u8>>|
                #[trigger] call_ensures(read, ("response.code",), raw) && r == match int_read(raw) {
                    Some(x) => Some(x as u32),
                    None => None,
                },
    {
        match get_property_int("response.code", read) {
            Some(x) => Some(#[verifier::truncate] (x as u32)),
            None => None,
        }
    }

    /// Internal response code details (subject to change).
    pub fn code_details<P: FnOnce(&str) -> Option<Vec<u8>>>(&self, read: P) -> (r: Option<String>)
        requires
            call_requires(read, ("response.code_details",)),
        ensures
            exists|raw: Option<Vec<u8>>|
                #[trigger] call_ensures(read, ("response.code_details",), raw)
                    && string_read(raw, r),
    {
        get_property_string("response.code_details", read)
    }

    /// Additional details about the response beyond the standard response
    /// code encoded as a bit-vector.
    pub fn flags<P: FnOnce(&str) -> Option<Vec<u8>>>(&self, read: P) -> (r: Option<u64>)
        requires
            call_requires(read, ("response.flags",)),
        ensures
            exists|raw: Option<Vec<u8>>|
                #[trigger] call_ensures(read, ("response.flags",), raw) && r
                    == match int_read(raw) {
                    Some(x) => Some(x as u64),
                    None => None,
                },
    {
        match get_property_int("response.flags", read) {
            Some(x) => Some(#[verifier::truncate] (x as u64)),
            None => None,
        }
    }

    /// Response gRPC status code.
    pub fn grpc_status<P: FnOnce(&str) -> Option<Vec<u8>>>(&self, read: P) -> (r: Option<u32>)
        requires
            call_requires(read, ("response.grpc_status",)),
        ensures
            exists|raw: Option<Vec<u8>>|
                #[trigger] call_ensures(read, ("response.grpc_status",), raw) && r
                    == match int_read(raw) {
                    Some(x) => Some(x as u32),
                    None => None,
                },
    {
        match get_property_int("response.grpc_status", read) {
            Some(x) => Some(#[verifier::truncate] (x as u32)),
            None => None,
        }
    }

    /// All response headers indexed by the lower-cased header name. Header
    /// values are comma-concatenated in case of multiple values.
    /// `decode` reads the entries out of the string map that the bytes
    /// encode.
    pub fn headers<
        P: FnOnce(&str) -> Option<Vec<u8>>,
        D: FnOnce(Vec<u8>) -> Option<Vec<(String, Vec<u8>)>>,
    >(&self, read: P, decode: D) -> (r: Option<Vec<(String, Vec<u8>)>>)
        requires
            call_requires(read, ("response.headers",)),
            forall|bytes: Vec<u8>| call_requires(decode, (bytes,)),
        ensures
            exists|raw: Option<Vec<u8>>|
                #[trigger] call_ensures(read, ("response.headers",), raw)
                    && decode_read(raw, decode, r),
    {
        get_property_decode("response.headers", read, decode)
    }

    /// All response trailers indexed by the lower-cased trailer name. Header
    /// values are comma-concatenated in case of multiple values.
    /// `decode` reads the entries out of the string map that the bytes
    /// encode.
    pub fn trailers<
        P: FnOnce(&str) -> Option<Vec<u8>>,
        D: FnOnce(Vec<u8>) -> Option<Vec<(String, Vec<u8>)>>,
    >(&self, read: P, decode: D) -> (r: Option<Vec<(String, Vec<u8>)>>)
        requires
            call_requires(read, ("response.trailers",)),
            forall|bytes: Vec<u8>| call_requires(decode, (bytes,)),
        ensures
            exists|raw: Option<Vec<u8>>|
                #[trigger] call_ensures(read, ("response.trailers",), raw)
                    && decode_read(raw, decode, r),
    {
        get_property_decode("response.trailers", read, decode)
    }

    /// Size of the response body.
    pub fn size<P: FnOnce(&str) -> Option<Vec<u8>>>(&self, read: P) -> (r: Option<usize>)
        requires
            call_requires(read, ("response.size",)),
        ensures
            exists|raw: Option<Vec<u8>>|
                #[trigger] call_ensures(read, ("response.size",), raw) && r == match int_read(raw) {
                    Some(x) => Some(x as usize),
                    None => None,
                },
    {
        match get_property_int("response.size", read) {
            Some(x) => Some(#[verifier::truncate] (x as usize)),
            None => None,
        }
    }

    /// Total size of the response including the approximate uncompressed size
    /// of the headers and the trailers.
    pub fn total_size<P: FnOnce(&str) -> Option<Vec<u8>>>(&self, read: P) -> (r: Option<usize>)
        requires
            call_requires(read, ("response.total_size",)),
        ensures
            exists|raw: Option<Vec<u8>>|
                #[trigger] call_ensures(read, ("response.total_size",), raw) && r
                    == match int_read(raw) {
                    Some(x) => Some(x as usize),
                    None => None,
                },
    {
        match get_property_int("response.total_size", read) {
            Some(x) => Some(#[verifier::truncate] (x as usize)),
            None => None,
        }
    }
}

/// Available once the downstream connection is established.
pub struct ConnectionAttributes(());

impl ConnectionAttributes {
    /// Downstream connection remote address & port, as text.
    pub fn source_address<P: FnOnce(&str) -> Option<Vec<u8>>>(&self, read: P) -> (r: Option<String>)
        requires
            call_requires(read, ("source.address",)),
        ensures
            exists|raw: Option<Vec<u8>>|
                #[trigger] call_ensures(read, ("source.address",), raw) && string_read(raw, r),
    {
        get_property_string("source.address", read)
    }

    /// Downstream connection remote port.
    pub fn source_port<P: FnOnce(&str) -> Option<Vec<u8>>>(&self, read: P) -> (r: Option<u16>)
        requires
            call_requires(read, ("source.port",)),
        ensures
            exists|raw: Option<Vec<u8>>|
                #[trigger] call_ensures(read, ("source.port",), raw) && r == match int_read(raw) {
                    Some(x) => Some(x as u16),
                    None => None,
                },
    {
        match get_property_int("source.port", read) {
            Some(x) => Some(#[verifier::truncate] (x as u16)),
            None => None,
        }
    }

    /// Downstream connection local address & port, as text.
    pub fn destination_address<P: FnOnce(&str) -> Option<Vec<u8>>>(&self,
        read: P) -> (r: Option<String>)
        requires
            call_requires(read, ("destination.address",)),
        ensures
            exists|raw: Option<Vec<u8>>|
                #[trigger] call_ensures(read, ("destination.address",), raw) && string_read(raw, r),
    {
        get_property_string("destination.address", read)
    }

    /// Downstream connection local port.
    pub fn destination_port<P: FnOnce(&str) -> Option<Vec<u8>>>(&self, read: P) -> (r: Option<u16>)
        requires
            call_requires(read, ("destination.port",)),
        ensures
            exists|raw: Option<Vec<u8>>|
                #[trigger] call_ensures(read, ("destination.port",), raw) && r
                    == match int_read(raw) {
                    Some(x) => Some(x as u16),
                    None => None,
                },
    {
        match get_property_int("destination.port", read) {
            Some(x) => Some(#[verifier::truncate] (x as u16)),
            None => None,
        }
    }

    /// Downstream connection ID.
    pub fn id<P: FnOnce(&str) -> Option<Vec<u8>>>(&self, read: P) -> (r: Option<u64>)
        requires
            call_requires(read, ("connection.id",)),
        ensures
            exists|raw: Option<Vec<u8>>|
                #[trigger] call_ensures(read, ("connection.id",), raw) && r == match int_read(raw) {
                    Some(x) => Some(x as u64),
                    None => None,
                },
    {
        match get_property_int("connection.id", read) {
            Some(x) => Some(#[verifier::truncate] (x as u64)),
            None => None,
        }
    }

    /// Indicates whether TLS is applied to the downstream connection and the
    /// peer certificate is presented.
    pub fn mtls<P: FnOnce(&str) -> Option<Vec<u8>>>(&self, read: P) -> (r: Option<bool>)
        requires
            call_requires(read, ("connection.mtls",)),
        ensures
            exists|raw: Option<Vec<u8>>|
                #[trigger] call_ensures(read, ("connection.mtls",), raw) && r == bool_read(raw),
    {
        get_property_bool("connection.mtls", read)
    }

    /// Requested server name in the downstream TLS connection.
    pub fn requested_server_name<P: FnOnce(&str) -> Option<Vec<u8>>>(&self,
        read: P) -> (r: Option<String>)
        requires
            call_requires(read, ("connection.requested_server_name",)),
        ensures
            exists|raw: Option<Vec<u8>>|
                #[trigger] call_ensures(read, ("connection.requested_server_name",), raw)
                    && string_read(raw, r),
    {
        get_property_string("connection.requested_server_name", read)
    }

    /// TLS version of the downstream TLS connection.
    pub fn tls_version<P: FnOnce(&str) -> Option<Vec<u8>>>(&self, read: P) -> (r: Option<String>)
        requires
            call_requires(read, ("connection.tls_version",)),
        ensures
            exists|raw: Option<Vec<u8>>|
                #[trigger] call_ensures(read, ("connection.tls_version",), raw)
                    && string_read(raw, r),
    {
        get_property_string("connection.tls_version", read)
    }

    /// The subject field of the local certificate in the downstream TLS
    /// connection.
    pub fn subject_local_certificate<P: FnOnce(&str) -> Option<Vec<u8>>>(&self,
        read: P) -> (r: Option<String>)
        requires
            call_requires(read, ("connection.subject_local_certificate",)),
        ensures
            exists|raw: Option<Vec<u8>>|
                #[trigger] call_ensures(read, ("connection.subject_local_certificate",), raw)
                    && string_read(raw, r),
    {
        get_property_string("connection.subject_local_certificate", read)
    }

    /// The subject field of the peer certificate in the downstream TLS
    /// connection.
    pub fn subject_peer_certificate<P: FnOnce(&str) -> Option<Vec<u8>>>(&self,
        read: P) -> (r: Option<String>)
        requires
            call_requires(read, ("connection.subject_peer_certificate",)),
        ensures
            exists|raw: Option<Vec<u8>>|
                #[trigger] call_ensures(read, ("connection.subject_peer_certificate",), raw)
                    && string_read(raw, r),
    {
        get_property_string("connection.subject_peer_certificate", read)
    }

    /// The first DNS entry in the SAN field of the local certificate in the
    /// downstream TLS connection.
    pub fn dns_san_local_certificate<P: FnOnce(&str) -> Option<Vec<u8>>>(&self,
        read: P) -> (r: Option<String>)
        requires
            call_requires(read, ("connection.dns_san_local_certificate",)),
        ensures
            exists|raw: Option<Vec<u8>>|
                #[trigger] call_ensures(read, ("connection.dns_san_local_certificate",), raw)
                    && string_read(raw, r),
    {
        get_property_string("connection.dns_san_local_certificate", read)
    }

    /// The first DNS entry in the SAN field of the peer certificate in the
    /// downstream TLS connection.
    pub fn dns_san_peer_certificate<P: FnOnce(&str) -> Option<Vec<u8>>>(&self,
        read: P) -> (r: Option<String>)
        requires
            call_requires(read, ("connection.dns_san_peer_certificate",)),
        ensures
            exists|raw: Option<Vec<u8>>|
                #[trigger] call_ensures(read, ("connection.dns_san_peer_certificate",), raw)
                    && string_read(raw, r),
    {
        get_property_string("connection.dns_san_peer_certificate", read)
    }

    /// The first URI entry in the SAN field of the local certificate in the
    /// downstream TLS connection.
    pub fn uri_san_local_certificate<P: FnOnce(&str) -> Option<Vec<u8>>>(&self,
        read: P) -> (r: Option<String>)
        requires
            call_requires(read, ("connection.uri_san_local_certificate",)),
        ensures
            exists|raw: Option<Vec<u8>>|
                #[trigger] call_ensures(read, ("connection.uri_san_local_certificate",), raw)
                    && string_read(raw, r),
    {
        get_property_string("connection.uri_san_local_certificate", read)
    }

    /// The first URI entry in the SAN field of the peer certificate in the
    /// downstream TLS connection.
    pub fn uri_san_peer_certificate<P: FnOnce(&str) -> Option<Vec<u8>>>(&self,
        read: P) -> (r: Option<String>)
        requires
            call_requires(read, ("connection.uri_san_peer_certificate",)),
        ensures
            exists|raw: Option<Vec<u8>>|
                #[trigger] call_ensures(read, ("connection.uri_san_peer_certificate",), raw)
                    && string_read(raw, r),
    {
        get_property_string("connection.uri_san_peer_certificate", read)
    }

    /// SHA256 digest of the peer certificate in the downstream TLS connection
    /// if present.
    pub fn sha256_peer_certificate_digest<P: FnOnce(&str) -> Option<Vec<u8>>>(&self,
        read: P) -> (r: Option<String>)
        requires
            call_requires(read, ("connection.sha256_peer_certificate_digest",)),
        ensures
            exists|raw: Option<Vec<u8>>|
                #[trigger] call_ensures(read, ("connection.sha256_peer_certificate_digest",),
                    raw) && string_read(raw, r),
    {
        get_property_string("connection.sha256_peer_certificate_digest", read)
    }

    /// Internal termination details of the connection (subject to change).
    /// Available upon the downstream connection termination.
    pub fn termination_details<P: FnOnce(&str) -> Option<Vec<u8>>>(&self,
        read: P) -> (r: Option<String>)
        requires
            call_requires(read, ("connection.termination_details",)),
        ensures
            exists|raw: Option<Vec<u8>>|
                #[trigger] call_ensures(read, ("connection.termination_details",), raw)
                    && string_read(raw, r),
    {
        get_property_string("connection.termination_details", read)
    }
}

/// Available once the upstream connection is established.
pub struct UpstreamAttributes(());

impl UpstreamAttributes {
    /// Upstream connection remote address & port, as text.
    pub fn address<P: FnOnce(&str) -> Option<Vec<u8>>>(&self, read: P) -> (r: Option<String>)
        requires
            call_requires(read, ("upstream.address",)),
        ensures
            exists|raw: Option<Vec<u8>>|
                #[trigger] call_ensures(read, ("upstream.address",), raw) && string_read(raw, r),
    {
        get_property_string("upstream.address", read)
    }

    /// Upstream connection remote port.
    pub fn port<P: FnOnce(&str) -> Option<Vec<u8>>>(&self, read: P) -> (r: Option<u16>)
        requires
            call_requires(read, ("upstream.port",)),
        ensures
            exists|raw: Option<Vec<u8>>|
                #[trigger] call_ensures(read, ("upstream.port",), raw) && r == match int_read(raw) {
                    Some(x) => Some(x as u16),
                    None => None,
                },
    {
        match get_property_int("upstream.port", read) {
            Some(x) => Some(#[verifier::truncate] (x as u16)),
            None => None,
        }
    }

    /// TLS version of the upstream TLS connection.
    pub fn tls_version<P: FnOnce(&str) -> Option<Vec<u8>>>(&self, read: P) -> (r: Option<String>)
        requires
            call_requires(read, ("upstream.tls_version",)),
        ensures
            exists|raw: Option<Vec<u8>>|
                #[trigger] call_ensures(read, ("upstream.tls_version",), raw)
                    && string_read(raw, r),
    {
        get_property_string("upstream.tls_version", read)
    }

    /// The subject field of the local certificate in the upstream TLS
    /// connection.
    pub fn subject_local_certificate<P: FnOnce(&str) -> Option<Vec<u8>>>(&self,
        read: P) -> (r: Option<String>)
        requires
            call_requires(read, ("upstream.subject_local_certificate",)),
        ensures
            exists|raw: Option<Vec<u8>>|
                #[trigger] call_ensures(read, ("upstream.subject_local_certificate",), raw)
                    && string_read(raw, r),
    {
        get_property_string("upstream.subject_local_certificate", read)
    }

    /// The subject field of the peer certificate in the upstream TLS
    /// connection.
    pub fn subject_peer_certificate<P: FnOnce(&str) -> Option<Vec<u8>>>(&self,
        read: P) -> (r: Option<String>)
        requires
            call_requires(read, ("upstream.subject_peer_certificate",)),
        ensures
            exists|raw: Option<Vec<u8>>|
                #[trigger] call_ensures(read, ("upstream.subject_peer_certificate",), raw)
                    && string_read(raw, r),
    {
        get_property_string("upstream.subject_peer_certificate", read)
    }

    /// The first DNS entry in the SAN field of the local certificate in the
    /// upstream TLS connection.
    pub fn dns_san_local_certificate<P: FnOnce(&str) -> Option<Vec<u8>>>(&self,
        read: P) -> (r: Option<String>)
        requires
            call_requires(read, ("upstream.dns_san_local_certificate",)),
        ensures
            exists|raw: Option<Vec<u8>>|
                #[trigger] call_ensures(read, ("upstream.dns_san_local_certificate",), raw)
                    && string_read(raw, r),
    {
        get_property_string("upstream.dns_san_local_certificate", read)
    }

    /// The first DNS entry in the SAN field of the peer certificate in the
    /// upstream TLS connection.
    pub fn dns_san_peer_certificate<P: FnOnce(&str) -> Option<Vec<u8>>>(&self,
        read: P) -> (r: Option<String>)
        requires
            call_requires(read, ("upstream.dns_san_peer_certificate",)),
        ensures
            exists|raw: Option<Vec<u8>>|
                #[trigger] call_ensures(read, ("upstream.dns_san_peer_certificate",), raw)
                    && string_read(raw, r),
    {
        get_property_string("upstream.dns_san_peer_certificate", read)
    }

    /// The first URI entry in the SAN field of the local certificate in the
    /// upstream TLS connection.
    pub fn uri_san_local_certificate<P: FnOnce(&str) -> Option<Vec<u8>>>(&self,
        read: P) -> (r: Option<String>)
        requires
            call_requires(read, ("upstream.uri_san_local_certificate",)),
        ensures
            exists|raw: Option<Vec<u8>>|
                #[trigger] call_ensures(read, ("upstream.uri_san_local_certificate",), raw)
                    && string_read(raw, r),
    {
        get_property_string("upstream.uri_san_local_certificate", read)
    }

    /// The first URI entry in the SAN field of the peer certificate in the
    /// upstream TLS connection.
    pub fn uri_san_peer_certificate<P: FnOnce(&str) -> Option<Vec<u8>>>(&self,
        read: P) -> (r: Option<String>)
        requires
            call_requires(read, ("upstream.uri_san_peer_certificate",)),
        ensures
            exists|raw: Option<Vec<u8>>|
                #[trigger] call_ensures(read, ("upstream.uri_san_peer_certificate",), raw)
                    && string_read(raw, r),
    {
        get_property_string("upstream.uri_san_peer_certificate", read)
    }

    /// SHA256 digest of the peer certificate in the upstream TLS connection
    /// if present.
    pub fn sha256_peer_certificate_digest<P: FnOnce(&str) -> Option<Vec<u8>>>(&self,
        read: P) -> (r: Option<String>)
        requires
            call_requires(read, ("upstream.sha256_peer_certificate_digest",)),
        ensures
            exists|raw: Option<Vec<u8>>|
                #[trigger] call_ensures(read, ("upstream.sha256_peer_certificate_digest",),
                    raw) && string_read(raw, r),
    {
        get_property_string("upstream.sha256_peer_certificate_digest", read)
    }

    /// The local address of the upstream connection.
    pub fn local_address<P: FnOnce(&str) -> Option<Vec<u8>>>(&self, read: P) -> (r: Option<String>)
        requires
            call_requires(read, ("upstream.local_address",)),
        ensures
            exists|raw: Option<Vec<u8>>|
                #[trigger] call_ensures(read, ("upstream.local_address",), raw)
                    && string_read(raw, r),
    {
        get_property_string("upstream.local_address", read)
    }

    /// The upstream transport failure reason e.g. certificate validation
    /// failed.
    pub fn transport_failure_reason<P: FnOnce(&str) -> Option<Vec<u8>>>(&self,
        read: P) -> (r: Option<String>)
        requires
            call_requires(read, ("upstream.transport_failure_reason",)),
        ensures
            exists|raw: Option<Vec<u8>>|
                #[trigger] call_ensures(read, ("upstream.transport_failure_reason",), raw)
                    && string_read(raw, r),
    {
        get_property_string("upstream.transport_failure_reason", read)
    }
}

/// Data exchanged between filters. These attributes may change during the
/// life of a request as the data can be updated by filters at any point.
pub struct MetadataAttributes(());

impl MetadataAttributes {
    /// Dynamic request metadata.
    /// `decode` reads the message that the bytes encode.
    pub fn metadata<M, P: FnOnce(&str) -> Option<Vec<u8>>, D: FnOnce(Vec<u8>) -> Option<M>>(
        &self,
        read: P,
        decode: D,
    ) -> (r: Option<M>)
        requires
            call_requires(read, ("metadata",)),
            forall|bytes: Vec<u8>| call_requires(decode, (bytes,)),
        ensures
            exists|raw: Option<Vec<u8>>|
                #[trigger] call_ensures(read, ("metadata",), raw) && decode_read(raw, decode, r),
    {
        get_property_decode("metadata", read, decode)
    }

    /// Mapping from a filter state name to its serialized string value.
    /// `decode` reads the entries out of the string map that the bytes
    /// encode.
    pub fn filter_state<
        P: FnOnce(&str) -> Option<Vec<u8>>,
        D: FnOnce(Vec<u8>) -> Option<Vec<(String, Vec<u8>)>>,
    >(&self, read: P, decode: D) -> (r: Option<Vec<(String, Vec<u8>)>>)
        requires
            call_requires(read, ("filter_state",)),
            forall|bytes: Vec<u8>| call_requires(decode, (bytes,)),
        ensures
            exists|raw: Option<Vec<u8>>|
                #[trigger] call_ensures(read, ("filter_state",), raw)
                    && decode_read(raw, decode, r),
    {
        get_property_decode("filter_state", read, decode)
    }
}

/// Configuration identifiers and metadata related to the handling of the
/// request or the connection.
pub struct ConfigurationAttributes(());

impl ConfigurationAttributes {
    /// Upstream cluster name.
    pub fn cluster_name<P: FnOnce(&str) -> Option<Vec<u8>>>(&self, read: P) -> (r: Option<String>)
        requires
            call_requires(read, ("xds.cluster_name",)),
        ensures
            exists|raw: Option<Vec<u8>>|
                #[trigger] call_ensures(read, ("xds.cluster_name",), raw) && string_read(raw, r),
    {
        get_property_string("xds.cluster_name", read)
    }

    /// Upstream cluster metadata.
    /// `decode` reads the message that the bytes encode.
    pub fn cluster_metadata<M, P: FnOnce(&str) -> Option<Vec<u8>>, D: FnOnce(Vec<u8>) -> Option<M>>(
        &self,
        read: P,
        decode: D,
    ) -> (r: Option<M>)
        requires
            call_requires(read, ("xds.cluster_metadata",)),
            forall|bytes: Vec<u8>| call_requires(decode, (bytes,)),
        ensures
            exists|raw: Option<Vec<u8>>|
                #[trigger] call_ensures(read, ("xds.cluster_metadata",), raw)
                    && decode_read(raw, decode, r),
    {
        get_property_decode("xds.cluster_metadata", read, decode)
    }

    /// Route name.
    pub fn route_name<P: FnOnce(&str) -> Option<Vec<u8>>>(&self, read: P) -> (r: Option<String>)
        requires
            call_requires(read, ("xds.route_name",)),
        ensures
            exists|raw: Option<Vec<u8>>|
                #[trigger] call_ensures(read, ("xds.route_name",), raw) && string_read(raw, r),
    {
        get_property_string("xds.route_name", read)
    }

    /// Route metadata.
    /// `decode` reads the message that the bytes encode.
    pub fn route_metadata<M, P: FnOnce(&str) -> Option<Vec<u8>>, D: FnOnce(Vec<u8>) -> Option<M>>(
        &self,
        read: P,
        decode: D,
    ) -> (r: Option<M>)
        requires
            call_requires(read, ("xds.route_metadata",)),
            forall|bytes: Vec<u8>| call_requires(decode, (bytes,)),
        ensures
            exists|raw: Option<Vec<u8>>|
                #[trigger] call_ensures(read, ("xds.route_metadata",), raw)
                    && decode_read(raw, decode, r),
    {
        get_property_decode("xds.route_metadata", read, decode)
    }

    /// Upstream host metadata.
    /// `decode` reads the message that the bytes encode.
    pub fn upstream_host_metadata<M, P: FnOnce(&str) -> Option<Vec<u8>>,
        D: FnOnce(Vec<u8>) -> Option<M>>(
        &self,
        read: P,
        decode: D,
    ) -> (r: Option<M>)
        requires
            call_requires(read, ("xds.upstream_host_metadata",)),
            forall|bytes: Vec<u8>| call_requires(decode, (bytes,)),
        ensures
            exists|raw: Option<Vec<u8>>|
                #[trigger] call_ensures(read, ("xds.upstream_host_metadata",), raw)
                    && decode_read(raw, decode, r),
    {
        get_property_decode("xds.upstream_host_metadata", read, decode)
    }

    /// Listener filter chain name.
    pub fn filter_chain_name<P: FnOnce(&str) -> Option<Vec<u8>>>(&self,
        read: P) -> (r: Option<String>)
        requires
            call_requires(read, ("xds.filter_chain_name",)),
        ensures
            exists|raw: Option<Vec<u8>>|
                #[trigger] call_ensures(read, ("xds.filter_chain_name",), raw)
                    && string_read(raw, r),
    {
        get_property_string("xds.filter_chain_name", read)
    }
}

/// Extra attributes available to Wasm extensions.
pub struct WasmAttributes(());

impl WasmAttributes {
    /// The group of the attributes for Wasm extensions.
    pub fn get() -> (r: Self) {
        WasmAttributes(())
    }

    /// Plugin name.
    pub fn plugin_name<P: FnOnce(&str) -> Option<Vec<u8>>>(&self, read: P) -> (r: Option<String>)
        requires
            call_requires(read, ("plugin_name",)),
        ensures
            exists|raw: Option<Vec<u8>>|
                #[trigger] call_ensures(read, ("plugin_name",), raw) && string_read(raw, r),
    {
        get_property_string("plugin_name", read)
    }

    /// Plugin root ID.
    pub fn plugin_root_id<P: FnOnce(&str) -> Option<Vec<u8>>>(&self, read: P) -> (r: Option<String>)
        requires
            call_requires(read, ("plugin_root_id",)),
        ensures
            exists|raw: Option<Vec<u8>>|
                #[trigger] call_ensures(read, ("plugin_root_id",), raw) && string_read(raw, r),
    {
        get_property_string("plugin_root_id", read)
    }

    /// Plugin VM ID.
    pub fn plugin_vm_id<P: FnOnce(&str) -> Option<Vec<u8>>>(&self, read: P) -> (r: Option<String>)
        requires
            call_requires(read, ("plugin_vm_id",)),
        ensures
            exists|raw: Option<Vec<u8>>|
                #[trigger] call_ensures(read, ("plugin_vm_id",), raw) && string_read(raw, r),
    {
        get_property_string("plugin_vm_id", read)
    }

    /// Local node description.
    /// `decode` reads the message that the bytes encode.
    pub fn node<M, P: FnOnce(&str) -> Option<Vec<u8>>, D: FnOnce(Vec<u8>) -> Option<M>>(
        &self,
        read: P,
        decode: D,
    ) -> (r: Option<M>)
        requires
            call_requires(read, ("node",)),
            forall|bytes: Vec<u8>| call_requires(decode, (bytes,)),
        ensures
            exists|raw: Option<Vec<u8>>|
                #[trigger] call_ensures(read, ("node",), raw) && decode_read(raw, decode, r),
    {
        get_property_decode("node", read, decode)
    }

    /// Upstream cluster name.
    pub fn cluster_name<P: FnOnce(&str) -> Option<Vec<u8>>>(&self, read: P) -> (r: Option<String>)
        requires
            call_requires(read, ("cluster_name",)),
        ensures
            exists|raw: Option<Vec<u8>>|
                #[trigger] call_ensures(read, ("cluster_name",), raw) && string_read(raw, r),
    {
        get_property_string("cluster_name", read)
    }

    /// Upstream cluster metadata.
    /// `decode` reads the message that the bytes encode.
    pub fn cluster_metadata<M, P: FnOnce(&str) -> Option<Vec<u8>>, D: FnOnce(Vec<u8>) -> Option<M>>(
        &self,
        read: P,
        decode: D,
    ) -> (r: Option<M>)
        requires
            call_requires(read, ("cluster_metadata",)),
            forall|bytes: Vec<u8>| call_requires(decode, (bytes,)),
        ensures
            exists|raw: Option<Vec<u8>>|
                #[trigger] call_ensures(read, ("cluster_metadata",), raw)
                    && decode_read(raw, decode, r),
    {
        get_property_decode("cluster_metadata", read, decode)
    }

    /// Enumeration value of the listener traffic direction.
    pub fn listener_direction<P: FnOnce(&str) -> Option<Vec<u8>>>(&self, read: P) -> (r: Option<
        ListenerDirection,
    >)
        requires
            call_requires(read, ("listener_direction",)),
        ensures
            exists|raw: Option<Vec<u8>>|
                #[trigger] call_ensures(read, ("listener_direction",), raw) && r
                    == match int_read(raw) {
                    Some(x) => ListenerDirection::of(x),
                    None => None,
                },
    {
        match get_property_int("listener_direction", read) {
            Some(x) => ListenerDirection::from_i64(x),
            None => None,
        }
    }

    /// Listener metadata.
    /// `decode` reads the message that the bytes encode.
    pub fn listener_metadata<M, P: FnOnce(&str) -> Option<Vec<u8>>,
        D: FnOnce(Vec<u8>) -> Option<M>>(
        &self,
        read: P,
        decode: D,
    ) -> (r: Option<M>)
        requires
            call_requires(read, ("listener_metadata",)),
            forall|bytes: Vec<u8>| call_requires(decode, (bytes,)),
        ensures
            exists|raw: Option<Vec<u8>>|
                #[trigger] call_ensures(read, ("listener_metadata",), raw)
                    && decode_read(raw, decode, r),
    {
        get_property_decode("listener_metadata", read, decode)
    }

    /// Route name.
    pub fn route_name<P: FnOnce(&str) -> Option<Vec<u8>>>(&self, read: P) -> (r: Option<String>)
        requires
            call_requires(read, ("route_name",)),
        ensures
            exists|raw: Option<Vec<u8>>|
                #[trigger] call_ensures(read, ("route_name",), raw) && string_read(raw, r),
    {
        get_property_string("route_name", read)
    }

    /// Route metadata.
    /// `decode` reads the message that the bytes encode.
    pub fn route_metadata<M, P: FnOnce(&str) -> Option<Vec<u8>>, D: FnOnce(Vec<u8>) -> Option<M>>(
        &self,
        read: P,
        decode: D,
    ) -> (r: Option<M>)
        requires
            call_requires(read, ("route_metadata",)),
            forall|bytes: Vec<u8>| call_requires(decode, (bytes,)),
        ensures
            exists|raw: Option<Vec<u8>>|
                #[trigger] call_ensures(read, ("route_metadata",), raw)
                    && decode_read(raw, decode, r),
    {
        get_property_decode("route_metadata", read, decode)
    }

    /// Upstream host metadata.
    /// `decode` reads the message that the bytes encode.
    pub fn upstream_host_metadata<M, P: FnOnce(&str) -> Option<Vec<u8>>,
        D: FnOnce(Vec<u8>) -> Option<M>>(
        &self,
        read: P,
        decode: D,
    ) -> (r: Option<M>)
        requires
            call_requires(read, ("upstream_host_metadata",)),
            forall|bytes: Vec<u8>| call_requires(decode, (bytes,)),
        ensures
            exists|raw: Option<Vec<u8>>|
                #[trigger] call_ensures(read, ("upstream_host_metadata",), raw)
                    && decode_read(raw, decode, r),
    {
        get_property_decode("upstream_host_metadata", read, decode)
    }
}

} // verus!
