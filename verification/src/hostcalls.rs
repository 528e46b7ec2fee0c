use crate::status::Status;
use vstd::bytes::{spec_u32_from_le_bytes, spec_u32_to_le_bytes, u32_from_le_bytes, u32_to_le_bytes};
use vstd::prelude::*;
use vstd::slice::{slice_subrange, slice_to_vec};
use vstd::string::StringSliceAdditionalSpecFns;
use vstd::bytes::lemma_auto_spec_u32_to_from_le_bytes;
use vstd::utf8::{decode_utf8, encode_utf8_decode_utf8, encode_utf8_valid_utf8, valid_utf8};

verus! {

/// Severity of a message handed to the host's log.
#[derive(Copy, Clone, PartialEq, Eq, Structural, Hash, Debug)]
pub enum LogLevel {
    Trace,
    Debug,
    Info,
    Warn,
    Error,
    Critical,
}

/// The stream that a continue or close request addresses.
#[derive(Copy, Clone, PartialEq, Eq, Structural, Hash, Debug)]
#[non_exhaustive]
pub enum StreamType {
    HttpRequest,
    HttpResponse,
    Downstream,
    Upstream,
}

/// The host buffer that a read or write addresses.
#[derive(Copy, Clone, PartialEq, Eq, Structural, Hash, Debug)]
#[non_exhaustive]
pub enum BufferType {
    HttpRequestBody,
    HttpResponseBody,
    DownstreamData,
    UpstreamData,
    HttpCallResponseBody,
    GrpcReceiveBuffer,
    VmConfiguration,
    PluginConfiguration,
    CallData,
}

/// The host header map that a read or write addresses.
#[derive(Copy, Clone, PartialEq, Eq, Structural, Hash, Debug)]
#[non_exhaustive]
pub enum MapType {
    HttpRequestHeaders,
    HttpRequestTrailers,
    HttpResponseHeaders,
    HttpResponseTrailers,
    GrpcReceiveInitialMetadata,
    GrpcReceiveTrailingMetadata,
    HttpCallResponseHeaders,
    HttpCallResponseTrailers,
}

/// The kind of a metric defined with the host.
#[derive(Copy, Clone, PartialEq, Eq, Structural, Hash, Debug)]
#[non_exhaustive]
pub enum MetricType {
    Counter,
    Gauge,
    Histogram,
}

impl LogLevel {
    /// The number by which the host knows this level.
    pub open spec fn spec_code(self) -> u32 {
        match self {
            LogLevel::Trace => 0,
            LogLevel::Debug => 1,
            LogLevel::Info => 2,
            LogLevel::Warn => 3,
            LogLevel::Error => 4,
            LogLevel::Critical => 5,
        }
    }

    /// The number by which the host knows this level.
    pub fn code(self) -> (r: u32)
        ensures
            r == self.spec_code(),
    {
        match self {
            LogLevel::Trace => 0,
            LogLevel::Debug => 1,
            LogLevel::Info => 2,
            LogLevel::Warn => 3,
            LogLevel::Error => 4,
            LogLevel::Critical => 5,
        }
    }
}

impl StreamType {
    /// The number by which the host knows this stream.
    pub open spec fn spec_code(self) -> u32 {
        match self {
            StreamType::HttpRequest => 0,
            StreamType::HttpResponse => 1,
            StreamType::Downstream => 2,
            StreamType::Upstream => 3,
        }
    }

    /// The number by which the host knows this stream.
    pub fn code(self) -> (r: u32)
        ensures
            r == self.spec_code(),
    {
        match self {
            StreamType::HttpRequest => 0,
            StreamType::HttpResponse => 1,
            StreamType::Downstream => 2,
            StreamType::Upstream => 3,
        }
    }
}

impl BufferType {
    /// The number by which the host knows this buffer.
    pub open spec fn spec_code(self) -> u32 {
        match self {
            BufferType::HttpRequestBody => 0,
            BufferType::HttpResponseBody => 1,
            BufferType::DownstreamData => 2,
            BufferType::UpstreamData => 3,
            BufferType::HttpCallResponseBody => 4,
            BufferType::GrpcReceiveBuffer => 5,
            BufferType::VmConfiguration => 6,
            BufferType::PluginConfiguration => 7,
            BufferType::CallData => 8,
        }
    }

    /// The number by which the host knows this buffer.
    pub fn code(self) -> (r: u32)
        ensures
            r == self.spec_code(),
    {
        match self {
            BufferType::HttpRequestBody => 0,
            BufferType::HttpResponseBody => 1,
            BufferType::DownstreamData => 2,
            BufferType::UpstreamData => 3,
            BufferType::HttpCallResponseBody => 4,
            BufferType::GrpcReceiveBuffer => 5,
            BufferType::VmConfiguration => 6,
            BufferType::PluginConfiguration => 7,
            BufferType::CallData => 8,
        }
    }
}

impl MapType {
    /// The number by which the host knows this map.
    pub open spec fn spec_code(self) -> u32 {
        match self {
            MapType::HttpRequestHeaders => 0,
            MapType::HttpRequestTrailers => 1,
            MapType::HttpResponseHeaders => 2,
            MapType::HttpResponseTrailers => 3,
            MapType::GrpcReceiveInitialMetadata => 4,
            MapType::GrpcReceiveTrailingMetadata => 5,
            MapType::HttpCallResponseHeaders => 6,
            MapType::HttpCallResponseTrailers => 7,
        }
    }

    /// The number by which the host knows this map.
    pub fn code(self) -> (r: u32)
        ensures
            r == self.spec_code(),
    {
        match self {
            MapType::HttpRequestHeaders => 0,
            MapType::HttpRequestTrailers => 1,
            MapType::HttpResponseHeaders => 2,
            MapType::HttpResponseTrailers => 3,
            MapType::GrpcReceiveInitialMetadata => 4,
            MapType::GrpcReceiveTrailingMetadata => 5,
            MapType::HttpCallResponseHeaders => 6,
            MapType::HttpCallResponseTrailers => 7,
        }
    }
}

impl MetricType {
    /// The number by which the host knows this kind of metric.
    pub open spec fn spec_code(self) -> u32 {
        match self {
            MetricType::Counter => 0,
            MetricType::Gauge => 1,
            MetricType::Histogram => 2,
        }
    }

    /// The number by which the host knows this kind of metric.
    pub fn code(self) -> (r: u32)
        ensures
            r == self.spec_code(),
    {
        match self {
            MetricType::Counter => 0,
            MetricType::Gauge => 1,
            MetricType::Histogram => 2,
        }
    }
}

/// Appends `bytes` to `out`.
fn append(out: &mut Vec<u8>, bytes: &[u8])
    ensures
        final(out)@ == old(out)@ + bytes@,
{
    let mut i: usize = 0;
    while i < bytes.len()
        invariant
            i <= bytes@.len(),
            out@ == old(out)@ + bytes@.subrange(0, i as int),
        decreases bytes@.len() - i,
    {
        out.push(bytes[i]);
        i = i + 1;
        assert(out@ =~= old(out)@ + bytes@.subrange(0, i as int));
    }
    assert(bytes@.subrange(0, i as int) =~= bytes@);
}

/// The parts of a property path, each followed by a zero byte.
pub open spec fn terminated_parts(path: Seq<&str>) -> Seq<u8>
    decreases path.len(),
{
    if path.len() == 0 {
        Seq::empty()
    } else {
        terminated_parts(path.drop_last()) + path.last().spec_bytes() + seq![0u8]
    }
}

/// The path that the host takes for a property: its parts, with a zero
/// byte between each two.
pub open spec fn spec_serialize_property_path(path: Seq<&str>) -> Seq<u8> {
    if path.len() == 0 {
        Seq::empty()
    } else {
        terminated_parts(path).drop_last()
    }
}

/// The path that the host takes for a property: its parts, with a zero
/// byte between each two.
pub fn serialize_property_path(path: &[&str]) -> (r: Vec<u8>)
    ensures
        r@ == spec_serialize_property_path(path@),
{
    let mut out: Vec<u8> = Vec::new();
    let mut i: usize = 0;
    while i < path.len()
        invariant
            i <= path@.len(),
            out@ == terminated_parts(path@.take(i as int)),
        decreases path@.len() - i,
    {
        append(&mut out, path[i].as_bytes());
        out.push(0);
        i = i + 1;
        assert(path@.take(i as int).drop_last() =~= path@.take(i - 1));
        assert(path@.take(i as int).last() == path@[i - 1]);
    }
    assert(path@.take(i as int) =~= path@);
    if out.len() != 0 {
        out.pop();
    }
    out
}

/// The lengths of the names and values of a map, each as four bytes, low
/// byte first, name before value.
pub open spec fn map_sizes(map: Seq<(&str, &[u8])>) -> Seq<u8>
    decreases map.len(),
{
    if map.len() == 0 {
        Seq::empty()
    } else {
        map_sizes(map.drop_last()) + spec_u32_to_le_bytes(
            map.last().0.spec_bytes().len() as usize as u32,
        ) + spec_u32_to_le_bytes(map.last().1@.len() as usize as u32)
    }
}

/// The names and values of a map, each followed by a zero byte, name
/// before value.
pub open spec fn map_bodies(map: Seq<(&str, &[u8])>) -> Seq<u8>
    decreases map.len(),
{
    if map.len() == 0 {
        Seq::empty()
    } else {
        map_bodies(map.drop_last()) + map.last().0.spec_bytes() + seq![0u8] + map.last().1@
            + seq![0u8]
    }
}

/// The bytes that the host takes for a map: the number of its entries,
/// the lengths of their names and values, then the names and values
/// themselves. Numbers are four bytes, low byte first; one that does not
/// fit is cut to its low 32 bits.
pub open spec fn spec_serialize_map(map: Seq<(&str, &[u8])>) -> Seq<u8> {
    spec_u32_to_le_bytes(map.len() as usize as u32) + map_sizes(map) + map_bodies(map)
}

/// The bytes that the host takes for a map.
pub fn serialize_map(map: &[(&str, &[u8])]) -> (r: Vec<u8>)
    ensures
        r@ == spec_serialize_map(map@),
{
    let mut bytes: Vec<u8> = Vec::new();
    let count = u32_to_le_bytes(#[verifier::truncate] (map.len() as u32));
    append(&mut bytes, count.as_slice());
    let mut i: usize = 0;
    while i < map.len()
        invariant
            i <= map@.len(),
            bytes@ == spec_u32_to_le_bytes(map@.len() as usize as u32) + map_sizes(map@.take(i as int)),
        decreases map@.len() - i,
    {
        let (name, value) = map[i];
        let name_size = u32_to_le_bytes(#[verifier::truncate] (name.len() as u32));
        let value_size = u32_to_le_bytes(#[verifier::truncate] (value.len() as u32));
        append(&mut bytes, name_size.as_slice());
        append(&mut bytes, value_size.as_slice());
        i = i + 1;
        assert(map@.take(i as int).drop_last() =~= map@.take(i - 1));
        assert(map@.take(i as int).last() == map@[i - 1]);
        assert(bytes@ =~= spec_u32_to_le_bytes(map@.len() as usize as u32) + map_sizes(
            map@.take(i as int),
        ));
    }
    assert(map@.take(i as int) =~= map@);
    let ghost head = bytes@;
    let mut j: usize = 0;
    while j < map.len()
        invariant
            j <= map@.len(),
            bytes@ == head + map_bodies(map@.take(j as int)),
        decreases map@.len() - j,
    {
        let (name, value) = map[j];
        append(&mut bytes, name.as_bytes());
        bytes.push(0);
        append(&mut bytes, value);
        bytes.push(0);
        j = j + 1;
        assert(map@.take(j as int).drop_last() =~= map@.take(j - 1));
        assert(map@.take(j as int).last() == map@[j - 1]);
        assert(bytes@ =~= head + map_bodies(map@.take(j as int)));
    }
    assert(map@.take(j as int) =~= map@);
    bytes
}

/// Calls `String::from_utf8`, which gives the text that the bytes encode
/// where they are UTF-8, and an error else.
#[verifier::external_body]
pub(crate) fn string_from_utf8(bytes: Vec<u8>) -> (r: Option<String>)
    ensures
        r is Some == valid_utf8(bytes@),
        r matches Some(text) ==> text@ == decode_utf8(bytes@),
{
    String::from_utf8(bytes).ok()
}

/// The number that the four bytes of `bytes` from the place `at` on hold,
/// low byte first.
pub open spec fn u32_at(bytes: Seq<u8>, at: int) -> int {
    spec_u32_from_le_bytes(bytes.subrange(at, at + 4)) as int
}

/// The length of the name of the entry `n` of a serialized map.
pub open spec fn name_size(bytes: Seq<u8>, n: int) -> int {
    u32_at(bytes, 4 + 8 * n)
}

/// The length of the value of the entry `n` of a serialized map.
pub open spec fn value_size(bytes: Seq<u8>, n: int) -> int {
    u32_at(bytes, 8 + 8 * n)
}

/// The place at which the name of the entry `n` of a serialized map
/// starts: after the count and all the lengths, and after the names and
/// values of the entries before it, each with the byte that follows it.
pub open spec fn entry_start(bytes: Seq<u8>, n: int) -> int
    decreases n,
{
    if n <= 0 {
        4 + 8 * u32_at(bytes, 0)
    } else {
        entry_start(bytes, n - 1) + name_size(bytes, n - 1) + 1 + value_size(bytes, n - 1) + 1
    }
}

/// The name of the entry `n` of a serialized map, as bytes.
pub open spec fn name_of(bytes: Seq<u8>, n: int) -> Seq<u8> {
    bytes.subrange(entry_start(bytes, n), entry_start(bytes, n) + name_size(bytes, n))
}

/// The value of the entry `n` of a serialized map.
pub open spec fn value_of(bytes: Seq<u8>, n: int) -> Seq<u8> {
    bytes.subrange(
        entry_start(bytes, n) + name_size(bytes, n) + 1,
        entry_start(bytes, n) + name_size(bytes, n) + 1 + value_size(bytes, n),
    )
}

/// Whether the entry `n` of a serialized map can be read: its lengths,
/// its name and its value lie within the bytes, and its name is UTF-8.
pub open spec fn entry_fits(bytes: Seq<u8>, n: int) -> bool {
    &&& 12 + 8 * n <= bytes.len()
    &&& entry_start(bytes, n) + name_size(bytes, n) <= bytes.len()
    &&& entry_start(bytes, n) + name_size(bytes, n) + 1 + value_size(bytes, n) <= bytes.len()
    &&& valid_utf8(name_of(bytes, n))
}

/// Whether `bytes` are a serialized map that can be read: they hold a
/// count, and each entry up to the count can be read.
pub open spec fn map_fits(bytes: Seq<u8>) -> bool {
    &&& 4 <= bytes.len()
    &&& forall|n: int| 0 <= n < u32_at(bytes, 0) ==> #[trigger] entry_fits(bytes, n)
}

/// Whether `map` holds the entries of the serialized map `bytes`.
pub open spec fn map_read(bytes: Seq<u8>, map: Seq<(String, Vec<u8>)>) -> bool {
    &&& map.len() == u32_at(bytes, 0)
    &&& forall|n: int|
        0 <= n < map.len() ==> (#[trigger] map[n]).0@ == decode_utf8(name_of(bytes, n))
            && map[n].1@ == value_of(bytes, n)
}

/// The number that the four bytes of `bytes` from the place `at` on hold.
fn read_u32(bytes: &[u8], at: usize) -> (r: u32)
    requires
        at + 4 <= bytes@.len(),
    ensures
        r == u32_at(bytes@, at as int),
{
    let len = bytes.len();
    let end: usize = at + 4;
    u32_from_le_bytes(slice_subrange(bytes, at, end))
}

/// The map that `bytes` hold in the form in which the host hands maps
/// out. No bytes are the empty map. Bytes that cannot be read as a map,
/// or that hold a name which is not UTF-8, are a parse failure.
pub fn deserialize_map_bytes(bytes: &[u8]) -> (r: Result<Vec<(String, Vec<u8>)>, Status>)
    ensures
        bytes@.len() == 0 ==> r is Ok && r->Ok_0@.len() == 0,
        bytes@.len() > 0 && map_fits(bytes@) ==> r is Ok && map_read(bytes@, r->Ok_0@),
        bytes@.len() > 0 && !map_fits(bytes@) ==> r == Err::<Vec<(String, Vec<u8>)>, _>(
            Status::ParseFailure,
        ),
{
    let mut map: Vec<(String, Vec<u8>)> = Vec::new();
    if bytes.len() == 0 {
        return Ok(map);
    }
    if bytes.len() < 4 {
        return Err(Status::ParseFailure);
    }
    let total: u128 = bytes.len() as u128;
    let size: u32 = read_u32(bytes, 0);
    let mut p: u128 = 4 + (size as u128) * 8;
    let mut n: u32 = 0;
    while n < size
        invariant
            4 <= bytes@.len() == total,
            size == u32_at(bytes@, 0),
            n <= size,
            p == entry_start(bytes@, n as int),
            p <= total + 0x10_0000_0000,
            total <= usize::MAX,
            map@.len() == n,
            forall|k: int| 0 <= k < n ==> #[trigger] entry_fits(bytes@, k),
            forall|k: int|
                0 <= k < n ==> (#[trigger] map@[k]).0@ == decode_utf8(name_of(bytes@, k))
                    && map@[k].1@ == value_of(bytes@, k),
        decreases size - n,
    {
        let s: u128 = 4 + (n as u128) * 8;
        if s + 8 > total {
            assert(!entry_fits(bytes@, n as int));
            return Err(Status::ParseFailure);
        }
        let at: usize = s as usize;
        let name_len: u128 = read_u32(bytes, at) as u128;
        let value_len: u128 = read_u32(bytes, at + 4) as u128;
        if p + name_len > total {
            assert(!entry_fits(bytes@, n as int));
            return Err(Status::ParseFailure);
        }
        let name_at: usize = p as usize;
        let name_end: usize = (p + name_len) as usize;
        let name_bytes = slice_to_vec(slice_subrange(bytes, name_at, name_end));
        let value_at: u128 = p + name_len + 1;
        if value_at + value_len > total {
            assert(!entry_fits(bytes@, n as int));
            return Err(Status::ParseFailure);
        }
        let value_from: usize = value_at as usize;
        let value_end: usize = (value_at + value_len) as usize;
        let value = slice_to_vec(slice_subrange(bytes, value_from, value_end));
        let name = match string_from_utf8(name_bytes) {
            Some(name) => name,
            None => {
                assert(!entry_fits(bytes@, n as int));
                return Err(Status::ParseFailure);
            },
        };
        assert(entry_fits(bytes@, n as int));
        map.push((name, value));
        p = value_at + value_len + 1;
        n = n + 1;
    }
    Ok(map)
}

/// What a host operation without a value came to: done, or the status
/// with which the host refused.
pub open spec fn spec_done(status: Status) -> Result<(), Status> {
    match status {
        Status::Success => Ok(()),
        e => Err(e),
    }
}

/// What a host operation with a value came to: the value, or the status
/// with which the host refused.
pub open spec fn spec_given<X>(status: Status, value: X) -> Result<X, Status> {
    match status {
        Status::Success => Ok(value),
        e => Err(e),
    }
}

/// What a host lookup came to: what was found, nothing where the host
/// knows no such thing, or the status with which the host refused.
pub open spec fn spec_found<X>(status: Status, value: Option<X>) -> Result<Option<X>, Status> {
    match status {
        Status::Success => Ok(value),
        Status::NotFound => Ok(None),
        e => Err(e),
    }
}

/// What a host operation without a value came to.
pub fn done_of(status: Status) -> (r: Result<(), Status>)
    ensures
        r == spec_done(status),
{
    match status {
        Status::Success => Ok(()),
        e => Err(e),
    }
}

/// What a host operation with a value came to.
pub fn given_of<X>(status: Status, value: X) -> (r: Result<X, Status>)
    ensures
        r == spec_given(status, value),
{
    match status {
        Status::Success => Ok(value),
        e => Err(e),
    }
}

/// What a host lookup came to.
pub fn found_of<X>(status: Status, value: Option<X>) -> (r: Result<Option<X>, Status>)
    ensures
        r == spec_found(status, value),
{
    match status {
        Status::Success => Ok(value),
        Status::NotFound => Ok(None),
        e => Err(e),
    }
}

/// Hands a message to the host's log, through `proxy_log`.
pub fn log<F: FnOnce(LogLevel, &str) -> Status>(level: LogLevel, message: &str, proxy_log: F) -> (r:
    Result<(), Status>)
    requires
        call_requires(proxy_log, (level, message)),
    ensures
        exists|status: Status|
            #[trigger] call_ensures(proxy_log, (level, message), status) && r == spec_done(status),
{
    done_of(proxy_log(level, message))
}

/// Reads a part of a host buffer, through `proxy_get_buffer_bytes`: at
/// most `max_size` bytes from `start` on.
pub fn get_buffer<F: FnOnce(BufferType, usize, usize) -> (Status, Option<Vec<u8>>)>(
    buffer_type: BufferType,
    start: usize,
    max_size: usize,
    proxy_get_buffer_bytes: F,
) -> (r: Result<Option<Vec<u8>>, Status>)
    requires
        call_requires(proxy_get_buffer_bytes, (buffer_type, start, max_size)),
    ensures
        exists|answer: (Status, Option<Vec<u8>>)|
            #[trigger] call_ensures(
                proxy_get_buffer_bytes,
                (buffer_type, start, max_size),
                answer,
            ) && r == spec_found(answer.0, answer.1),
{
    let (status, data) = proxy_get_buffer_bytes(buffer_type, start, max_size);
    found_of(status, data)
}

/// Puts `value` in place of a part of a host buffer, through
/// `proxy_set_buffer_bytes`: the `size` bytes from `start` on.
pub fn set_buffer<F: FnOnce(BufferType, usize, usize, &[u8]) -> Status>(
    buffer_type: BufferType,
    start: usize,
    size: usize,
    value: &[u8],
    proxy_set_buffer_bytes: F,
) -> (r: Result<(), Status>)
    requires
        call_requires(proxy_set_buffer_bytes, (buffer_type, start, size, value)),
    ensures
        exists|status: Status|
            #[trigger] call_ensures(
                proxy_set_buffer_bytes,
                (buffer_type, start, size, value),
                status,
            ) && r == spec_done(status),
{
    done_of(proxy_set_buffer_bytes(buffer_type, start, size, value))
}

/// Whether `r` is what reading a map came to, where the host answered
/// with `status` and `data`: the entries of the map that the bytes hold;
/// nothing where the host gave no bytes or knows no such map; a parse
/// failure where the bytes are no map; else the status with which the
/// host refused.
pub open spec fn map_got(
    status: Status,
    data: Option<Vec<u8>>,
    r: Result<Option<Vec<(String, Vec<u8>)>>, Status>,
) -> bool {
    match status {
        Status::Success => match data {
            Some(bytes) => if bytes@.len() == 0 {
                r is Ok && r->Ok_0 is Some && r->Ok_0->0@.len() == 0
            } else if map_fits(bytes@) {
                r is Ok && r->Ok_0 is Some && map_read(bytes@, r->Ok_0->0@)
            } else {
                r == Err::<Option<Vec<(String, Vec<u8>)>>, _>(Status::ParseFailure)
            },
            None => r == Ok::<Option<Vec<(String, Vec<u8>)>>, Status>(None),
        },
        Status::NotFound => r == Ok::<Option<Vec<(String, Vec<u8>)>>, Status>(None),
        e => r == Err::<Option<Vec<(String, Vec<u8>)>>, _>(e),
    }
}

/// Reads a whole host map, through `proxy_get_header_map_pairs`.
pub fn get_map<F: FnOnce(MapType) -> (Status, Option<Vec<u8>>)>(
    map_type: MapType,
    proxy_get_header_map_pairs: F,
) -> (r: Result<Option<Vec<(String, Vec<u8>)>>, Status>)
    requires
        call_requires(proxy_get_header_map_pairs, (map_type,)),
    ensures
        exists|answer: (Status, Option<Vec<u8>>)|
            #[trigger] call_ensures(proxy_get_header_map_pairs, (map_type,), answer) && map_got(
                answer.0,
                answer.1,
                r,
            ),
{
    let (status, data) = proxy_get_header_map_pairs(map_type);
    match status {
        Status::Success => match data {
            Some(bytes) => match deserialize_map_bytes(bytes.as_slice()) {
                Ok(map) => Ok(Some(map)),
                Err(e) => Err(e),
            },
            None => Ok(None),
        },
        Status::NotFound => Ok(None),
        e => Err(e),
    }
}

/// Puts `map` in place of a whole host map, through
/// `proxy_set_header_map_pairs`, which gets the map in the form of the
/// host.
pub fn set_map<F: FnOnce(MapType, Vec<u8>) -> Status>(
    map_type: MapType,
    map: &[(&str, &[u8])],
    proxy_set_header_map_pairs: F,
) -> (r: Result<(), Status>)
    requires
        forall|bytes: Vec<u8>|
            bytes@ == spec_serialize_map(map@) ==> call_requires(
                proxy_set_header_map_pairs,
                (map_type, bytes),
            ),
    ensures
        exists|bytes: Vec<u8>, status: Status|
            bytes@ == spec_serialize_map(map@) && #[trigger] call_ensures(
                proxy_set_header_map_pairs,
                (map_type, bytes),
                status,
            ) && r == spec_done(status),
{
    done_of(proxy_set_header_map_pairs(map_type, serialize_map(map)))
}

/// Reads one value of a host map, through `proxy_get_header_map_value`.
pub fn get_map_value<F: FnOnce(MapType, &str) -> (Status, Option<Vec<u8>>)>(
    map_type: MapType,
    key: &str,
    proxy_get_header_map_value: F,
) -> (r: Result<Option<Vec<u8>>, Status>)
    requires
        call_requires(proxy_get_header_map_value, (map_type, key)),
    ensures
        exists|answer: (Status, Option<Vec<u8>>)|
            #[trigger] call_ensures(proxy_get_header_map_value, (map_type, key), answer) && r
                == spec_found(answer.0, answer.1),
{
    let (status, data) = proxy_get_header_map_value(map_type, key);
    found_of(status, data)
}

/// Sets one value of a host map, through
/// `proxy_replace_header_map_value`, or removes it, through
/// `proxy_remove_header_map_value`, where there is no value to set.
pub fn set_map_value<
    F: FnOnce(MapType, &str, &[u8]) -> Status,
    G: FnOnce(MapType, &str) -> Status,
>(
    map_type: MapType,
    key: &str,
    value: Option<&[u8]>,
    proxy_replace_header_map_value: F,
    proxy_remove_header_map_value: G,
) -> (r: Result<(), Status>)
    requires
        value matches Some(v) ==> call_requires(proxy_replace_header_map_value, (map_type, key, v)),
        value is None ==> call_requires(proxy_remove_header_map_value, (map_type, key)),
    ensures
        value is Some ==> exists|status: Status|
            #[trigger] call_ensures(
                proxy_replace_header_map_value,
                (map_type, key, value->0),
                status,
            ) && r == spec_done(status),
        value is None ==> exists|status: Status|
            #[trigger] call_ensures(proxy_remove_header_map_value, (map_type, key), status) && r
                == spec_done(status),
{
    match value {
        Some(value) => done_of(proxy_replace_header_map_value(map_type, key, value)),
        None => done_of(proxy_remove_header_map_value(map_type, key)),
    }
}

/// Adds a value to a host map, through `proxy_add_header_map_value`.
pub fn add_map_value<F: FnOnce(MapType, &str, &[u8]) -> Status>(
    map_type: MapType,
    key: &str,
    value: &[u8],
    proxy_add_header_map_value: F,
) -> (r: Result<(), Status>)
    requires
        call_requires(proxy_add_header_map_value, (map_type, key, value)),
    ensures
        exists|status: Status|
            #[trigger] call_ensures(proxy_add_header_map_value, (map_type, key, value), status)
                && r == spec_done(status),
{
    done_of(proxy_add_header_map_value(map_type, key, value))
}

/// Reads a property, through `proxy_get_property`, which gets the path of
/// the property in the form of the host.
pub fn get_property<F: FnOnce(Vec<u8>) -> (Status, Option<Vec<u8>>)>(
    path: &[&str],
    proxy_get_property: F,
) -> (r: Result<Option<Vec<u8>>, Status>)
    requires
        forall|bytes: Vec<u8>|
            bytes@ == spec_serialize_property_path(path@) ==> call_requires(
                proxy_get_property,
                (bytes,),
            ),
    ensures
        exists|bytes: Vec<u8>, answer: (Status, Option<Vec<u8>>)|
            bytes@ == spec_serialize_property_path(path@) && #[trigger] call_ensures(
                proxy_get_property,
                (bytes,),
                answer,
            ) && r == spec_found(answer.0, answer.1),
{
    let (status, data) = proxy_get_property(serialize_property_path(path));
    found_of(status, data)
}

/// Sets a property, through `proxy_set_property`, which gets the path of
/// the property in the form of the host.
pub fn set_property<F: FnOnce(Vec<u8>, Option<&[u8]>) -> Status>(
    path: &[&str],
    value: Option<&[u8]>,
    proxy_set_property: F,
) -> (r: Result<(), Status>)
    requires
        forall|bytes: Vec<u8>|
            bytes@ == spec_serialize_property_path(path@) ==> call_requires(
                proxy_set_property,
                (bytes, value),
            ),
    ensures
        exists|bytes: Vec<u8>, status: Status|
            bytes@ == spec_serialize_property_path(path@) && #[trigger] call_ensures(
                proxy_set_property,
                (bytes, value),
                status,
            ) && r == spec_done(status),
{
    done_of(proxy_set_property(serialize_property_path(path), value))
}

/// What reading shared data came to, where the host answered with
/// `status`, `data` and the check-and-set number `cas`, of which zero
/// stands for none.
pub open spec fn shared_data_got(status: Status, data: Option<Vec<u8>>, cas: u32) -> Result<
    (Option<Vec<u8>>, Option<u32>),
    Status,
> {
    match status {
        Status::Success => Ok(
            (
                data,
                if cas == 0 {
                    None
                } else {
                    Some(cas)
                },
            ),
        ),
        Status::NotFound => Ok((None, None)),
        e => Err(e),
    }
}

/// Reads shared data with its check-and-set number, through
/// `proxy_get_shared_data`.
pub fn get_shared_data<F: FnOnce(&str) -> (Status, Option<Vec<u8>>, u32)>(
    key: &str,
    proxy_get_shared_data: F,
) -> (r: Result<(Option<Vec<u8>>, Option<u32>), Status>)
    requires
        call_requires(proxy_get_shared_data, (key,)),
    ensures
        exists|answer: (Status, Option<Vec<u8>>, u32)|
            #[trigger] call_ensures(proxy_get_shared_data, (key,), answer) && r == shared_data_got(
                answer.0,
                answer.1,
                answer.2,
            ),
{
    let (status, data, cas) = proxy_get_shared_data(key);
    match status {
        Status::Success => Ok(
            (
                data,
                if cas == 0 {
                    None
                } else {
                    Some(cas)
                },
            ),
        ),
        Status::NotFound => Ok((None, None)),
        e => Err(e),
    }
}

/// The check-and-set number that the host gets for `cas`: zero for none.
pub open spec fn cas_number(cas: Option<u32>) -> u32 {
    match cas {
        Some(cas) => cas,
        None => 0,
    }
}

/// Writes shared data, through `proxy_set_shared_data`.
pub fn set_shared_data<F: FnOnce(&str, Option<&[u8]>, u32) -> Status>(
    key: &str,
    value: Option<&[u8]>,
    cas: Option<u32>,
    proxy_set_shared_data: F,
) -> (r: Result<(), Status>)
    requires
        call_requires(proxy_set_shared_data, (key, value, cas_number(cas))),
    ensures
        exists|status: Status|
            #[trigger] call_ensures(proxy_set_shared_data, (key, value, cas_number(cas)), status)
                && r == spec_done(status),
{
    let number = match cas {
        Some(cas) => cas,
        None => 0,
    };
    done_of(proxy_set_shared_data(key, value, number))
}

/// Registers a shared queue, through `proxy_register_shared_queue`.
pub fn register_shared_queue<F: FnOnce(&str) -> (Status, u32)>(
    name: &str,
    proxy_register_shared_queue: F,
) -> (r: Result<u32, Status>)
    requires
        call_requires(proxy_register_shared_queue, (name,)),
    ensures
        exists|answer: (Status, u32)|
            #[trigger] call_ensures(proxy_register_shared_queue, (name,), answer) && r
                == spec_given(answer.0, answer.1),
{
    let (status, id) = proxy_register_shared_queue(name);
    given_of(status, id)
}

/// Looks a shared queue up, through `proxy_resolve_shared_queue`.
pub fn resolve_shared_queue<F: FnOnce(&str, &str) -> (Status, u32)>(
    vm_id: &str,
    name: &str,
    proxy_resolve_shared_queue: F,
) -> (r: Result<Option<u32>, Status>)
    requires
        call_requires(proxy_resolve_shared_queue, (vm_id, name)),
    ensures
        exists|answer: (Status, u32)|
            #[trigger] call_ensures(proxy_resolve_shared_queue, (vm_id, name), answer) && r
                == spec_found(answer.0, Some(answer.1)),
{
    let (status, id) = proxy_resolve_shared_queue(vm_id, name);
    found_of(status, Some(id))
}

/// What taking an item from a shared queue came to, where the host
/// answered with `status` and `data`: the item, nothing where the queue
/// was empty, or the status with which the host refused.
pub open spec fn dequeued(status: Status, data: Vec<u8>) -> Result<Option<Vec<u8>>, Status> {
    match status {
        Status::Success => Ok(Some(data)),
        Status::Empty => Ok(None),
        e => Err(e),
    }
}

/// Takes an item from a shared queue, through
/// `proxy_dequeue_shared_queue`.
pub fn dequeue_shared_queue<F: FnOnce(u32) -> (Status, Vec<u8>)>(
    queue_id: u32,
    proxy_dequeue_shared_queue: F,
) -> (r: Result<Option<Vec<u8>>, Status>)
    requires
        call_requires(proxy_dequeue_shared_queue, (queue_id,)),
    ensures
        exists|answer: (Status, Vec<u8>)|
            #[trigger] call_ensures(proxy_dequeue_shared_queue, (queue_id,), answer) && r
                == dequeued(answer.0, answer.1),
{
    let (status, data) = proxy_dequeue_shared_queue(queue_id);
    match status {
        Status::Success => Ok(Some(data)),
        Status::Empty => Ok(None),
        e => Err(e),
    }
}

/// Puts an item into a shared queue, through
/// `proxy_enqueue_shared_queue`.
pub fn enqueue_shared_queue<F: FnOnce(u32, &[u8]) -> Status>(
    queue_id: u32,
    value: &[u8],
    proxy_enqueue_shared_queue: F,
) -> (r: Result<(), Status>)
    requires
        call_requires(proxy_enqueue_shared_queue, (queue_id, value)),
    ensures
        exists|status: Status|
            #[trigger] call_ensures(proxy_enqueue_shared_queue, (queue_id, value), status) && r
                == spec_done(status),
{
    done_of(proxy_enqueue_shared_queue(queue_id, value))
}

/// Asks the host, through `proxy_continue_stream`, to go on with the
/// stream `stream_type`.
pub fn continue_stream<F: FnOnce(StreamType) -> Status>(
    stream_type: StreamType,
    proxy_continue_stream: F,
) -> (r: Result<(), Status>)
    requires
        call_requires(proxy_continue_stream, (stream_type,)),
    ensures
        exists|status: Status|
            #[trigger] call_ensures(proxy_continue_stream, (stream_type,), status) && r
                == spec_done(status),
{
    done_of(proxy_continue_stream(stream_type))
}

/// Asks the host, through `proxy_close_stream`, to close the stream
/// `stream_type`.
pub fn close_stream<F: FnOnce(StreamType) -> Status>(
    stream_type: StreamType,
    proxy_close_stream: F,
) -> (r: Result<(), Status>)
    requires
        call_requires(proxy_close_stream, (stream_type,)),
    ensures
        exists|status: Status|
            #[trigger] call_ensures(proxy_close_stream, (stream_type,), status) && r == spec_done(
                status,
            ),
{
    done_of(proxy_close_stream(stream_type))
}

/// Asks the host to go on with the downstream.
pub fn resume_downstream<F: FnOnce(StreamType) -> Status>(proxy_continue_stream: F) -> (r: Result<
    (),
    Status,
>)
    requires
        call_requires(proxy_continue_stream, (StreamType::Downstream,)),
    ensures
        exists|status: Status|
            #[trigger] call_ensures(proxy_continue_stream, (StreamType::Downstream,), status) && r
                == spec_done(status),
{
    continue_stream(StreamType::Downstream, proxy_continue_stream)
}

/// Asks the host to go on with the upstream.
pub fn resume_upstream<F: FnOnce(StreamType) -> Status>(proxy_continue_stream: F) -> (r: Result<
    (),
    Status,
>)
    requires
        call_requires(proxy_continue_stream, (StreamType::Upstream,)),
    ensures
        exists|status: Status|
            #[trigger] call_ensures(proxy_continue_stream, (StreamType::Upstream,), status) && r
                == spec_done(status),
{
    continue_stream(StreamType::Upstream, proxy_continue_stream)
}

/// Asks the host to go on with the HTTP request.
pub fn resume_http_request<F: FnOnce(StreamType) -> Status>(proxy_continue_stream: F) -> (r:
    Result<(), Status>)
    requires
        call_requires(proxy_continue_stream, (StreamType::HttpRequest,)),
    ensures
        exists|status: Status|
            #[trigger] call_ensures(proxy_continue_stream, (StreamType::HttpRequest,), status) && r
                == spec_done(status),
{
    continue_stream(StreamType::HttpRequest, proxy_continue_stream)
}

/// Asks the host to go on with the HTTP response.
pub fn resume_http_response<F: FnOnce(StreamType) -> Status>(proxy_continue_stream: F) -> (r:
    Result<(), Status>)
    requires
        call_requires(proxy_continue_stream, (StreamType::HttpResponse,)),
    ensures
        exists|status: Status|
            #[trigger] call_ensures(proxy_continue_stream, (StreamType::HttpResponse,), status)
                && r == spec_done(status),
{
    continue_stream(StreamType::HttpResponse, proxy_continue_stream)
}

/// Asks the host to close the downstream.
pub fn close_downstream<F: FnOnce(StreamType) -> Status>(proxy_close_stream: F) -> (r: Result<
    (),
    Status,
>)
    requires
        call_requires(proxy_close_stream, (StreamType::Downstream,)),
    ensures
        exists|status: Status|
            #[trigger] call_ensures(proxy_close_stream, (StreamType::Downstream,), status) && r
                == spec_done(status),
{
    close_stream(StreamType::Downstream, proxy_close_stream)
}

/// Asks the host to close the upstream.
pub fn close_upstream<F: FnOnce(StreamType) -> Status>(proxy_close_stream: F) -> (r: Result<
    (),
    Status,
>)
    requires
        call_requires(proxy_close_stream, (StreamType::Upstream,)),
    ensures
        exists|status: Status|
            #[trigger] call_ensures(proxy_close_stream, (StreamType::Upstream,), status) && r
                == spec_done(status),
{
    close_stream(StreamType::Upstream, proxy_close_stream)
}

/// Asks the host to reset the HTTP request.
pub fn reset_http_request<F: FnOnce(StreamType) -> Status>(proxy_close_stream: F) -> (r: Result<
    (),
    Status,
>)
    requires
        call_requires(proxy_close_stream, (StreamType::HttpRequest,)),
    ensures
        exists|status: Status|
            #[trigger] call_ensures(proxy_close_stream, (StreamType::HttpRequest,), status) && r
                == spec_done(status),
{
    close_stream(StreamType::HttpRequest, proxy_close_stream)
}

/// Asks the host to reset the HTTP response.
pub fn reset_http_response<F: FnOnce(StreamType) -> Status>(proxy_close_stream: F) -> (r: Result<
    (),
    Status,
>)
    requires
        call_requires(proxy_close_stream, (StreamType::HttpResponse,)),
    ensures
        exists|status: Status|
            #[trigger] call_ensures(proxy_close_stream, (StreamType::HttpResponse,), status) && r
                == spec_done(status),
{
    close_stream(StreamType::HttpResponse, proxy_close_stream)
}

/// The GRPC status that goes with a local response that is no GRPC
/// response.
pub const NO_GRPC_STATUS: i32 = -1;

/// Sends a response in place of the one that would follow, through
/// `proxy_send_local_response`, which gets the headers in the form of the
/// host, and no GRPC status.
pub fn send_http_response<F: FnOnce(u32, Option<&[u8]>, Vec<u8>, i32) -> Status>(
    status_code: u32,
    headers: &[(&str, &[u8])],
    body: Option<&[u8]>,
    proxy_send_local_response: F,
) -> (r: Result<(), Status>)
    requires
        forall|bytes: Vec<u8>|
            bytes@ == spec_serialize_map(headers@) ==> call_requires(
                proxy_send_local_response,
                (status_code, body, bytes, NO_GRPC_STATUS),
            ),
    ensures
        exists|bytes: Vec<u8>, status: Status|
            bytes@ == spec_serialize_map(headers@) && #[trigger] call_ensures(
                proxy_send_local_response,
                (status_code, body, bytes, NO_GRPC_STATUS),
                status,
            ) && r == spec_done(status),
{
    done_of(
        proxy_send_local_response(status_code, body, serialize_map(headers), NO_GRPC_STATUS),
    )
}

/// The time that the host is to wait where the plugin asks for
/// `timeout_millis` milliseconds: the low 32 bits of the number.
pub open spec fn spec_timeout(timeout_millis: u64) -> u32 {
    (timeout_millis % 0x1_0000_0000) as u32
}

/// The time that the host is to wait where the plugin asks for
/// `timeout_millis` milliseconds.
pub fn timeout_of(timeout_millis: u64) -> (r: u32)
    ensures
        r == spec_timeout(timeout_millis),
{
    (timeout_millis % 0x1_0000_0000) as u32
}

/// Sends an HTTP call, through `proxy_http_call`, which gets the headers
/// and the trailers in the form of the host. The result is the token of
/// the call.
pub fn dispatch_http_call<F: FnOnce(&[u8], Vec<u8>, Option<&[u8]>, Vec<u8>, u32) -> (Status, u32)>(
    upstream: &[u8],
    headers: &[(&str, &[u8])],
    body: Option<&[u8]>,
    trailers: &[(&str, &[u8])],
    timeout_millis: u64,
    proxy_http_call: F,
) -> (r: Result<u32, Status>)
    requires
        forall|h: Vec<u8>, t: Vec<u8>|
            h@ == spec_serialize_map(headers@) && t@ == spec_serialize_map(trailers@)
                ==> call_requires(
                proxy_http_call,
                (upstream, h, body, t, spec_timeout(timeout_millis)),
            ),
    ensures
        exists|h: Vec<u8>, t: Vec<u8>, answer: (Status, u32)|
            h@ == spec_serialize_map(headers@) && t@ == spec_serialize_map(trailers@)
                && #[trigger] call_ensures(
                proxy_http_call,
                (upstream, h, body, t, spec_timeout(timeout_millis)),
                answer,
            ) && r == spec_given(answer.0, answer.1),
{
    let serialized_headers = serialize_map(headers);
    let serialized_trailers = serialize_map(trailers);
    let (status, token) = proxy_http_call(
        upstream,
        serialized_headers,
        body,
        serialized_trailers,
        timeout_of(timeout_millis),
    );
    given_of(status, token)
}

/// Sends a GRPC call, through `proxy_grpc_call`, which gets the initial
/// metadata in the form of the host. The result is the token of the call.
pub fn dispatch_grpc_call<
    F: FnOnce(&[u8], &str, &str, Vec<u8>, Option<&[u8]>, u32) -> (Status, u32),
>(
    upstream_name: &[u8],
    service_name: &str,
    method_name: &str,
    initial_metadata: &[(&str, &[u8])],
    message: Option<&[u8]>,
    timeout_millis: u64,
    proxy_grpc_call: F,
) -> (r: Result<u32, Status>)
    requires
        forall|m: Vec<u8>|
            m@ == spec_serialize_map(initial_metadata@) ==> call_requires(
                proxy_grpc_call,
                (
                    upstream_name,
                    service_name,
                    method_name,
                    m,
                    message,
                    spec_timeout(timeout_millis),
                ),
            ),
    ensures
        exists|m: Vec<u8>, answer: (Status, u32)|
            m@ == spec_serialize_map(initial_metadata@) && #[trigger] call_ensures(
                proxy_grpc_call,
                (
                    upstream_name,
                    service_name,
                    method_name,
                    m,
                    message,
                    spec_timeout(timeout_millis),
                ),
                answer,
            ) && r == spec_given(answer.0, answer.1),
{
    let serialized = serialize_map(initial_metadata);
    let (status, token) = proxy_grpc_call(
        upstream_name,
        service_name,
        method_name,
        serialized,
        message,
        timeout_of(timeout_millis),
    );
    given_of(status, token)
}

/// Opens a GRPC stream, through `proxy_grpc_stream`, which gets the
/// initial metadata in the form of the host. The result is the token of
/// the stream.
pub fn open_grpc_stream<F: FnOnce(&[u8], &str, &str, Vec<u8>) -> (Status, u32)>(
    upstream_name: &[u8],
    service_name: &str,
    method_name: &str,
    initial_metadata: &[(&str, &[u8])],
    proxy_grpc_stream: F,
) -> (r: Result<u32, Status>)
    requires
        forall|m: Vec<u8>|
            m@ == spec_serialize_map(initial_metadata@) ==> call_requires(
                proxy_grpc_stream,
                (upstream_name, service_name, method_name, m),
            ),
    ensures
        exists|m: Vec<u8>, answer: (Status, u32)|
            m@ == spec_serialize_map(initial_metadata@) && #[trigger] call_ensures(
                proxy_grpc_stream,
                (upstream_name, service_name, method_name, m),
                answer,
            ) && r == spec_given(answer.0, answer.1),
{
    let serialized = serialize_map(initial_metadata);
    let (status, token) = proxy_grpc_stream(upstream_name, service_name, method_name, serialized);
    given_of(status, token)
}

/// Sends a message over a GRPC stream, through `proxy_grpc_send`.
pub fn send_grpc_stream_message<F: FnOnce(u32, Option<&[u8]>, bool) -> Status>(
    token: u32,
    message: Option<&[u8]>,
    end_stream: bool,
    proxy_grpc_send: F,
) -> (r: Result<(), Status>)
    requires
        call_requires(proxy_grpc_send, (token, message, end_stream)),
    ensures
        exists|status: Status|
            #[trigger] call_ensures(proxy_grpc_send, (token, message, end_stream), status) && r
                == spec_done(status),
{
    done_of(proxy_grpc_send(token, message, end_stream))
}

/// Cancels a GRPC call, through `proxy_grpc_cancel`.
pub fn cancel_grpc_call<F: FnOnce(u32) -> Status>(token_id: u32, proxy_grpc_cancel: F) -> (r:
    Result<(), Status>)
    requires
        call_requires(proxy_grpc_cancel, (token_id,)),
    ensures
        exists|status: Status|
            #[trigger] call_ensures(proxy_grpc_cancel, (token_id,), status) && r == spec_done(
                status,
            ),
{
    done_of(proxy_grpc_cancel(token_id))
}

/// Cancels a GRPC stream, through `proxy_grpc_cancel`.
pub fn cancel_grpc_stream<F: FnOnce(u32) -> Status>(token_id: u32, proxy_grpc_cancel: F) -> (r:
    Result<(), Status>)
    requires
        call_requires(proxy_grpc_cancel, (token_id,)),
    ensures
        exists|status: Status|
            #[trigger] call_ensures(proxy_grpc_cancel, (token_id,), status) && r == spec_done(
                status,
            ),
{
    done_of(proxy_grpc_cancel(token_id))
}

/// Closes a GRPC stream, through `proxy_grpc_close`.
pub fn close_grpc_stream<F: FnOnce(u32) -> Status>(token_id: u32, proxy_grpc_close: F) -> (r:
    Result<(), Status>)
    requires
        call_requires(proxy_grpc_close, (token_id,)),
    ensures
        exists|status: Status|
            #[trigger] call_ensures(proxy_grpc_close, (token_id,), status) && r == spec_done(
                status,
            ),
{
    done_of(proxy_grpc_close(token_id))
}

/// Whether `r` is what asking for the GRPC status came to, where the host
/// answered with `status`, the code `code` and the message `data`: the
/// code, with the message where there is one and it is UTF-8; or the
/// status with which the host refused.
pub open spec fn grpc_status_got(
    status: Status,
    code: u32,
    data: Option<Vec<u8>>,
    r: Result<(u32, Option<String>), Status>,
) -> bool {
    match status {
        Status::Success => r is Ok && r->Ok_0.0 == code && match data {
            Some(bytes) => if valid_utf8(bytes@) {
                r->Ok_0.1 is Some && r->Ok_0.1->0@ == decode_utf8(bytes@)
            } else {
                r->Ok_0.1 is None
            },
            None => r->Ok_0.1 is None,
        },
        e => r == Err::<(u32, Option<String>), _>(e),
    }
}

/// Asks the host, through `proxy_get_status`, for the status of the GRPC
/// call or stream that just closed.
pub fn get_grpc_status<F: FnOnce() -> (Status, u32, Option<Vec<u8>>)>(proxy_get_status: F) -> (r:
    Result<(u32, Option<String>), Status>)
    requires
        call_requires(proxy_get_status, ()),
    ensures
        exists|answer: (Status, u32, Option<Vec<u8>>)|
            #[trigger] call_ensures(proxy_get_status, (), answer) && grpc_status_got(
                answer.0,
                answer.1,
                answer.2,
                r,
            ),
{
    let (status, code, data) = proxy_get_status();
    match status {
        Status::Success => Ok(
            (
                code,
                match data {
                    Some(bytes) => string_from_utf8(bytes),
                    None => None,
                },
            ),
        ),
        e => Err(e),
    }
}

/// Asks the host, through `proxy_set_effective_context`, to treat the
/// context `context_id` as the current one.
pub fn set_effective_context<F: FnOnce(u32) -> Status>(
    context_id: u32,
    proxy_set_effective_context: F,
) -> (r: Result<(), Status>)
    requires
        call_requires(proxy_set_effective_context, (context_id,)),
    ensures
        exists|status: Status|
            #[trigger] call_ensures(proxy_set_effective_context, (context_id,), status) && r
                == spec_done(status),
{
    done_of(proxy_set_effective_context(context_id))
}

/// Calls a foreign function as defined by the proxy, through
/// `proxy_call_foreign_function`.
pub fn call_foreign_function<F: FnOnce(&str, Option<&[u8]>) -> (Status, Option<Vec<u8>>)>(
    function_name: &str,
    arguments: Option<&[u8]>,
    proxy_call_foreign_function: F,
) -> (r: Result<Option<Vec<u8>>, Status>)
    requires
        call_requires(proxy_call_foreign_function, (function_name, arguments)),
    ensures
        exists|answer: (Status, Option<Vec<u8>>)|
            #[trigger] call_ensures(
                proxy_call_foreign_function,
                (function_name, arguments),
                answer,
            ) && r == spec_given(answer.0, answer.1),
{
    let (status, data) = proxy_call_foreign_function(function_name, arguments);
    given_of(status, data)
}

/// Tells the host, through `proxy_done`, that the context is done.
pub fn done<F: FnOnce() -> Status>(proxy_done: F) -> (r: Result<(), Status>)
    requires
        call_requires(proxy_done, ()),
    ensures
        exists|status: Status| #[trigger] call_ensures(proxy_done, (), status) && r == spec_done(
            status,
        ),
{
    done_of(proxy_done())
}

/// Defines a metric, through `proxy_define_metric`. The result is its id.
pub fn define_metric<F: FnOnce(MetricType, &str) -> (Status, u32)>(
    metric_type: MetricType,
    name: &str,
    proxy_define_metric: F,
) -> (r: Result<u32, Status>)
    requires
        call_requires(proxy_define_metric, (metric_type, name)),
    ensures
        exists|answer: (Status, u32)|
            #[trigger] call_ensures(proxy_define_metric, (metric_type, name), answer) && r
                == spec_given(answer.0, answer.1),
{
    let (status, id) = proxy_define_metric(metric_type, name);
    given_of(status, id)
}

/// Reads a metric, through `proxy_get_metric`.
pub fn get_metric<F: FnOnce(u32) -> (Status, u64)>(metric_id: u32, proxy_get_metric: F) -> (r:
    Result<u64, Status>)
    requires
        call_requires(proxy_get_metric, (metric_id,)),
    ensures
        exists|answer: (Status, u64)|
            #[trigger] call_ensures(proxy_get_metric, (metric_id,), answer) && r == spec_given(
                answer.0,
                answer.1,
            ),
{
    let (status, value) = proxy_get_metric(metric_id);
    given_of(status, value)
}

/// Sets a metric, through `proxy_record_metric`.
pub fn record_metric<F: FnOnce(u32, u64) -> Status>(
    metric_id: u32,
    value: u64,
    proxy_record_metric: F,
) -> (r: Result<(), Status>)
    requires
        call_requires(proxy_record_metric, (metric_id, value)),
    ensures
        exists|status: Status|
            #[trigger] call_ensures(proxy_record_metric, (metric_id, value), status) && r
                == spec_done(status),
{
    done_of(proxy_record_metric(metric_id, value))
}

/// Changes a metric by `offset`, through `proxy_increment_metric`.
pub fn increment_metric<F: FnOnce(u32, i64) -> Status>(
    metric_id: u32,
    offset: i64,
    proxy_increment_metric: F,
) -> (r: Result<(), Status>)
    requires
        call_requires(proxy_increment_metric, (metric_id, offset)),
    ensures
        exists|status: Status|
            #[trigger] call_ensures(proxy_increment_metric, (metric_id, offset), status) && r
                == spec_done(status),
{
    done_of(proxy_increment_metric(metric_id, offset))
}

/// Reads the host's clock, through `proxy_get_current_time_nanoseconds`:
/// the nanoseconds since the start of 1970.
pub fn get_current_time<F: FnOnce() -> (Status, u64)>(proxy_get_current_time_nanoseconds: F) -> (r:
    Result<u64, Status>)
    requires
        call_requires(proxy_get_current_time_nanoseconds, ()),
    ensures
        exists|answer: (Status, u64)|
            #[trigger] call_ensures(proxy_get_current_time_nanoseconds, (), answer) && r
                == spec_given(answer.0, answer.1),
{
    let (status, nanos) = proxy_get_current_time_nanoseconds();
    given_of(status, nanos)
}

/// Reads the level from which on the host logs, through
/// `proxy_get_log_level`.
pub fn get_log_level<F: FnOnce() -> (Status, LogLevel)>(proxy_get_log_level: F) -> (r: Result<
    LogLevel,
    Status,
>)
    requires
        call_requires(proxy_get_log_level, ()),
    ensures
        exists|answer: (Status, LogLevel)|
            #[trigger] call_ensures(proxy_get_log_level, (), answer) && r == spec_given(
                answer.0,
                answer.1,
            ),
{
    let (status, level) = proxy_get_log_level();
    given_of(status, level)
}

/// Sets the period of the ticks, through
/// `proxy_set_tick_period_milliseconds`, which gets the low 32 bits of
/// the number of milliseconds.
pub fn set_tick_period<F: FnOnce(u32) -> Status>(
    period_millis: u128,
    proxy_set_tick_period_milliseconds: F,
) -> (r: Result<(), Status>)
    requires
        call_requires(
            proxy_set_tick_period_milliseconds,
            ((period_millis % 0x1_0000_0000) as u32,),
        ),
    ensures
        exists|status: Status|
            #[trigger] call_ensures(
                proxy_set_tick_period_milliseconds,
                ((period_millis % 0x1_0000_0000) as u32,),
                status,
            ) && r == spec_done(status),
{
    let low: u128 = period_millis % 0x1_0000_0000;
    done_of(proxy_set_tick_period_milliseconds(low as u32))
}

/// The length of a name of a map, as it is written into the serialized
/// map.
pub open spec fn written_name_size(map: Seq<(&str, &[u8])>, i: int) -> u32 {
    map[i].0.spec_bytes().len() as usize as u32
}

/// The length of a value of a map, as it is written into the serialized
/// map.
pub open spec fn written_value_size(map: Seq<(&str, &[u8])>, i: int) -> u32 {
    map[i].1@.len() as usize as u32
}

/// Whether the map can be serialized without cutting a number: it has no
/// more entries, and no name or value has more bytes, than 32 bits count.
pub open spec fn map_is_representable(map: Seq<(&str, &[u8])>) -> bool {
    &&& map.len() <= u32::MAX
    &&& forall|i: int|
        0 <= i < map.len() ==> (#[trigger] map[i]).0.spec_bytes().len() <= u32::MAX
            && map[i].1@.len() <= u32::MAX
}

/// The lengths of a map take eight bytes for each entry, and those of the
/// entry `i` stand at the place `8 * i`.
proof fn lemma_map_sizes(map: Seq<(&str, &[u8])>, i: int)
    requires
        0 <= i < map.len(),
    ensures
        map_sizes(map).len() == 8 * map.len(),
        map_sizes(map).subrange(8 * i, 8 * i + 4) == spec_u32_to_le_bytes(
            written_name_size(map, i),
        ),
        map_sizes(map).subrange(8 * i + 4, 8 * i + 8) == spec_u32_to_le_bytes(
            written_value_size(map, i),
        ),
    decreases map.len(),
{
    lemma_auto_spec_u32_to_from_le_bytes();
    let init = map.drop_last();
    let name = spec_u32_to_le_bytes(written_name_size(map, map.len() - 1));
    let value = spec_u32_to_le_bytes(written_value_size(map, map.len() - 1));
    assert(map_sizes(map) == map_sizes(init) + name + value);
    if init.len() > 0 {
        lemma_map_sizes(init, 0);
    }
    assert(map_sizes(init).len() == 8 * init.len());
    if i < init.len() {
        lemma_map_sizes(init, i);
        assert(init[i] == map[i]);
        assert(map_sizes(map).subrange(8 * i, 8 * i + 4) =~= map_sizes(init).subrange(
            8 * i,
            8 * i + 4,
        ));
        assert(map_sizes(map).subrange(8 * i + 4, 8 * i + 8) =~= map_sizes(init).subrange(
            8 * i + 4,
            8 * i + 8,
        ));
    } else {
        assert(map_sizes(map).subrange(8 * i, 8 * i + 4) =~= name);
        assert(map_sizes(map).subrange(8 * i + 4, 8 * i + 8) =~= value);
    }
}

/// The names and values of the first `k` entries of a map are the start of
/// the names and values of the whole map.
proof fn lemma_map_bodies_prefix(map: Seq<(&str, &[u8])>, k: int)
    requires
        0 <= k <= map.len(),
    ensures
        map_bodies(map.take(k)).len() <= map_bodies(map).len(),
        map_bodies(map).subrange(0, map_bodies(map.take(k)).len() as int) == map_bodies(
            map.take(k),
        ),
    decreases map.len(),
{
    if k == map.len() {
        assert(map.take(k) =~= map);
        assert(map_bodies(map).subrange(0, map_bodies(map).len() as int) =~= map_bodies(map));
    } else {
        let init = map.drop_last();
        assert(init.take(k) =~= map.take(k));
        lemma_map_bodies_prefix(init, k);
        assert(map_bodies(map).subrange(0, map_bodies(map.take(k)).len() as int)
            =~= map_bodies(init).subrange(0, map_bodies(map.take(k)).len() as int));
    }
}

/// The name and the value of the entry `i` of a map stand in the names and
/// values of the map after those of the entries before it, each followed
/// by one byte.
proof fn lemma_map_bodies_entry(map: Seq<(&str, &[u8])>, i: int)
    requires
        0 <= i < map.len(),
    ensures
        ({
            let at = map_bodies(map.take(i)).len() as int;
            let name = map[i].0.spec_bytes();
            let value = map[i].1@;
            &&& map_bodies(map.take(i + 1)).len() == at + name.len() + 1 + value.len() + 1
            &&& at + name.len() + 1 + value.len() + 1 <= map_bodies(map).len()
            &&& map_bodies(map).subrange(at, at + name.len()) == name
            &&& map_bodies(map).subrange(
                at + name.len() + 1,
                at + name.len() + 1 + value.len(),
            ) == value
        }),
{
    let upto = map.take(i + 1);
    let at = map_bodies(map.take(i)).len() as int;
    let name = map[i].0.spec_bytes();
    let value = map[i].1@;
    assert(upto.drop_last() =~= map.take(i));
    assert(upto.last() == map[i]);
    assert(map_bodies(upto) == map_bodies(map.take(i)) + name + seq![0u8] + value + seq![0u8]);
    lemma_map_bodies_prefix(map, i + 1);
    let whole = map_bodies(map);
    assert(whole.subrange(at, at + name.len()) =~= map_bodies(upto).subrange(
        at,
        at + name.len(),
    ));
    assert(map_bodies(upto).subrange(at, at + name.len()) =~= name);
    assert(whole.subrange(at + name.len() + 1, at + name.len() + 1 + value.len())
        =~= map_bodies(upto).subrange(at + name.len() + 1, at + name.len() + 1 + value.len()));
    assert(map_bodies(upto).subrange(at + name.len() + 1, at + name.len() + 1 + value.len())
        =~= value);
}

/// In a serialized map, the lengths of the entry `i` are those of its name
/// and its value, and its name starts after the count, the lengths and the
/// names and values of the entries before it.
proof fn lemma_serialized_entry(map: Seq<(&str, &[u8])>, i: int)
    requires
        map_is_representable(map),
        0 <= i < map.len(),
    ensures
        ({
            let bytes = spec_serialize_map(map);
            &&& bytes.len() == 4 + 8 * map.len() + map_bodies(map).len()
            &&& u32_at(bytes, 0) == map.len()
            &&& name_size(bytes, i) == map[i].0.spec_bytes().len()
            &&& value_size(bytes, i) == map[i].1@.len()
            &&& entry_start(bytes, i) == 4 + 8 * map.len() + map_bodies(map.take(i)).len()
        }),
    decreases i,
{
    lemma_auto_spec_u32_to_from_le_bytes();
    let bytes = spec_serialize_map(map);
    let count = spec_u32_to_le_bytes(map.len() as usize as u32);
    lemma_map_sizes(map, i);
    assert(bytes.subrange(0, 4) =~= count);
    assert(bytes.subrange(4 + 8 * i, 4 + 8 * i + 4) =~= map_sizes(map).subrange(
        8 * i,
        8 * i + 4,
    ));
    assert(bytes.subrange(8 + 8 * i, 8 + 8 * i + 4) =~= map_sizes(map).subrange(
        8 * i + 4,
        8 * i + 8,
    ));
    if i == 0 {
        assert(map.take(0) =~= Seq::<(&str, &[u8])>::empty());
    } else {
        lemma_serialized_entry(map, i - 1);
        lemma_map_bodies_entry(map, i - 1);
    }
}

/// A serialized map reads back as the map: where no number had to be cut,
/// the bytes that serializing a map gives can be read as a map, which has
/// as many entries, and each entry has the name and the value that the map
/// has there.
pub proof fn law_serialized_map_reads_back(map: Seq<(&str, &[u8])>)
    requires
        map_is_representable(map),
    ensures
        ({
            let bytes = spec_serialize_map(map);
            &&& bytes.len() >= 4
            &&& map_fits(bytes)
            &&& u32_at(bytes, 0) == map.len()
            &&& forall|n: int|
                0 <= n < map.len() ==> decode_utf8(#[trigger] name_of(bytes, n)) == map[n].0@
                    && value_of(bytes, n) == map[n].1@
        }),
{
    broadcast use encode_utf8_valid_utf8, encode_utf8_decode_utf8;

    lemma_auto_spec_u32_to_from_le_bytes();
    let bytes = spec_serialize_map(map);
    let count = spec_u32_to_le_bytes(map.len() as usize as u32);
    assert(bytes.subrange(0, 4) =~= count);
    assert(count.len() == 4);
    assert(bytes.len() >= 4);
    assert(u32_at(bytes, 0) == map.len());
    assert forall|n: int| 0 <= n < map.len() implies entry_fits(bytes, n) && decode_utf8(
        #[trigger] name_of(bytes, n),
    ) == map[n].0@ && value_of(bytes, n) == map[n].1@ by {
        lemma_serialized_entry(map, n);
        lemma_map_bodies_entry(map, n);
        let at = map_bodies(map.take(n)).len() as int;
        let start = 4 + 8 * map.len() + at;
        let name = map[n].0.spec_bytes();
        let value = map[n].1@;
        assert(bytes.subrange(start, start + name.len()) =~= map_bodies(map).subrange(
            at,
            at + name.len(),
        ));
        assert(bytes.subrange(start + name.len() + 1, start + name.len() + 1 + value.len())
            =~= map_bodies(map).subrange(at + name.len() + 1, at + name.len() + 1 + value.len()));
        assert(name_of(bytes, n) == name);
        assert(name == vstd::utf8::encode_utf8(map[n].0@));
        assert(decode_utf8(vstd::utf8::encode_utf8(map[n].0@)) == map[n].0@);
    }
    assert forall|n: int| 0 <= n < u32_at(bytes, 0) implies #[trigger] entry_fits(bytes, n) by {
        assert(decode_utf8(name_of(bytes, n)) == map[n].0@);
    }
}

} // verus!
