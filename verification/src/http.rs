use crate::context::BaseContext;
use crate::hostcalls::{BufferType, MapType, StreamType};
use crate::property::envoy::Attributes;
use crate::status::Status;
use crate::calculate_range;
use crate::RangeBound;
use vstd::prelude::*;

verus! {

/// Defines which section the header data belongs to.
#[derive(Copy, Clone, PartialEq, Eq, Structural, Debug)]
pub enum HeaderType {
    RequestHeaders,
    RequestTrailers,
    ResponseHeaders,
    ResponseTrailers,
}

impl HeaderType {
    /// Label under which a failed read of the whole section is reported.
    pub fn all(&self) -> (r: &'static str)
        ensures
            r@ == match *self {
                HeaderType::RequestHeaders => "get-all-request-header"@,
                HeaderType::RequestTrailers => "get-all-request-trailer"@,
                HeaderType::ResponseHeaders => "get-all-response-header"@,
                HeaderType::ResponseTrailers => "get-all-response-trailer"@,
            },
    {
        match self {
            HeaderType::RequestHeaders => "get-all-request-header",
            HeaderType::RequestTrailers => "get-all-request-trailer",
            HeaderType::ResponseHeaders => "get-all-response-header",
            HeaderType::ResponseTrailers => "get-all-response-trailer",
        }
    }

    /// Label under which a failed read of one entry is reported.
    pub fn get(&self) -> (r: &'static str)
        ensures
            r@ == match *self {
                HeaderType::RequestHeaders => "get-request-header"@,
                HeaderType::RequestTrailers => "get-request-trailer"@,
                HeaderType::ResponseHeaders => "get-response-header"@,
                HeaderType::ResponseTrailers => "get-response-trailer"@,
            },
    {
        match self {
            HeaderType::RequestHeaders => "get-request-header",
            HeaderType::RequestTrailers => "get-request-trailer",
            HeaderType::ResponseHeaders => "get-response-header",
            HeaderType::ResponseTrailers => "get-response-trailer",
        }
    }

    /// Label under which a failed write of one entry is reported.
    pub fn set(&self) -> (r: &'static str)
        ensures
            r@ == match *self {
                HeaderType::RequestHeaders => "set-request-header"@,
                HeaderType::RequestTrailers => "set-request-trailer"@,
                HeaderType::ResponseHeaders => "set-response-header"@,
                HeaderType::ResponseTrailers => "set-response-trailer"@,
            },
    {
        match self {
            HeaderType::RequestHeaders => "set-request-header",
            HeaderType::RequestTrailers => "set-request-trailer",
            HeaderType::ResponseHeaders => "set-response-header",
            HeaderType::ResponseTrailers => "set-response-trailer",
        }
    }

    /// Label under which a failed write of the whole section is reported.
    pub fn set_all(&self) -> (r: &'static str)
        ensures
            r@ == match *self {
                HeaderType::RequestHeaders => "set-all-request-headers"@,
                HeaderType::RequestTrailers => "set-all-request-trailers"@,
                HeaderType::ResponseHeaders => "set-all-response-headers"@,
                HeaderType::ResponseTrailers => "set-all-response-trailers"@,
            },
    {
        match self {
            HeaderType::RequestHeaders => "set-all-request-headers",
            HeaderType::RequestTrailers => "set-all-request-trailers",
            HeaderType::ResponseHeaders => "set-all-response-headers",
            HeaderType::ResponseTrailers => "set-all-response-trailers",
        }
    }

    /// Label under which a failed append is reported.
    pub fn add(&self) -> (r: &'static str)
        ensures
            r@ == match *self {
                HeaderType::RequestHeaders => "add-request-headers"@,
                HeaderType::RequestTrailers => "add-request-trailers"@,
                HeaderType::ResponseHeaders => "add-response-headers"@,
                HeaderType::ResponseTrailers => "add-response-trailers"@,
            },
    {
        match self {
            HeaderType::RequestHeaders => "add-request-headers",
            HeaderType::RequestTrailers => "add-request-trailers",
            HeaderType::ResponseHeaders => "add-response-headers",
            HeaderType::ResponseTrailers => "add-response-trailers",
        }
    }

    /// Label under which a failed removal is reported.
    pub fn remove(&self) -> (r: &'static str)
        ensures
            r@ == match *self {
                HeaderType::RequestHeaders => "remove-request-headers"@,
                HeaderType::RequestTrailers => "remove-request-trailers"@,
                HeaderType::ResponseHeaders => "remove-response-headers"@,
                HeaderType::ResponseTrailers => "remove-response-trailers"@,
            },
    {
        match self {
            HeaderType::RequestHeaders => "remove-request-headers",
            HeaderType::RequestTrailers => "remove-request-trailers",
            HeaderType::ResponseHeaders => "remove-response-headers",
            HeaderType::ResponseTrailers => "remove-response-trailers",
        }
    }

    /// The host map that holds this section.
    pub open spec fn spec_map(self) -> MapType {
        match self {
            HeaderType::RequestHeaders => MapType::HttpRequestHeaders,
            HeaderType::RequestTrailers => MapType::HttpRequestTrailers,
            HeaderType::ResponseHeaders => MapType::HttpResponseHeaders,
            HeaderType::ResponseTrailers => MapType::HttpResponseTrailers,
        }
    }

    /// The host map that holds this section.
    pub fn map(&self) -> (r: MapType)
        ensures
            r == self.spec_map(),
    {
        match self {
            HeaderType::RequestHeaders => MapType::HttpRequestHeaders,
            HeaderType::RequestTrailers => MapType::HttpRequestTrailers,
            HeaderType::ResponseHeaders => MapType::HttpResponseHeaders,
            HeaderType::ResponseTrailers => MapType::HttpResponseTrailers,
        }
    }
}

/// Defines if data belongs to a request or response.
#[derive(Copy, Clone, PartialEq, Eq, Structural, Debug)]
pub enum HttpType {
    Request,
    Response,
}

impl HttpType {
    /// The host stream that carries this direction.
    pub open spec fn spec_stream(self) -> StreamType {
        match self {
            HttpType::Request => StreamType::HttpRequest,
            HttpType::Response => StreamType::HttpResponse,
        }
    }

    /// The host buffer that holds the body of this direction.
    pub open spec fn spec_buffer(self) -> BufferType {
        match self {
            HttpType::Request => BufferType::HttpRequestBody,
            HttpType::Response => BufferType::HttpResponseBody,
        }
    }

    /// Label under which a failed resume is reported.
    pub fn resume(&self) -> (r: &'static str)
        ensures
            r@ == match *self {
                HttpType::Request => "resume-http-request"@,
                HttpType::Response => "resume-http-response"@,
            },
    {
        match self {
            HttpType::Request => "resume-http-request",
            HttpType::Response => "resume-http-response",
        }
    }

    /// Asks the host, through `continue_stream`, to resume the stream of
    /// this direction, and hands its answer back.
    pub fn call_resume<F: FnOnce(StreamType) -> Result<(), Status>>(
        &self,
        continue_stream: F,
    ) -> (r: Result<(), Status>)
        requires
            call_requires(continue_stream, (self.spec_stream(),)),
        ensures
            call_ensures(continue_stream, (self.spec_stream(),), r),
    {
        match self {
            HttpType::Request => continue_stream(StreamType::HttpRequest),
            HttpType::Response => continue_stream(StreamType::HttpResponse),
        }
    }

    /// Label under which a failed reset is reported.
    pub fn reset(&self) -> (r: &'static str)
        ensures
            r@ == match *self {
                HttpType::Request => "reset-http-request"@,
                HttpType::Response => "reset-http-response"@,
            },
    {
        match self {
            HttpType::Request => "reset-http-request",
            HttpType::Response => "reset-http-response",
        }
    }

    /// Asks the host, through `close_stream`, to close the stream of this
    /// direction, and hands its answer back.
    pub fn call_reset<F: FnOnce(StreamType) -> Result<(), Status>>(&self, close_stream: F) -> (r:
        Result<(), Status>)
        requires
            call_requires(close_stream, (self.spec_stream(),)),
        ensures
            call_ensures(close_stream, (self.spec_stream(),), r),
    {
        match self {
            HttpType::Request => close_stream(StreamType::HttpRequest),
            HttpType::Response => close_stream(StreamType::HttpResponse),
        }
    }

    /// Label under which a failed read of the body is reported.
    pub fn get(&self) -> (r: &'static str)
        ensures
            r@ == match *self {
                HttpType::Request => "get-request-body"@,
                HttpType::Response => "get-response-body"@,
            },
    {
        match self {
            HttpType::Request => "get-request-body",
            HttpType::Response => "get-response-body",
        }
    }

    /// Label under which a failed write of the body is reported.
    pub fn set(&self) -> (r: &'static str)
        ensures
            r@ == match *self {
                HttpType::Request => "set-request-body"@,
                HttpType::Response => "set-response-body"@,
            },
    {
        match self {
            HttpType::Request => "set-request-body",
            HttpType::Response => "set-response-body",
        }
    }

    /// The host buffer that holds the body of this direction.
    pub fn buffer(&self) -> (r: BufferType)
        ensures
            r == self.spec_buffer(),
    {
        match self {
            HttpType::Request => BufferType::HttpRequestBody,
            HttpType::Response => BufferType::HttpResponseBody,
        }
    }
}

/// Return status for header callbacks.
#[derive(Copy, Clone, PartialEq, Eq, Structural, Hash, Debug)]
#[non_exhaustive]
pub enum FilterHeadersStatus {
    Continue,
    StopIteration,
    ContinueAndEndStream,
    StopAllIterationAndBuffer,
    StopAllIterationAndWatermark,
}

/// Return status for trailer callbacks.
#[derive(Copy, Clone, PartialEq, Eq, Structural, Hash, Debug)]
#[non_exhaustive]
pub enum FilterTrailersStatus {
    Continue,
    StopIteration,
}

/// Return status for body callbacks.
#[derive(Copy, Clone, PartialEq, Eq, Structural, Hash, Debug)]
#[non_exhaustive]
pub enum FilterDataStatus {
    Continue,
    StopAllIterationAndBuffer,
    StopAllIterationAndWatermark,
    StopIterationNoBuffer,
}

impl FilterHeadersStatus {
    /// The number that the host reads this status as.
    pub open spec fn spec_code(self) -> usize {
        match self {
            FilterHeadersStatus::Continue => 0,
            FilterHeadersStatus::StopIteration => 1,
            FilterHeadersStatus::ContinueAndEndStream => 2,
            FilterHeadersStatus::StopAllIterationAndBuffer => 3,
            FilterHeadersStatus::StopAllIterationAndWatermark => 4,
        }
    }

    /// The number that the host reads this status as.
    pub fn code(self) -> (r: usize)
        ensures
            r == self.spec_code(),
    {
        match self {
            FilterHeadersStatus::Continue => 0,
            FilterHeadersStatus::StopIteration => 1,
            FilterHeadersStatus::ContinueAndEndStream => 2,
            FilterHeadersStatus::StopAllIterationAndBuffer => 3,
            FilterHeadersStatus::StopAllIterationAndWatermark => 4,
        }
    }
}

impl FilterTrailersStatus {
    /// The number that the host reads this status as.
    pub open spec fn spec_code(self) -> usize {
        match self {
            FilterTrailersStatus::Continue => 0,
            FilterTrailersStatus::StopIteration => 1,
        }
    }

    /// The number that the host reads this status as.
    pub fn code(self) -> (r: usize)
        ensures
            r == self.spec_code(),
    {
        match self {
            FilterTrailersStatus::Continue => 0,
            FilterTrailersStatus::StopIteration => 1,
        }
    }
}

impl FilterDataStatus {
    /// The number that the host reads this status as.
    pub open spec fn spec_code(self) -> usize {
        match self {
            FilterDataStatus::Continue => 0,
            FilterDataStatus::StopAllIterationAndBuffer => 1,
            FilterDataStatus::StopAllIterationAndWatermark => 2,
            FilterDataStatus::StopIterationNoBuffer => 3,
        }
    }

    /// The number that the host reads this status as.
    pub fn code(self) -> (r: usize)
        ensures
            r == self.spec_code(),
    {
        match self {
            FilterDataStatus::Continue => 0,
            FilterDataStatus::StopAllIterationAndBuffer => 1,
            FilterDataStatus::StopAllIterationAndWatermark => 2,
            FilterDataStatus::StopIterationNoBuffer => 3,
        }
    }
}

/// Defines control functions for http data.
pub trait HttpControl {
    /// Request or Response.
    spec fn spec_http_type() -> HttpType;

    /// Request or Response.
    fn http_type() -> (r: HttpType)
        ensures
            r == Self::spec_http_type(),
    ;

    /// Retrieve attributes for the http data.
    fn attributes(&self) -> &Attributes;

    /// If `true`, this is the last block.
    spec fn spec_end_of_stream(&self) -> bool;

    /// If `true`, this is the last block. Trailers are always the last.
    fn end_of_stream(&self) -> (r: bool)
        ensures
            r == self.spec_end_of_stream(),
    ;

    /// Resume a paused HTTP request/response: asks the host, through
    /// `continue_stream`, for the stream of this direction, and hands its
    /// answer back.
    fn resume<F: FnOnce(StreamType) -> Result<(), Status>>(&self, continue_stream: F) -> (r:
        Result<(), Status>)
        requires
            call_requires(continue_stream, (Self::spec_http_type().spec_stream(),)),
        ensures
            call_ensures(continue_stream, (Self::spec_http_type().spec_stream(),), r),
    {
        Self::http_type().call_resume(continue_stream)
    }

    /// Reset the HTTP request/response: asks the host, through
    /// `close_stream`, for the stream of this direction, and hands its
    /// answer back.
    fn reset<F: FnOnce(StreamType) -> Result<(), Status>>(&self, close_stream: F) -> (r: Result<
        (),
        Status,
    >)
        requires
            call_requires(close_stream, (Self::spec_http_type().spec_stream(),)),
        ensures
            call_ensures(close_stream, (Self::spec_http_type().spec_stream(),), r),
    {
        Self::http_type().call_reset(close_stream)
    }

    /// Send an early HTTP response, terminating the current
    /// request/response: hands the three values to the host, through
    /// `send`, and its answer back.
    fn send_http_response<F: FnOnce(u32, &[(&str, &[u8])], Option<&[u8]>) -> Result<(), Status>>(
        &self,
        status_code: u32,
        headers: &[(&str, &[u8])],
        body: Option<&[u8]>,
        send: F,
    ) -> (r: Result<(), Status>)
        requires
            call_requires(send, (status_code, headers, body)),
        ensures
            call_ensures(send, (status_code, headers, body), r),
    {
        send(status_code, headers, body)
    }

    /// Mark this transaction as complete, through `done`, and hands the
    /// answer of the host back.
    fn done<F: FnOnce() -> Result<(), Status>>(&self, done: F) -> (r: Result<(), Status>)
        requires
            call_requires(done, ()),
        ensures
            call_ensures(done, (), r),
    {
        done()
    }
}

/// Defines functions to interact with header data.
pub trait HttpHeaderControl: HttpControl {
    /// The header type.
    spec fn spec_header_type() -> HeaderType;

    /// The header type.
    fn header_type() -> (r: HeaderType)
        ensures
            r == Self::spec_header_type(),
    ;

    /// Number of headers contained in block.
    spec fn spec_header_count(&self) -> usize;

    /// Number of headers contained in block.
    fn header_count(&self) -> (r: usize)
        ensures
            r == self.spec_header_count(),
    ;

    /// Get all headers in this block: what the host, asked through
    /// `get_map` for the map of this section, holds there; nothing where it
    /// holds none or refuses.
    fn all<F: FnOnce(MapType) -> Result<Option<Vec<(String, Vec<u8>)>>, Status>>(
        &self,
        get_map: F,
    ) -> (r: Vec<(String, Vec<u8>)>)
        requires
            call_requires(get_map, (Self::spec_header_type().spec_map(),)),
        ensures
            exists|answer: Result<Option<Vec<(String, Vec<u8>)>>, Status>|
                #[trigger] call_ensures(get_map, (Self::spec_header_type().spec_map(),), answer)
                    && r@ == entries_or_none(answer),
    {
        match get_map(Self::header_type().map()) {
            Ok(Some(entries)) => entries,
            _ => Vec::new(),
        }
    }

    /// Check for a specific header value: what the host, asked through
    /// `get_map_value`, holds under `name` in the map of this section.
    fn get<F: FnOnce(MapType, &str) -> Result<Option<Vec<u8>>, Status>>(
        &self,
        name: &str,
        get_map_value: F,
    ) -> (r: Option<Vec<u8>>)
        requires
            call_requires(get_map_value, (Self::spec_header_type().spec_map(), name)),
        ensures
            exists|answer: Result<Option<Vec<u8>>, Status>|
                #[trigger] call_ensures(
                    get_map_value,
                    (Self::spec_header_type().spec_map(), name),
                    answer,
                ) && r == value_or_none(answer),
    {
        match get_map_value(Self::header_type().map(), name) {
            Ok(value) => value,
            Err(_) => None,
        }
    }

    /// Set a specific header: asks the host, through `set_map_value`, to
    /// put `value` under `name` in the map of this section, and hands its
    /// answer back.
    fn set<F: FnOnce(MapType, &str, Option<&[u8]>) -> Result<(), Status>>(
        &self,
        name: &str,
        value: &[u8],
        set_map_value: F,
    ) -> (r: Result<(), Status>)
        requires
            call_requires(
                set_map_value,
                (Self::spec_header_type().spec_map(), name, Some(value)),
            ),
        ensures
            call_ensures(
                set_map_value,
                (Self::spec_header_type().spec_map(), name, Some(value)),
                r,
            ),
    {
        set_map_value(Self::header_type().map(), name, Some(value))
    }

    /// Replace all headers in this block: asks the host, through `set_map`,
    /// to hold `values` as the map of this section, and hands its answer
    /// back.
    fn set_all<F: FnOnce(MapType, &[(&str, &[u8])]) -> Result<(), Status>>(
        &self,
        values: &[(&str, &[u8])],
        set_map: F,
    ) -> (r: Result<(), Status>)
        requires
            call_requires(set_map, (Self::spec_header_type().spec_map(), values)),
        ensures
            call_ensures(set_map, (Self::spec_header_type().spec_map(), values), r),
    {
        set_map(Self::header_type().map(), values)
    }

    /// Add a header to this block (append to existing if present), through
    /// `add_map_value`, and hands the answer of the host back.
    fn add<F: FnOnce(MapType, &str, &[u8]) -> Result<(), Status>>(
        &self,
        name: &str,
        value: &[u8],
        add_map_value: F,
    ) -> (r: Result<(), Status>)
        requires
            call_requires(add_map_value, (Self::spec_header_type().spec_map(), name, value)),
        ensures
            call_ensures(add_map_value, (Self::spec_header_type().spec_map(), name, value), r),
    {
        add_map_value(Self::header_type().map(), name, value)
    }

    /// Remove a header from this block: asks the host, through
    /// `set_map_value`, to hold nothing under `name`, and hands its answer
    /// back.
    fn remove<F: FnOnce(MapType, &str, Option<&[u8]>) -> Result<(), Status>>(
        &self,
        name: &str,
        set_map_value: F,
    ) -> (r: Result<(), Status>)
        requires
            call_requires(
                set_map_value,
                (Self::spec_header_type().spec_map(), name, None::<&[u8]>),
            ),
        ensures
            call_ensures(
                set_map_value,
                (Self::spec_header_type().spec_map(), name, None::<&[u8]>),
                r,
            ),
    {
        set_map_value(Self::header_type().map(), name, None)
    }
}

/// The entries that a read of a whole map gave: none where the host holds
/// no such map or refused.
pub open spec fn entries_or_none(
    answer: Result<Option<Vec<(String, Vec<u8>)>>, Status>,
) -> Seq<(String, Vec<u8>)> {
    match answer {
        Ok(Some(entries)) => entries@,
        _ => Seq::empty(),
    }
}

/// The bytes that a read gave: none where the host holds none or refused.
pub open spec fn value_or_none(answer: Result<Option<Vec<u8>>, Status>) -> Option<Vec<u8>> {
    match answer {
        Ok(value) => value,
        Err(_) => None,
    }
}

/// Defines functions to interact with body data.
pub trait HttpBodyControl: HttpControl {
    /// Length of this body fragment.
    spec fn spec_body_size(&self) -> usize;

    /// Length of this body fragment.
    fn body_size(&self) -> (r: usize)
        ensures
            r == self.spec_body_size(),
    ;

    /// Get a range of the body block content: what the host, asked through
    /// `get_buffer`, holds of the body of this direction in the part of
    /// the fragment that the range covers.
    fn get<F: FnOnce(BufferType, usize, usize) -> Result<Option<Vec<u8>>, Status>>(
        &self,
        start: RangeBound,
        end: RangeBound,
        get_buffer: F,
    ) -> (r: Option<Vec<u8>>)
        requires
            call_requires(
                get_buffer,
                (
                    Self::spec_http_type().spec_buffer(),
                    range_start_of(start),
                    range_size_of(start, end, self.spec_body_size()),
                ),
            ),
        ensures
            exists|answer: Result<Option<Vec<u8>>, Status>|
                #[trigger] call_ensures(
                    get_buffer,
                    (
                        Self::spec_http_type().spec_buffer(),
                        range_start_of(start),
                        range_size_of(start, end, self.spec_body_size()),
                    ),
                    answer,
                ) && r == value_or_none(answer),
    {
        let (from, size) = calculate_range(start, end, self.body_size());
        match get_buffer(Self::http_type().buffer(), from, size) {
            Ok(value) => value,
            Err(_) => None,
        }
    }

    /// Set a range of the body block content: asks the host, through
    /// `set_buffer`, to put `value` in place of the part of the fragment
    /// that the range covers, and hands its answer back.
    fn set<F: FnOnce(BufferType, usize, usize, &[u8]) -> Result<(), Status>>(
        &self,
        start: RangeBound,
        end: RangeBound,
        value: &[u8],
        set_buffer: F,
    ) -> (r: Result<(), Status>)
        requires
            call_requires(
                set_buffer,
                (
                    Self::spec_http_type().spec_buffer(),
                    range_start_of(start),
                    range_size_of(start, end, self.spec_body_size()),
                    value,
                ),
            ),
        ensures
            call_ensures(
                set_buffer,
                (
                    Self::spec_http_type().spec_buffer(),
                    range_start_of(start),
                    range_size_of(start, end, self.spec_body_size()),
                    value,
                ),
                r,
            ),
    {
        let (from, size) = calculate_range(start, end, self.body_size());
        set_buffer(Self::http_type().buffer(), from, size, value)
    }

    /// Get the entire body block content.
    fn all<F: FnOnce(BufferType, usize, usize) -> Result<Option<Vec<u8>>, Status>>(
        &self,
        get_buffer: F,
    ) -> (r: Option<Vec<u8>>)
        requires
            call_requires(
                get_buffer,
                (Self::spec_http_type().spec_buffer(), 0usize, self.spec_body_size()),
            ),
        ensures
            exists|answer: Result<Option<Vec<u8>>, Status>|
                #[trigger] call_ensures(
                    get_buffer,
                    (Self::spec_http_type().spec_buffer(), 0usize, self.spec_body_size()),
                    answer,
                ) && r == value_or_none(answer),
    {
        self.get(RangeBound::Unbounded, RangeBound::Unbounded, get_buffer)
    }

    /// Replace the entire body block with `value`.
    fn replace<F: FnOnce(BufferType, usize, usize, &[u8]) -> Result<(), Status>>(
        &self,
        value: &[u8],
        set_buffer: F,
    ) -> (r: Result<(), Status>)
        requires
            call_requires(
                set_buffer,
                (Self::spec_http_type().spec_buffer(), 0usize, self.spec_body_size(), value),
            ),
        ensures
            call_ensures(
                set_buffer,
                (Self::spec_http_type().spec_buffer(), 0usize, self.spec_body_size(), value),
                r,
            ),
    {
        self.set(RangeBound::Unbounded, RangeBound::Unbounded, value, set_buffer)
    }

    /// Clear the entire body block: replace it with no bytes.
    fn clear<F: FnOnce(BufferType, usize, usize, &[u8]) -> Result<(), Status>>(
        &self,
        set_buffer: F,
    ) -> (r: Result<(), Status>)
        requires
            forall|value: &[u8]|
                value@.len() == 0 ==> #[trigger] call_requires(
                    set_buffer,
                    (Self::spec_http_type().spec_buffer(), 0usize, self.spec_body_size(), value),
                ),
        ensures
            exists|value: &[u8]|
                value@.len() == 0 && #[trigger] call_ensures(
                    set_buffer,
                    (Self::spec_http_type().spec_buffer(), 0usize, self.spec_body_size(), value),
                    r,
                ),
    {
        let empty: Vec<u8> = Vec::new();
        self.replace(empty.as_slice(), set_buffer)
    }
}

/// Where a range starts, as a machine number.
pub open spec fn range_start_of(start: RangeBound) -> usize {
    crate::range_start(start) as usize
}

/// How many positions of `0..limit` a range covers, as a machine number.
pub open spec fn range_size_of(start: RangeBound, end: RangeBound, limit: usize) -> usize {
    crate::range_size(start, end, limit) as usize
}

/// Request header context.
pub struct RequestHeaders {
    pub(crate) header_count: usize,
    pub(crate) end_of_stream: bool,
    pub(crate) attributes: Attributes,
}

impl RequestHeaders {
    /// The view of this many headers, the last or not.
    pub(crate) fn new(header_count: usize, end_of_stream: bool) -> (r: Self)
        ensures
            r.spec_header_count() == header_count,
            r.spec_end_of_stream() == end_of_stream,
    {
        RequestHeaders { header_count, end_of_stream, attributes: Attributes::get() }
    }
}

impl HttpControl for RequestHeaders {
    open spec fn spec_http_type() -> HttpType {
        HttpType::Request
    }

    fn http_type() -> (r: HttpType) {
        HttpType::Request
    }

    fn attributes(&self) -> &Attributes {
        &self.attributes
    }

    closed spec fn spec_end_of_stream(&self) -> bool {
        self.end_of_stream
    }

    fn end_of_stream(&self) -> (r: bool) {
        self.end_of_stream
    }
}

impl HttpHeaderControl for RequestHeaders {
    open spec fn spec_header_type() -> HeaderType {
        HeaderType::RequestHeaders
    }

    fn header_type() -> (r: HeaderType) {
        HeaderType::RequestHeaders
    }

    closed spec fn spec_header_count(&self) -> usize {
        self.header_count
    }

    fn header_count(&self) -> (r: usize) {
        self.header_count
    }
}

/// Request body context.
pub struct RequestBody {
    pub(crate) body_size: usize,
    pub(crate) end_of_stream: bool,
    pub(crate) attributes: Attributes,
}

impl RequestBody {
    /// The view of a block of this size, the last or not.
    pub(crate) fn new(body_size: usize, end_of_stream: bool) -> (r: Self)
        ensures
            r.spec_body_size() == body_size,
            r.spec_end_of_stream() == end_of_stream,
    {
        RequestBody { body_size, end_of_stream, attributes: Attributes::get() }
    }
}

impl HttpControl for RequestBody {
    open spec fn spec_http_type() -> HttpType {
        HttpType::Request
    }

    fn http_type() -> (r: HttpType) {
        HttpType::Request
    }

    fn attributes(&self) -> &Attributes {
        &self.attributes
    }

    closed spec fn spec_end_of_stream(&self) -> bool {
        self.end_of_stream
    }

    fn end_of_stream(&self) -> (r: bool) {
        self.end_of_stream
    }
}

impl HttpBodyControl for RequestBody {
    closed spec fn spec_body_size(&self) -> usize {
        self.body_size
    }

    fn body_size(&self) -> (r: usize) {
        self.body_size
    }
}

/// Request trailer context.
pub struct RequestTrailers {
    pub(crate) trailer_count: usize,
    pub(crate) attributes: Attributes,
}

impl RequestTrailers {
    /// The view of this many trailers.
    pub(crate) fn new(trailer_count: usize) -> (r: Self)
        ensures
            r.spec_header_count() == trailer_count,
    {
        RequestTrailers { trailer_count, attributes: Attributes::get() }
    }
}

impl HttpControl for RequestTrailers {
    open spec fn spec_http_type() -> HttpType {
        HttpType::Request
    }

    fn http_type() -> (r: HttpType) {
        HttpType::Request
    }

    fn attributes(&self) -> &Attributes {
        &self.attributes
    }

    open spec fn spec_end_of_stream(&self) -> bool {
        true
    }

    fn end_of_stream(&self) -> (r: bool) {
        true
    }
}

impl HttpHeaderControl for RequestTrailers {
    open spec fn spec_header_type() -> HeaderType {
        HeaderType::RequestTrailers
    }

    fn header_type() -> (r: HeaderType) {
        HeaderType::RequestTrailers
    }

    closed spec fn spec_header_count(&self) -> usize {
        self.trailer_count
    }

    fn header_count(&self) -> (r: usize) {
        self.trailer_count
    }
}

/// Response header context.
pub struct ResponseHeaders {
    pub(crate) header_count: usize,
    pub(crate) end_of_stream: bool,
    pub(crate) attributes: Attributes,
}

impl ResponseHeaders {
    /// The view of this many headers, the last or not.
    pub(crate) fn new(header_count: usize, end_of_stream: bool) -> (r: Self)
        ensures
            r.spec_header_count() == header_count,
            r.spec_end_of_stream() == end_of_stream,
    {
        ResponseHeaders { header_count, end_of_stream, attributes: Attributes::get() }
    }
}

impl HttpControl for ResponseHeaders {
    open spec fn spec_http_type() -> HttpType {
        HttpType::Response
    }

    fn http_type() -> (r: HttpType) {
        HttpType::Response
    }

    fn attributes(&self) -> &Attributes {
        &self.attributes
    }

    closed spec fn spec_end_of_stream(&self) -> bool {
        self.end_of_stream
    }

    fn end_of_stream(&self) -> (r: bool) {
        self.end_of_stream
    }
}

impl HttpHeaderControl for ResponseHeaders {
    open spec fn spec_header_type() -> HeaderType {
        HeaderType::ResponseHeaders
    }

    fn header_type() -> (r: HeaderType) {
        HeaderType::ResponseHeaders
    }

    closed spec fn spec_header_count(&self) -> usize {
        self.header_count
    }

    fn header_count(&self) -> (r: usize) {
        self.header_count
    }
}

/// Response body context.
pub struct ResponseBody {
    pub(crate) body_size: usize,
    pub(crate) end_of_stream: bool,
    pub(crate) attributes: Attributes,
}

impl ResponseBody {
    /// The view of a block of this size, the last or not.
    pub(crate) fn new(body_size: usize, end_of_stream: bool) -> (r: Self)
        ensures
            r.spec_body_size() == body_size,
            r.spec_end_of_stream() == end_of_stream,
    {
        ResponseBody { body_size, end_of_stream, attributes: Attributes::get() }
    }
}

impl HttpControl for ResponseBody {
    open spec fn spec_http_type() -> HttpType {
        HttpType::Response
    }

    fn http_type() -> (r: HttpType) {
        HttpType::Response
    }

    fn attributes(&self) -> &Attributes {
        &self.attributes
    }

    closed spec fn spec_end_of_stream(&self) -> bool {
        self.end_of_stream
    }

    fn end_of_stream(&self) -> (r: bool) {
        self.end_of_stream
    }
}

impl HttpBodyControl for ResponseBody {
    closed spec fn spec_body_size(&self) -> usize {
        self.body_size
    }

    fn body_size(&self) -> (r: usize) {
        self.body_size
    }
}

/// Response trailer context.
pub struct ResponseTrailers {
    pub(crate) trailer_count: usize,
    pub(crate) attributes: Attributes,
}

impl ResponseTrailers {
    /// The view of this many trailers.
    pub(crate) fn new(trailer_count: usize) -> (r: Self)
        ensures
            r.spec_header_count() == trailer_count,
    {
        ResponseTrailers { trailer_count, attributes: Attributes::get() }
    }
}

impl HttpControl for ResponseTrailers {
    open spec fn spec_http_type() -> HttpType {
        HttpType::Response
    }

    fn http_type() -> (r: HttpType) {
        HttpType::Response
    }

    fn attributes(&self) -> &Attributes {
        &self.attributes
    }

    open spec fn spec_end_of_stream(&self) -> bool {
        true
    }

    fn end_of_stream(&self) -> (r: bool) {
        true
    }
}

impl HttpHeaderControl for ResponseTrailers {
    open spec fn spec_header_type() -> HeaderType {
        HeaderType::ResponseTrailers
    }

    fn header_type() -> (r: HeaderType) {
        HeaderType::ResponseTrailers
    }

    closed spec fn spec_header_count(&self) -> usize {
        self.trailer_count
    }

    fn header_count(&self) -> (r: usize) {
        self.trailer_count
    }
}

/// Context for a HTTP filter plugin.
pub trait HttpContext: BaseContext {
    /// Called one or more times as the proxy receives request headers. If
    /// `headers.end_of_stream()` is true, then they are the last request
    /// headers.
    fn on_http_request_headers(&mut self, headers: &RequestHeaders) -> FilterHeadersStatus {
        FilterHeadersStatus::Continue
    }

    /// Called only if and only if there is a request body. Called one or
    /// more times as the proxy receives blocks of request body data. If
    /// `body.end_of_stream()` is true, it is the last block.
    fn on_http_request_body(&mut self, body: &RequestBody) -> FilterDataStatus {
        FilterDataStatus::Continue
    }

    /// Called once if and only if any trailers are sent at the end of the
    /// request. Not called multiple times.
    fn on_http_request_trailers(&mut self, trailers: &RequestTrailers) -> FilterTrailersStatus {
        FilterTrailersStatus::Continue
    }

    /// Called one or more times as the proxy receives response headers. If
    /// `headers.end_of_stream()` is true, then they are the last response
    /// headers.
    fn on_http_response_headers(&mut self, headers: &ResponseHeaders) -> FilterHeadersStatus {
        FilterHeadersStatus::Continue
    }

    /// Called only if and only if there is a response body. Called one or
    /// more times as the proxy receives blocks of response body data. If
    /// `body.end_of_stream()` is true, it is the last block.
    fn on_http_response_body(&mut self, body: &ResponseBody) -> FilterDataStatus {
        FilterDataStatus::Continue
    }

    /// Called once if and only if any trailers are sent at the end of the
    /// response. Not called multiple times.
    fn on_http_response_trailers(&mut self, trailers: &ResponseTrailers) -> FilterTrailersStatus {
        FilterTrailersStatus::Continue
    }
}

} // verus!
