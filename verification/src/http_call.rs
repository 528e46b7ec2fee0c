use crate::calculate_range;
use crate::context::RootContext;
use crate::dispatcher::{Callbacks, Dispatcher, DispatcherView};
use crate::hostcalls::{BufferType, MapType};
use crate::upstream::Upstream;
use crate::http::{entries_or_none, range_size_of, range_start_of, value_or_none};
use crate::status::Status;
use crate::RangeBound;
use vstd::prelude::*;

verus! {

/// The time to wait for the response of a call where none is set: ten
/// seconds, in milliseconds.
pub const DEFAULT_TIMEOUT: u64 = 10000;

/// Outbound HTTP call.
pub struct HttpCall<'a, F> {
    /// Upstream cluster to send the request to.
    pub upstream: Upstream,
    /// All headers to be sent along with the request. The proxy may add
    /// additional headers. This should include pseudo headers like
    /// `:method` and `:path`.
    pub headers: Vec<(&'a str, &'a [u8])>,
    /// All trailers to be sent along with the request.
    pub trailers: Vec<(&'a str, &'a [u8])>,
    /// An optional request body to send with the request.
    pub body: Option<&'a [u8]>,
    /// A timeout on waiting for a response, in milliseconds. Default is 10
    /// seconds.
    pub timeout: Option<u64>,
    /// Callback to call when a response has arrived.
    pub callback: Option<F>,
}

/// What a builder lacks to make a call.
#[derive(Debug, Clone, Copy, PartialEq, Eq, Structural)]
pub enum HttpCallBuilderError {
    /// No upstream was set.
    UninitializedUpstream,
}

/// Builder for [`HttpCall`].
pub struct HttpCallBuilder<'a, F> {
    pub upstream: Option<Upstream>,
    pub headers: Option<Vec<(&'a str, &'a [u8])>>,
    pub trailers: Option<Vec<(&'a str, &'a [u8])>>,
    pub body: Option<&'a [u8]>,
    pub timeout: Option<u64>,
    pub callback: Option<F>,
}

impl<'a, F> HttpCallBuilder<'a, F> {
    /// A builder with nothing set.
    pub fn new() -> (r: Self)
        ensures
            r.upstream is None,
            r.headers is None,
            r.trailers is None,
            r.body is None,
            r.timeout is None,
            r.callback is None,
    {
        HttpCallBuilder {
            upstream: None,
            headers: None,
            trailers: None,
            body: None,
            timeout: None,
            callback: None,
        }
    }

    /// Upstream cluster to send the request to.
    pub fn upstream(self, value: Upstream) -> (r: Self)
        ensures
            r == (HttpCallBuilder { upstream: Some(value), ..self }),
    {
        let mut new = self;
        new.upstream = Some(value);
        new
    }

    /// All headers to be sent along with the request, in place of those
    /// set before.
    pub fn headers(self, value: Vec<(&'a str, &'a [u8])>) -> (r: Self)
        ensures
            r == (HttpCallBuilder { headers: Some(value), ..self }),
    {
        let mut new = self;
        new.headers = Some(value);
        new
    }

    /// One more header to be sent along with the request.
    pub fn header(self, name: &'a str, value: &'a [u8]) -> (r: Self)
        ensures
            r.headers is Some,
            r.headers->0@ == (match self.headers {
                Some(headers) => headers@,
                None => Seq::empty(),
            }).push((name, value)),
            r.upstream == self.upstream,
            r.trailers == self.trailers,
            r.body == self.body,
            r.timeout == self.timeout,
            r.callback == self.callback,
    {
        let mut new = self;
        let mut headers = match new.headers {
            Some(headers) => headers,
            None => Vec::new(),
        };
        headers.push((name, value));
        new.headers = Some(headers);
        new
    }

    /// All trailers to be sent along with the request, in place of those
    /// set before.
    pub fn trailers(self, value: Vec<(&'a str, &'a [u8])>) -> (r: Self)
        ensures
            r == (HttpCallBuilder { trailers: Some(value), ..self }),
    {
        let mut new = self;
        new.trailers = Some(value);
        new
    }

    /// One more trailer to be sent along with the request.
    pub fn trailer(self, name: &'a str, value: &'a [u8]) -> (r: Self)
        ensures
            r.trailers is Some,
            r.trailers->0@ == (match self.trailers {
                Some(trailers) => trailers@,
                None => Seq::empty(),
            }).push((name, value)),
            r.upstream == self.upstream,
            r.headers == self.headers,
            r.body == self.body,
            r.timeout == self.timeout,
            r.callback == self.callback,
    {
        let mut new = self;
        let mut trailers = match new.trailers {
            Some(trailers) => trailers,
            None => Vec::new(),
        };
        trailers.push((name, value));
        new.trailers = Some(trailers);
        new
    }

    /// A request body to send with the request.
    pub fn body(self, value: &'a [u8]) -> (r: Self)
        ensures
            r == (HttpCallBuilder { body: Some(value), ..self }),
    {
        let mut new = self;
        new.body = Some(value);
        new
    }

    /// A timeout on waiting for a response, in milliseconds.
    pub fn timeout(self, value: u64) -> (r: Self)
        ensures
            r == (HttpCallBuilder { timeout: Some(value), ..self }),
    {
        let mut new = self;
        new.timeout = Some(value);
        new
    }

    /// Set a response callback.
    pub fn callback(self, callback: F) -> (r: Self)
        ensures
            r == (HttpCallBuilder { callback: Some(callback), ..self }),
    {
        let mut new = self;
        new.callback = Some(callback);
        new
    }

    /// The call that was described. An upstream must have been set; what
    /// else was not set is empty.
    pub fn build(self) -> (r: Result<HttpCall<'a, F>, HttpCallBuilderError>)
        ensures
            self.upstream is None ==> r == Err::<HttpCall<'a, F>, _>(
                HttpCallBuilderError::UninitializedUpstream,
            ),
            self.upstream is Some ==> r is Ok && {
                let call = r->Ok_0;
                &&& call.upstream == self.upstream->0
                &&& call.headers@ == match self.headers {
                    Some(headers) => headers@,
                    None => Seq::empty(),
                }
                &&& call.trailers@ == match self.trailers {
                    Some(trailers) => trailers@,
                    None => Seq::empty(),
                }
                &&& call.body == self.body
                &&& call.timeout == self.timeout
                &&& call.callback == self.callback
            },
    {
        let upstream = match self.upstream {
            Some(upstream) => upstream,
            None => {
                return Err(HttpCallBuilderError::UninitializedUpstream);
            },
        };
        Ok(
            HttpCall {
                upstream,
                headers: match self.headers {
                    Some(headers) => headers,
                    None => Vec::new(),
                },
                trailers: match self.trailers {
                    Some(trailers) => trailers,
                    None => Vec::new(),
                },
                body: self.body,
                timeout: self.timeout,
                callback: self.callback,
            },
        )
    }
}

impl<'a, F> HttpCall<'a, F> {
    /// The time that this call waits for its response, in milliseconds.
    pub open spec fn spec_timeout(&self) -> u64 {
        match self.timeout {
            Some(timeout) => timeout,
            None => DEFAULT_TIMEOUT,
        }
    }

    /// Whether `r` and `post` are what sending this call gives from the
    /// dispatcher `pre`, where the host answered `answer`: a refusal is
    /// handed on and nothing is recorded; with a token, the callback, if
    /// there is one, is recorded for it under the current context.
    pub open spec fn dispatched<T: RootContext + ?Sized, K: Callbacks<Http = F>>(
        self,
        pre: DispatcherView<T, K>,
        answer: Result<u32, Status>,
        post: DispatcherView<T, K>,
        r: Result<(), Status>,
    ) -> bool {
        match answer {
            Err(e) => r == Err::<(), _>(e) && post == pre,
            Ok(token) => r is Ok && post == match self.callback {
                Some(callback) => pre.with_http_callback(token, callback),
                None => pre,
            },
        }
    }

    /// Sends this `HttpCall` over the network: hands it to the host,
    /// through `send`, and records its callback for the token that the
    /// host gives.
    pub fn dispatch<
        T: RootContext + ?Sized,
        K: Callbacks<Http = F>,
        S: FnOnce(
            &Vec<u8>,
            &Vec<(&'a str, &'a [u8])>,
            Option<&'a [u8]>,
            &Vec<(&'a str, &'a [u8])>,
            u64,
        ) -> Result<u32, Status>,
    >(self, dispatcher: &mut Dispatcher<T, K>, send: S) -> (r: Result<(), Status>)
        requires
            call_requires(
                send,
                (
                    &self.upstream.0,
                    &self.headers,
                    self.body,
                    &self.trailers,
                    self.spec_timeout(),
                ),
            ),
        ensures
            exists|answer: Result<u32, Status>|
                #[trigger] call_ensures(
                    send,
                    (
                        &self.upstream.0,
                        &self.headers,
                        self.body,
                        &self.trailers,
                        self.spec_timeout(),
                    ),
                    answer,
                ) && self.dispatched(old(dispatcher)@, answer, final(dispatcher)@, r),
    {
        let timeout = match self.timeout {
            Some(timeout) => timeout,
            None => DEFAULT_TIMEOUT,
        };
        let token = match send(
            &self.upstream.0,
            &self.headers,
            self.body,
            &self.trailers,
            timeout,
        ) {
            Ok(token) => token,
            Err(e) => {
                return Err(e);
            },
        };
        if let Some(callback) = self.callback {
            dispatcher.register_http_callback(token, callback);
        }
        Ok(())
    }
}

/// Response type for the callback of an HTTP call.
pub struct HttpCallResponse {
    num_headers: usize,
    body_size: usize,
    num_trailers: usize,
}

impl HttpCallResponse {
    /// Number of headers contained.
    pub closed spec fn spec_num_headers(&self) -> usize {
        self.num_headers
    }

    /// Total size of the response body.
    pub closed spec fn spec_body_size(&self) -> usize {
        self.body_size
    }

    /// Number of trailers contained.
    pub closed spec fn spec_num_trailers(&self) -> usize {
        self.num_trailers
    }

    /// The view of a response with these three counts.
    pub fn new(num_headers: usize, body_size: usize, num_trailers: usize) -> (r: Self)
        ensures
            r.spec_num_headers() == num_headers,
            r.spec_body_size() == body_size,
            r.spec_num_trailers() == num_trailers,
    {
        HttpCallResponse { num_headers, body_size, num_trailers }
    }

    /// Number of headers contained.
    pub fn num_headers(&self) -> (r: usize)
        ensures
            r == self.spec_num_headers(),
    {
        self.num_headers
    }

    /// Number of trailers contained.
    pub fn num_trailers(&self) -> (r: usize)
        ensures
            r == self.spec_num_trailers(),
    {
        self.num_trailers
    }

    /// Total size of the response body.
    pub fn body_size(&self) -> (r: usize)
        ensures
            r == self.spec_body_size(),
    {
        self.body_size
    }

    /// Get all response headers: what the host, asked through `get_map`,
    /// holds as the headers of the call's response.
    pub fn headers<F: FnOnce(MapType) -> Result<Option<Vec<(String, Vec<u8>)>>, Status>>(
        &self,
        get_map: F,
    ) -> (r: Vec<(String, Vec<u8>)>)
        requires
            call_requires(get_map, (MapType::HttpCallResponseHeaders,)),
        ensures
            exists|answer: Result<Option<Vec<(String, Vec<u8>)>>, Status>|
                #[trigger] call_ensures(get_map, (MapType::HttpCallResponseHeaders,), answer)
                    && r@ == entries_or_none(answer),
    {
        match get_map(MapType::HttpCallResponseHeaders) {
            Ok(Some(entries)) => entries,
            _ => Vec::new(),
        }
    }

    /// Get a specific response header: what the host, asked through
    /// `get_map_value`, holds under `name` among the headers of the call's
    /// response.
    pub fn header<F: FnOnce(MapType, &str) -> Result<Option<Vec<u8>>, Status>>(
        &self,
        name: &str,
        get_map_value: F,
    ) -> (r: Option<Vec<u8>>)
        requires
            call_requires(get_map_value, (MapType::HttpCallResponseHeaders, name)),
        ensures
            exists|answer: Result<Option<Vec<u8>>, Status>|
                #[trigger] call_ensures(
                    get_map_value,
                    (MapType::HttpCallResponseHeaders, name),
                    answer,
                ) && r == value_or_none(answer),
    {
        match get_map_value(MapType::HttpCallResponseHeaders, name) {
            Ok(value) => value,
            Err(_) => None,
        }
    }

    /// Get a range of the response body: what the host, asked through
    /// `get_buffer`, holds of the call's response in the part of the body
    /// that the range covers.
    pub fn body<F: FnOnce(BufferType, usize, usize) -> Result<Option<Vec<u8>>, Status>>(
        &self,
        start: RangeBound,
        end: RangeBound,
        get_buffer: F,
    ) -> (r: Option<Vec<u8>>)
        requires
            call_requires(
                get_buffer,
                (
                    BufferType::HttpCallResponseBody,
                    range_start_of(start),
                    range_size_of(start, end, self.spec_body_size()),
                ),
            ),
        ensures
            exists|answer: Result<Option<Vec<u8>>, Status>|
                #[trigger] call_ensures(
                    get_buffer,
                    (
                        BufferType::HttpCallResponseBody,
                        range_start_of(start),
                        range_size_of(start, end, self.spec_body_size()),
                    ),
                    answer,
                ) && r == value_or_none(answer),
    {
        let (from, size) = calculate_range(start, end, self.body_size);
        match get_buffer(BufferType::HttpCallResponseBody, from, size) {
            Ok(value) => value,
            Err(_) => None,
        }
    }

    /// Get the entire response body.
    pub fn full_body<F: FnOnce(BufferType, usize, usize) -> Result<Option<Vec<u8>>, Status>>(
        &self,
        get_buffer: F,
    ) -> (r: Option<Vec<u8>>)
        requires
            call_requires(
                get_buffer,
                (BufferType::HttpCallResponseBody, 0usize, self.spec_body_size()),
            ),
        ensures
            exists|answer: Result<Option<Vec<u8>>, Status>|
                #[trigger] call_ensures(
                    get_buffer,
                    (BufferType::HttpCallResponseBody, 0usize, self.spec_body_size()),
                    answer,
                ) && r == value_or_none(answer),
    {
        self.body(RangeBound::Unbounded, RangeBound::Unbounded, get_buffer)
    }

    /// Get all response trailers: what the host, asked through `get_map`,
    /// holds as the trailers of the call's response.
    pub fn trailers<F: FnOnce(MapType) -> Result<Option<Vec<(String, Vec<u8>)>>, Status>>(
        &self,
        get_map: F,
    ) -> (r: Vec<(String, Vec<u8>)>)
        requires
            call_requires(get_map, (MapType::HttpCallResponseTrailers,)),
        ensures
            exists|answer: Result<Option<Vec<(String, Vec<u8>)>>, Status>|
                #[trigger] call_ensures(get_map, (MapType::HttpCallResponseTrailers,), answer)
                    && r@ == entries_or_none(answer),
    {
        match get_map(MapType::HttpCallResponseTrailers) {
            Ok(Some(entries)) => entries,
            _ => Vec::new(),
        }
    }

    /// Get a specific response trailer: what the host, asked through
    /// `get_map_value`, holds under `name` among the trailers of the call's
    /// response.
    pub fn trailer<F: FnOnce(MapType, &str) -> Result<Option<Vec<u8>>, Status>>(
        &self,
        name: &str,
        get_map_value: F,
    ) -> (r: Option<Vec<u8>>)
        requires
            call_requires(get_map_value, (MapType::HttpCallResponseTrailers, name)),
        ensures
            exists|answer: Result<Option<Vec<u8>>, Status>|
                #[trigger] call_ensures(
                    get_map_value,
                    (MapType::HttpCallResponseTrailers, name),
                    answer,
                ) && r == value_or_none(answer),
    {
        match get_map_value(MapType::HttpCallResponseTrailers, name) {
            Ok(value) => value,
            Err(_) => None,
        }
    }
}

} // verus!
