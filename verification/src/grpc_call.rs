use crate::calculate_range;
use crate::context::RootContext;
use crate::dispatcher::{Callbacks, Dispatcher, DispatcherView};
use crate::hostcalls::{BufferType, MapType};
use crate::http_call::DEFAULT_TIMEOUT;
use crate::upstream::Upstream;
use crate::http::{entries_or_none, range_size_of, range_start_of, value_or_none};
use crate::status::Status;
use crate::RangeBound;
use vstd::prelude::*;

verus! {

/// Outbound GRPC call.
pub struct GrpcCall<'a, F> {
    /// Upstream cluster to send the request to.
    pub upstream: Upstream,
    /// The GRPC service to call.
    pub service: &'a str,
    /// The GRPC service method to call.
    pub method: &'a str,
    /// Initial GRPC metadata to send with the request.
    pub initial_metadata: Vec<(&'a str, &'a [u8])>,
    /// An optional request body to send with the request.
    pub message: Option<&'a [u8]>,
    /// A timeout on waiting for a response, in milliseconds. Default is 10
    /// seconds.
    pub timeout: Option<u64>,
    /// Callback to call when a response has arrived.
    pub callback: Option<F>,
}

/// What a builder lacks to make a call.
#[derive(Debug, Clone, Copy, PartialEq, Eq, Structural)]
pub enum GrpcCallBuilderError {
    /// No upstream was set.
    UninitializedUpstream,
    /// No service was set.
    UninitializedService,
    /// No method was set.
    UninitializedMethod,
}

/// Builder for [`GrpcCall`].
pub struct GrpcCallBuilder<'a, F> {
    pub upstream: Option<Upstream>,
    pub service: Option<&'a str>,
    pub method: Option<&'a str>,
    pub initial_metadata: Option<Vec<(&'a str, &'a [u8])>>,
    pub message: Option<&'a [u8]>,
    pub timeout: Option<u64>,
    pub callback: Option<F>,
}

impl<'a, F> GrpcCallBuilder<'a, F> {
    /// A builder with nothing set.
    pub fn new() -> (r: Self)
        ensures
            r.upstream is None,
            r.service is None,
            r.method is None,
            r.initial_metadata is None,
            r.message is None,
            r.timeout is None,
            r.callback is None,
    {
        GrpcCallBuilder {
            upstream: None,
            service: None,
            method: None,
            initial_metadata: None,
            message: None,
            timeout: None,
            callback: None,
        }
    }

    /// Upstream cluster to send the request to.
    pub fn upstream(self, value: Upstream) -> (r: Self)
        ensures
            r == (GrpcCallBuilder { upstream: Some(value), ..self }),
    {
        let mut new = self;
        new.upstream = Some(value);
        new
    }

    /// The GRPC service to call.
    pub fn service(self, value: &'a str) -> (r: Self)
        ensures
            r == (GrpcCallBuilder { service: Some(value), ..self }),
    {
        let mut new = self;
        new.service = Some(value);
        new
    }

    /// The GRPC service method to call.
    pub fn method(self, value: &'a str) -> (r: Self)
        ensures
            r == (GrpcCallBuilder { method: Some(value), ..self }),
    {
        let mut new = self;
        new.method = Some(value);
        new
    }

    /// Initial GRPC metadata to send with the request, in place of what
    /// was set before.
    pub fn initial_metadata(self, value: Vec<(&'a str, &'a [u8])>) -> (r: Self)
        ensures
            r == (GrpcCallBuilder { initial_metadata: Some(value), ..self }),
    {
        let mut new = self;
        new.initial_metadata = Some(value);
        new
    }

    /// One more entry of initial GRPC metadata to send with the request.
    pub fn metadata(self, name: &'a str, value: &'a [u8]) -> (r: Self)
        ensures
            r.initial_metadata is Some,
            r.initial_metadata->0@ == (match self.initial_metadata {
                Some(entries) => entries@,
                None => Seq::empty(),
            }).push((name, value)),
            r.upstream == self.upstream,
            r.service == self.service,
            r.method == self.method,
            r.message == self.message,
            r.timeout == self.timeout,
            r.callback == self.callback,
    {
        let mut new = self;
        let mut entries = match new.initial_metadata {
            Some(entries) => entries,
            None => Vec::new(),
        };
        entries.push((name, value));
        new.initial_metadata = Some(entries);
        new
    }

    /// A request body to send with the request.
    pub fn message(self, value: &'a [u8]) -> (r: Self)
        ensures
            r == (GrpcCallBuilder { message: Some(value), ..self }),
    {
        let mut new = self;
        new.message = Some(value);
        new
    }

    /// A timeout on waiting for a response, in milliseconds.
    pub fn timeout(self, value: u64) -> (r: Self)
        ensures
            r == (GrpcCallBuilder { timeout: Some(value), ..self }),
    {
        let mut new = self;
        new.timeout = Some(value);
        new
    }

    /// Set a response callback.
    pub fn callback(self, callback: F) -> (r: Self)
        ensures
            r == (GrpcCallBuilder { callback: Some(callback), ..self }),
    {
        let mut new = self;
        new.callback = Some(callback);
        new
    }

    /// What this builder lacks to make a call, if anything: the first of
    /// upstream, service and method that was not set.
    pub open spec fn lacks(self) -> Option<GrpcCallBuilderError> {
        if self.upstream is None {
            Some(GrpcCallBuilderError::UninitializedUpstream)
        } else if self.service is None {
            Some(GrpcCallBuilderError::UninitializedService)
        } else if self.method is None {
            Some(GrpcCallBuilderError::UninitializedMethod)
        } else {
            None
        }
    }

    /// The call that was described. An upstream, a service and a method
    /// must have been set; what else was not set is empty.
    pub fn build(self) -> (r: Result<GrpcCall<'a, F>, GrpcCallBuilderError>)
        ensures
            self.lacks() matches Some(e) ==> r == Err::<GrpcCall<'a, F>, _>(e),
            self.lacks() is None ==> r is Ok && {
                let call = r->Ok_0;
                &&& call.upstream == self.upstream->0
                &&& call.service == self.service->0
                &&& call.method == self.method->0
                &&& call.initial_metadata@ == match self.initial_metadata {
                    Some(entries) => entries@,
                    None => Seq::empty(),
                }
                &&& call.message == self.message
                &&& call.timeout == self.timeout
                &&& call.callback == self.callback
            },
    {
        let upstream = match self.upstream {
            Some(upstream) => upstream,
            None => {
                return Err(GrpcCallBuilderError::UninitializedUpstream);
            },
        };
        let service = match self.service {
            Some(service) => service,
            None => {
                return Err(GrpcCallBuilderError::UninitializedService);
            },
        };
        let method = match self.method {
            Some(method) => method,
            None => {
                return Err(GrpcCallBuilderError::UninitializedMethod);
            },
        };
        Ok(
            GrpcCall {
                upstream,
                service,
                method,
                initial_metadata: match self.initial_metadata {
                    Some(entries) => entries,
                    None => Vec::new(),
                },
                message: self.message,
                timeout: self.timeout,
                callback: self.callback,
            },
        )
    }
}

impl<'a, F> GrpcCall<'a, F> {
    /// The time that this call waits for its response, in milliseconds.
    pub open spec fn spec_timeout(&self) -> u64 {
        match self.timeout {
            Some(timeout) => timeout,
            None => DEFAULT_TIMEOUT,
        }
    }

    /// Whether `r` and `post` are what sending this call gives from the
    /// dispatcher `pre`, where the host answered `answer`: a refusal is
    /// handed on and nothing is recorded; with a token, the result is the
    /// handle of the call, and the callback, if there is one, is recorded
    /// for the token under the current context.
    pub open spec fn dispatched<T: RootContext + ?Sized, K: Callbacks<Grpc = F>>(
        self,
        pre: DispatcherView<T, K>,
        answer: Result<u32, Status>,
        post: DispatcherView<T, K>,
        r: Result<GrpcCancelHandle, Status>,
    ) -> bool {
        match answer {
            Err(e) => r == Err::<GrpcCancelHandle, _>(e) && post == pre,
            Ok(token) => r is Ok && r->Ok_0.spec_token() == token && post == match self.callback {
                Some(callback) => pre.with_grpc_callback(token, callback),
                None => pre,
            },
        }
    }

    /// Sends this `GrpcCall` over the network: hands it to the host,
    /// through `send`, and records its callback for the token that the
    /// host gives.
    pub fn dispatch<
        T: RootContext + ?Sized,
        K: Callbacks<Grpc = F>,
        S: FnOnce(
            &Vec<u8>,
            &'a str,
            &'a str,
            &Vec<(&'a str, &'a [u8])>,
            Option<&'a [u8]>,
            u64,
        ) -> Result<u32, Status>,
    >(self, dispatcher: &mut Dispatcher<T, K>, send: S) -> (r: Result<GrpcCancelHandle, Status>)
        requires
            call_requires(
                send,
                (
                    &self.upstream.0,
                    self.service,
                    self.method,
                    &self.initial_metadata,
                    self.message,
                    self.spec_timeout(),
                ),
            ),
        ensures
            exists|answer: Result<u32, Status>|
                #[trigger] call_ensures(
                    send,
                    (
                        &self.upstream.0,
                        self.service,
                        self.method,
                        &self.initial_metadata,
                        self.message,
                        self.spec_timeout(),
                    ),
                    answer,
                ) && self.dispatched(old(dispatcher)@, answer, final(dispatcher)@, r),
    {
        let timeout = match self.timeout {
            Some(timeout) => timeout,
            None => DEFAULT_TIMEOUT,
        };
        let token = match send(
            &self.upstream.0,
            self.service,
            self.method,
            &self.initial_metadata,
            self.message,
            timeout,
        ) {
            Ok(token) => token,
            Err(e) => {
                return Err(e);
            },
        };
        if let Some(callback) = self.callback {
            dispatcher.register_grpc_callback(token, callback);
        }
        Ok(GrpcCancelHandle(token))
    }
}

/// GRPC status codes.
#[derive(Clone, Copy, Debug, PartialEq, Eq, Structural, Hash)]
pub enum GrpcCode {
    /// The operation completed successfully.
    Success,
    /// The operation was cancelled.
    Cancelled,
    /// Unknown error.
    Unknown,
    /// Client specified an invalid argument.
    InvalidArgument,
    /// Deadline expired before operation could complete.
    DeadlineExceeded,
    /// Some requested entity was not found.
    NotFound,
    /// Some entity that we attempted to create already exists.
    AlreadyExists,
    /// The caller does not have permission to execute the specified operation.
    PermissionDenied,
    /// Some resource has been exhausted.
    ResourceExhausted,
    /// The system is not in a state required for the operation's execution.
    FailedPrecondition,
    /// The operation was aborted.
    Aborted,
    /// Operation was attempted past the valid range.
    OutOfRange,
    /// Operation is not implemented or not supported.
    Unimplemented,
    /// Internal error.
    Internal,
    /// The service is currently unavailable.
    Unavailable,
    /// Unrecoverable data loss or corruption.
    DataLoss,
    /// The request does not have valid authentication credentials.
    Unauthenticated,
    /// Unknown code.
    Other(u32),
}

impl GrpcCode {
    /// The code that stands for the number `value`: one of the seventeen
    /// named codes for 0 to 16, `Other` with the number for the rest.
    pub open spec fn of(value: u32) -> GrpcCode {
        if value == 0 {
            GrpcCode::Success
        } else if value == 1 {
            GrpcCode::Cancelled
        } else if value == 2 {
            GrpcCode::Unknown
        } else if value == 3 {
            GrpcCode::InvalidArgument
        } else if value == 4 {
            GrpcCode::DeadlineExceeded
        } else if value == 5 {
            GrpcCode::NotFound
        } else if value == 6 {
            GrpcCode::AlreadyExists
        } else if value == 7 {
            GrpcCode::PermissionDenied
        } else if value == 8 {
            GrpcCode::ResourceExhausted
        } else if value == 9 {
            GrpcCode::FailedPrecondition
        } else if value == 10 {
            GrpcCode::Aborted
        } else if value == 11 {
            GrpcCode::OutOfRange
        } else if value == 12 {
            GrpcCode::Unimplemented
        } else if value == 13 {
            GrpcCode::Internal
        } else if value == 14 {
            GrpcCode::Unavailable
        } else if value == 15 {
            GrpcCode::DataLoss
        } else if value == 16 {
            GrpcCode::Unauthenticated
        } else {
            GrpcCode::Other(value)
        }
    }

    /// Whether this code is the one that stands for the number `other`.
    /// `Other` with a number below 17 stands for no number.
    pub fn eq_code(&self, other: u32) -> (r: bool)
        ensures
            r == (*self == GrpcCode::of(other)),
    {
        *self == GrpcCode::from(other)
    }
}

impl From<u32> for GrpcCode {
    fn from(value: u32) -> (r: GrpcCode) {
        match value {
            0 => GrpcCode::Success,
            1 => GrpcCode::Cancelled,
            2 => GrpcCode::Unknown,
            3 => GrpcCode::InvalidArgument,
            4 => GrpcCode::DeadlineExceeded,
            5 => GrpcCode::NotFound,
            6 => GrpcCode::AlreadyExists,
            7 => GrpcCode::PermissionDenied,
            8 => GrpcCode::ResourceExhausted,
            9 => GrpcCode::FailedPrecondition,
            10 => GrpcCode::Aborted,
            11 => GrpcCode::OutOfRange,
            12 => GrpcCode::Unimplemented,
            13 => GrpcCode::Internal,
            14 => GrpcCode::Unavailable,
            15 => GrpcCode::DataLoss,
            16 => GrpcCode::Unauthenticated,
            x => GrpcCode::Other(x),
        }
    }
}

impl vstd::std_specs::convert::FromSpecImpl<u32> for GrpcCode {
    open spec fn obeys_from_spec() -> bool {
        true
    }

    open spec fn from_spec(value: u32) -> GrpcCode {
        GrpcCode::of(value)
    }
}

/// GRPC Call Handle to cancel a request.
#[derive(Debug)]
pub struct GrpcCancelHandle(pub(crate) u32);

impl GrpcCancelHandle {
    /// The token by which the host knows the call.
    pub closed spec fn spec_token(&self) -> u32 {
        self.0
    }

    /// The handle of the call that the host knows by `token`.
    pub fn new(token: u32) -> (r: Self)
        ensures
            r.spec_token() == token,
    {
        GrpcCancelHandle(token)
    }

    /// The token by which the host knows the call.
    pub fn token(&self) -> (r: u32)
        ensures
            r == self.spec_token(),
    {
        self.0
    }

    /// Attempts to cancel the GRPC call: asks the host, through
    /// `cancel_call`, with the token of the call, and hands its answer
    /// back. The local record of the call stays whatever the answer.
    pub fn cancel<F: FnOnce(u32) -> Result<(), Status>>(&self, cancel_call: F) -> (r: Result<
        (),
        Status,
    >)
        requires
            call_requires(cancel_call, (self.spec_token(),)),
        ensures
            call_ensures(cancel_call, (self.spec_token(),), r),
    {
        cancel_call(self.0)
    }

    /// Whether this handle stands for the call with the token `other`.
    pub fn eq_token(&self, other: u32) -> (r: bool)
        ensures
            r == (self.spec_token() == other),
    {
        self.0 == other
    }
}

/// Response type for the callback of a GRPC call.
pub struct GrpcCallResponse {
    handle_id: u32,
    status_code: GrpcCode,
    body_size: usize,
    message: Option<String>,
}

impl GrpcCallResponse {
    /// GRPC handle ID of the response.
    pub closed spec fn spec_handle_id(&self) -> u32 {
        self.handle_id
    }

    /// GRPC status code of the response.
    pub closed spec fn spec_status_code(&self) -> GrpcCode {
        self.status_code
    }

    /// Total size of the response body.
    pub closed spec fn spec_body_size(&self) -> usize {
        self.body_size
    }

    /// Optional GRPC status message of the response.
    pub closed spec fn spec_status_message(&self) -> Option<String> {
        self.message
    }

    /// The view of a response with these four values.
    pub fn new(
        token_id: u32,
        status_code: GrpcCode,
        message: Option<String>,
        body_size: usize,
    ) -> (r: Self)
        ensures
            r.spec_handle_id() == token_id,
            r.spec_status_code() == status_code,
            r.spec_status_message() == message,
            r.spec_body_size() == body_size,
    {
        GrpcCallResponse { handle_id: token_id, status_code, body_size, message }
    }

    /// GRPC handle ID of the response.
    pub fn handle_id(&self) -> (r: u32)
        ensures
            r == self.spec_handle_id(),
    {
        self.handle_id
    }

    /// GRPC status code of the response.
    pub fn status_code(&self) -> (r: GrpcCode)
        ensures
            r == self.spec_status_code(),
    {
        self.status_code
    }

    /// Optional GRPC status message of the response.
    pub fn status_message(&self) -> (r: Option<&str>)
        ensures
            r is Some == self.spec_status_message() is Some,
            r is Some ==> r.unwrap()@ == self.spec_status_message().unwrap()@,
    {
        match &self.message {
            Some(message) => Some(message.as_str()),
            None => None,
        }
    }

    /// Total size of the response body.
    pub fn body_size(&self) -> (r: usize)
        ensures
            r == self.spec_body_size(),
    {
        self.body_size
    }

    /// Get all response headers: what the host, asked through `get_map`,
    /// holds as the headers of the call's response.
    pub fn headers<F: FnOnce(MapType) -> Result<Option<Vec<(String, Vec<u8>)>>, Status>>(
        &self,
        get_map: F,
    ) -> (r: Vec<(String, Vec<u8>)>)
        requires
            call_requires(get_map, (MapType::HttpCallResponseHeaders,)),
        ensures
            exists|answer: Result<Option<Vec<(String, Vec<u8>)>>, Status>|
                #[trigger] call_ensures(get_map, (MapType::HttpCallResponseHeaders,), answer)
                    && r@ == entries_or_none(answer),
    {
        match get_map(MapType::HttpCallResponseHeaders) {
            Ok(Some(entries)) => entries,
            _ => Vec::new(),
        }
    }

    /// Get a specific response header: what the host, asked through
    /// `get_map_value`, holds under `name` among the headers of the call's
    /// response.
    pub fn header<F: FnOnce(MapType, &str) -> Result<Option<Vec<u8>>, Status>>(
        &self,
        name: &str,
        get_map_value: F,
    ) -> (r: Option<Vec<u8>>)
        requires
            call_requires(get_map_value, (MapType::HttpCallResponseHeaders, name)),
        ensures
            exists|answer: Result<Option<Vec<u8>>, Status>|
                #[trigger] call_ensures(
                    get_map_value,
                    (MapType::HttpCallResponseHeaders, name),
                    answer,
                ) && r == value_or_none(answer),
    {
        match get_map_value(MapType::HttpCallResponseHeaders, name) {
            Ok(value) => value,
            Err(_) => None,
        }
    }

    /// Get a range of the response body: what the host, asked through
    /// `get_buffer`, holds of the received message in the part of the body
    /// that the range covers.
    pub fn body<F: FnOnce(BufferType, usize, usize) -> Result<Option<Vec<u8>>, Status>>(
        &self,
        start: RangeBound,
        end: RangeBound,
        get_buffer: F,
    ) -> (r: Option<Vec<u8>>)
        requires
            call_requires(
                get_buffer,
                (
                    BufferType::GrpcReceiveBuffer,
                    range_start_of(start),
                    range_size_of(start, end, self.spec_body_size()),
                ),
            ),
        ensures
            exists|answer: Result<Option<Vec<u8>>, Status>|
                #[trigger] call_ensures(
                    get_buffer,
                    (
                        BufferType::GrpcReceiveBuffer,
                        range_start_of(start),
                        range_size_of(start, end, self.spec_body_size()),
                    ),
                    answer,
                ) && r == value_or_none(answer),
    {
        let (from, size) = calculate_range(start, end, self.body_size);
        match get_buffer(BufferType::GrpcReceiveBuffer, from, size) {
            Ok(value) => value,
            Err(_) => None,
        }
    }

    /// Get the entire response body.
    pub fn full_body<F: FnOnce(BufferType, usize, usize) -> Result<Option<Vec<u8>>, Status>>(
        &self,
        get_buffer: F,
    ) -> (r: Option<Vec<u8>>)
        requires
            call_requires(
                get_buffer,
                (BufferType::GrpcReceiveBuffer, 0usize, self.spec_body_size()),
            ),
        ensures
            exists|answer: Result<Option<Vec<u8>>, Status>|
                #[trigger] call_ensures(
                    get_buffer,
                    (BufferType::GrpcReceiveBuffer, 0usize, self.spec_body_size()),
                    answer,
                ) && r == value_or_none(answer),
    {
        self.body(RangeBound::Unbounded, RangeBound::Unbounded, get_buffer)
    }

    /// Get all response trailers: what the host, asked through `get_map`,
    /// holds as the trailers of the call's response.
    pub fn trailers<F: FnOnce(MapType) -> Result<Option<Vec<(String, Vec<u8>)>>, Status>>(
        &self,
        get_map: F,
    ) -> (r: Vec<(String, Vec<u8>)>)
        requires
            call_requires(get_map, (MapType::HttpCallResponseTrailers,)),
        ensures
            exists|answer: Result<Option<Vec<(String, Vec<u8>)>>, Status>|
                #[trigger] call_ensures(get_map, (MapType::HttpCallResponseTrailers,), answer)
                    && r@ == entries_or_none(answer),
    {
        match get_map(MapType::HttpCallResponseTrailers) {
            Ok(Some(entries)) => entries,
            _ => Vec::new(),
        }
    }

    /// Get a specific response trailer: what the host, asked through
    /// `get_map_value`, holds under `name` among the trailers of the call's
    /// response.
    pub fn trailer<F: FnOnce(MapType, &str) -> Result<Option<Vec<u8>>, Status>>(
        &self,
        name: &str,
        get_map_value: F,
    ) -> (r: Option<Vec<u8>>)
        requires
            call_requires(get_map_value, (MapType::HttpCallResponseTrailers, name)),
        ensures
            exists|answer: Result<Option<Vec<u8>>, Status>|
                #[trigger] call_ensures(
                    get_map_value,
                    (MapType::HttpCallResponseTrailers, name),
                    answer,
                ) && r == value_or_none(answer),
    {
        match get_map_value(MapType::HttpCallResponseTrailers, name) {
            Ok(value) => value,
            Err(_) => None,
        }
    }
}

} // verus!
