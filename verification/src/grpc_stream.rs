use crate::calculate_range;
use crate::context::RootContext;
use crate::dispatcher::{Callbacks, Dispatcher, DispatcherView, GrpcStreamCallback};
use crate::grpc_call::GrpcCode;
use crate::upstream::Upstream;
use crate::hostcalls::{BufferType, MapType};
use crate::http::{entries_or_none, range_size_of, range_start_of, value_or_none};
use crate::status::Status;
use crate::RangeBound;
use vstd::prelude::*;

verus! {

/// Outbound GRPC stream (bidirectional).
pub struct GrpcStream<'a, K: Callbacks> {
    /// Upstream cluster to send the request to.
    pub cluster: Upstream,
    /// The GRPC service to call.
    pub service: &'a str,
    /// The GRPC service method to call.
    pub method: &'a str,
    /// Initial GRPC metadata to send with the request.
    pub initial_metadata: Vec<(&'a str, &'a [u8])>,
    /// Callback to call when the server sends initial metadata.
    pub on_initial_metadata: Option<K::StreamInitialMetadata>,
    /// Callback to call when the server sends a stream message.
    pub on_message: Option<K::StreamMessage>,
    /// Callback to call when the server sends trailing metadata.
    pub on_trailing_metadata: Option<K::StreamTrailingMetadata>,
    /// Callback to call when the stream closes.
    pub on_close: Option<K::StreamClose>,
}

/// What a builder lacks to make a stream.
#[derive(Debug, Clone, Copy, PartialEq, Eq, Structural)]
pub enum GrpcStreamBuilderError {
    /// No cluster was set.
    UninitializedCluster,
    /// No service was set.
    UninitializedService,
    /// No method was set.
    UninitializedMethod,
}

/// Builder for [`GrpcStream`].
pub struct GrpcStreamBuilder<'a, K: Callbacks> {
    pub cluster: Option<Upstream>,
    pub service: Option<&'a str>,
    pub method: Option<&'a str>,
    pub initial_metadata: Option<Vec<(&'a str, &'a [u8])>>,
    pub on_initial_metadata: Option<K::StreamInitialMetadata>,
    pub on_message: Option<K::StreamMessage>,
    pub on_trailing_metadata: Option<K::StreamTrailingMetadata>,
    pub on_close: Option<K::StreamClose>,
}

impl<'a, K: Callbacks> GrpcStreamBuilder<'a, K> {
    /// A builder with nothing set.
    pub fn new() -> (r: Self)
        ensures
            r.cluster is None,
            r.service is None,
            r.method is None,
            r.initial_metadata is None,
            r.on_initial_metadata is None,
            r.on_message is None,
            r.on_trailing_metadata is None,
            r.on_close is None,
    {
        GrpcStreamBuilder {
            cluster: None,
            service: None,
            method: None,
            initial_metadata: None,
            on_initial_metadata: None,
            on_message: None,
            on_trailing_metadata: None,
            on_close: None,
        }
    }

    /// Upstream cluster to send the request to.
    pub fn cluster(self, value: Upstream) -> (r: Self)
        ensures
            r == (GrpcStreamBuilder { cluster: Some(value), ..self }),
    {
        let mut new = self;
        new.cluster = Some(value);
        new
    }

    /// The GRPC service to call.
    pub fn service(self, value: &'a str) -> (r: Self)
        ensures
            r == (GrpcStreamBuilder { service: Some(value), ..self }),
    {
        let mut new = self;
        new.service = Some(value);
        new
    }

    /// The GRPC service method to call.
    pub fn method(self, value: &'a str) -> (r: Self)
        ensures
            r == (GrpcStreamBuilder { method: Some(value), ..self }),
    {
        let mut new = self;
        new.method = Some(value);
        new
    }

    /// Initial GRPC metadata to send with the request, in place of what
    /// was set before.
    pub fn initial_metadata(self, value: Vec<(&'a str, &'a [u8])>) -> (r: Self)
        ensures
            r == (GrpcStreamBuilder { initial_metadata: Some(value), ..self }),
    {
        let mut new = self;
        new.initial_metadata = Some(value);
        new
    }

    /// One more entry of initial GRPC metadata to send with the request.
    pub fn metadata(self, name: &'a str, value: &'a [u8]) -> (r: Self)
        ensures
            r.initial_metadata is Some,
            r.initial_metadata->0@ == (match self.initial_metadata {
                Some(entries) => entries@,
                None => Seq::empty(),
            }).push((name, value)),
            r.cluster == self.cluster,
            r.service == self.service,
            r.method == self.method,
            r.on_initial_metadata == self.on_initial_metadata,
            r.on_message == self.on_message,
            r.on_trailing_metadata == self.on_trailing_metadata,
            r.on_close == self.on_close,
    {
        let mut new = self;
        let mut entries = match new.initial_metadata {
            Some(entries) => entries,
            None => Vec::new(),
        };
        entries.push((name, value));
        new.initial_metadata = Some(entries);
        new
    }

    /// Set an initial metadata callback.
    pub fn on_initial_metadata(self, callback: K::StreamInitialMetadata) -> (r: Self)
        ensures
            r == (GrpcStreamBuilder { on_initial_metadata: Some(callback), ..self }),
    {
        let mut new = self;
        new.on_initial_metadata = Some(callback);
        new
    }

    /// Set a stream message callback.
    pub fn on_message(self, callback: K::StreamMessage) -> (r: Self)
        ensures
            r == (GrpcStreamBuilder { on_message: Some(callback), ..self }),
    {
        let mut new = self;
        new.on_message = Some(callback);
        new
    }

    /// Set a trailing metadata callback.
    pub fn on_trailing_metadata(self, callback: K::StreamTrailingMetadata) -> (r: Self)
        ensures
            r == (GrpcStreamBuilder { on_trailing_metadata: Some(callback), ..self }),
    {
        let mut new = self;
        new.on_trailing_metadata = Some(callback);
        new
    }

    /// Set a stream close callback.
    pub fn on_close(self, callback: K::StreamClose) -> (r: Self)
        ensures
            r == (GrpcStreamBuilder { on_close: Some(callback), ..self }),
    {
        let mut new = self;
        new.on_close = Some(callback);
        new
    }

    /// What this builder lacks to make a stream, if anything: the first of
    /// cluster, service and method that was not set.
    pub open spec fn lacks(self) -> Option<GrpcStreamBuilderError> {
        if self.cluster is None {
            Some(GrpcStreamBuilderError::UninitializedCluster)
        } else if self.service is None {
            Some(GrpcStreamBuilderError::UninitializedService)
        } else if self.method is None {
            Some(GrpcStreamBuilderError::UninitializedMethod)
        } else {
            None
        }
    }

    /// The stream that was described. A cluster, a service and a method
    /// must have been set; what else was not set is empty.
    pub fn build(self) -> (r: Result<GrpcStream<'a, K>, GrpcStreamBuilderError>)
        ensures
            self.lacks() matches Some(e) ==> r == Err::<GrpcStream<'a, K>, _>(e),
            self.lacks() is None ==> r is Ok && {
                let stream = r->Ok_0;
                &&& stream.cluster == self.cluster->0
                &&& stream.service == self.service->0
                &&& stream.method == self.method->0
                &&& stream.initial_metadata@ == match self.initial_metadata {
                    Some(entries) => entries@,
                    None => Seq::empty(),
                }
                &&& stream.on_initial_metadata == self.on_initial_metadata
                &&& stream.on_message == self.on_message
                &&& stream.on_trailing_metadata == self.on_trailing_metadata
                &&& stream.on_close == self.on_close
            },
    {
        let cluster = match self.cluster {
            Some(cluster) => cluster,
            None => {
                return Err(GrpcStreamBuilderError::UninitializedCluster);
            },
        };
        let service = match self.service {
            Some(service) => service,
            None => {
                return Err(GrpcStreamBuilderError::UninitializedService);
            },
        };
        let method = match self.method {
            Some(method) => method,
            None => {
                return Err(GrpcStreamBuilderError::UninitializedMethod);
            },
        };
        Ok(
            GrpcStream {
                cluster,
                service,
                method,
                initial_metadata: match self.initial_metadata {
                    Some(entries) => entries,
                    None => Vec::new(),
                },
                on_initial_metadata: self.on_initial_metadata,
                on_message: self.on_message,
                on_trailing_metadata: self.on_trailing_metadata,
                on_close: self.on_close,
            },
        )
    }
}

impl<'a, K: Callbacks> GrpcStream<'a, K> {
    /// The dispatcher `pre` after the callbacks of this stream were
    /// recorded for `token`, each in its turn: initial metadata, message,
    /// trailing metadata, close. A stream that another context opened is
    /// left as it is.
    pub open spec fn recorded<T: RootContext + ?Sized>(
        self,
        pre: DispatcherView<T, K>,
        token: u32,
    ) -> DispatcherView<T, K> {
        let first = match self.on_initial_metadata {
            Some(callback) => pre.with_stream_entry(
                token,
                GrpcStreamCallback { initial_meta: Some(callback), ..pre.stream_entry(token) },
            ),
            None => pre,
        };
        let second = match self.on_message {
            Some(callback) => first.with_stream_entry(
                token,
                GrpcStreamCallback { message: Some(callback), ..first.stream_entry(token) },
            ),
            None => first,
        };
        let third = match self.on_trailing_metadata {
            Some(callback) => second.with_stream_entry(
                token,
                GrpcStreamCallback { trailer_meta: Some(callback), ..second.stream_entry(token) },
            ),
            None => second,
        };
        match self.on_close {
            Some(callback) => third.with_stream_entry(
                token,
                GrpcStreamCallback { close: Some(callback), ..third.stream_entry(token) },
            ),
            None => third,
        }
    }

    /// Whether `r` and `post` are what opening this stream gives from the
    /// dispatcher `pre`, where the host answered `answer`: a refusal is
    /// handed on and nothing is recorded; with a token, the result is the
    /// handle of the stream, and its callbacks are recorded for the token
    /// under the current context.
    pub open spec fn opened<T: RootContext + ?Sized>(
        self,
        pre: DispatcherView<T, K>,
        answer: Result<u32, Status>,
        post: DispatcherView<T, K>,
        r: Result<GrpcStreamHandle, Status>,
    ) -> bool {
        match answer {
            Err(e) => r == Err::<GrpcStreamHandle, _>(e) && post == pre,
            Ok(token) => r == Ok::<_, Status>(GrpcStreamHandle(token)) && post == self.recorded(
                pre,
                token,
            ),
        }
    }

    /// Open a new outbound GRPC stream: hands it to the host, through
    /// `open_stream`, and records its callbacks for the token that the
    /// host gives.
    pub fn open<
        T: RootContext + ?Sized,
        S: FnOnce(&Vec<u8>, &'a str, &'a str, &Vec<(&'a str, &'a [u8])>) -> Result<u32, Status>,
    >(self, dispatcher: &mut Dispatcher<T, K>, open_stream: S) -> (r: Result<
        GrpcStreamHandle,
        Status,
    >)
        requires
            call_requires(
                open_stream,
                (&self.cluster.0, self.service, self.method, &self.initial_metadata),
            ),
        ensures
            exists|answer: Result<u32, Status>|
                #[trigger] call_ensures(
                    open_stream,
                    (&self.cluster.0, self.service, self.method, &self.initial_metadata),
                    answer,
                ) && self.opened(old(dispatcher)@, answer, final(dispatcher)@, r),
    {
        let token = match open_stream(
            &self.cluster.0,
            self.service,
            self.method,
            &self.initial_metadata,
        ) {
            Ok(token) => token,
            Err(e) => {
                return Err(e);
            },
        };
        if let Some(callback) = self.on_initial_metadata {
            dispatcher.register_grpc_stream_initial_meta(token, callback);
        }
        if let Some(callback) = self.on_message {
            dispatcher.register_grpc_stream_message(token, callback);
        }
        if let Some(callback) = self.on_trailing_metadata {
            dispatcher.register_grpc_stream_trailing_metadata(token, callback);
        }
        if let Some(callback) = self.on_close {
            dispatcher.register_grpc_stream_close(token, callback);
        }
        Ok(GrpcStreamHandle(token))
    }
}

/// GRPC stream handle to cancel, close, or send a message over a GRPC
/// stream.
#[derive(Clone, Copy, PartialEq, Eq, Structural)]
pub struct GrpcStreamHandle(pub u32);

impl GrpcStreamHandle {
    /// Attempts to cancel the GRPC stream: asks the host, through
    /// `cancel_stream`, with the token of the stream, and hands its answer
    /// back. The local record of the stream stays whatever the answer.
    pub fn cancel<F: FnOnce(u32) -> Result<(), Status>>(&self, cancel_stream: F) -> (r: Result<
        (),
        Status,
    >)
        requires
            call_requires(cancel_stream, (self.0,)),
        ensures
            call_ensures(cancel_stream, (self.0,), r),
    {
        cancel_stream(self.0)
    }

    /// Closes the GRPC stream: asks the host, through `close_stream`, with
    /// the token of the stream, and hands its answer back. The local
    /// record of the stream stays until the host reports the close.
    pub fn close<F: FnOnce(u32) -> Result<(), Status>>(&self, close_stream: F) -> (r: Result<
        (),
        Status,
    >)
        requires
            call_requires(close_stream, (self.0,)),
        ensures
            call_ensures(close_stream, (self.0,), r),
    {
        close_stream(self.0)
    }

    /// Sends a message over the GRPC stream: hands the token, the message
    /// and the flag to the host, through `send_message`, and its answer
    /// back.
    pub fn send<F: FnOnce(u32, Option<&[u8]>, bool) -> Result<(), Status>>(
        &self,
        message: Option<&[u8]>,
        end_stream: bool,
        send_message: F,
    ) -> (r: Result<(), Status>)
        requires
            call_requires(send_message, (self.0, message, end_stream)),
        ensures
            call_ensures(send_message, (self.0, message, end_stream), r),
    {
        send_message(self.0, message, end_stream)
    }

    /// Whether this handle stands for the stream with the token `other`.
    pub fn eq_token(&self, other: u32) -> (r: bool)
        ensures
            r == (self.0 == other),
    {
        self.0 == other
    }
}

/// Response type for the initial metadata callback of a GRPC stream.
pub struct GrpcStreamInitialMetadata {
    num_elements: usize,
}

impl GrpcStreamInitialMetadata {
    /// Number of metadata elements.
    pub closed spec fn spec_num_elements(&self) -> usize {
        self.num_elements
    }

    /// The view of metadata with this many elements.
    pub fn new(num_elements: usize) -> (r: Self)
        ensures
            r.spec_num_elements() == num_elements,
    {
        GrpcStreamInitialMetadata { num_elements }
    }

    /// Number of metadata elements.
    pub fn num_elements(&self) -> (r: usize)
        ensures
            r == self.spec_num_elements(),
    {
        self.num_elements
    }

    /// Get all metadata elements: what the host, asked through `get_map`,
    /// holds as the initial metadata received.
    pub fn all<F: FnOnce(MapType) -> Result<Option<Vec<(String, Vec<u8>)>>, Status>>(
        &self,
        get_map: F,
    ) -> (r: Vec<(String, Vec<u8>)>)
        requires
            call_requires(get_map, (MapType::GrpcReceiveInitialMetadata,)),
        ensures
            exists|answer: Result<Option<Vec<(String, Vec<u8>)>>, Status>|
                #[trigger] call_ensures(get_map, (MapType::GrpcReceiveInitialMetadata,), answer)
                    && r@ == entries_or_none(answer),
    {
        match get_map(MapType::GrpcReceiveInitialMetadata) {
            Ok(Some(entries)) => entries,
            _ => Vec::new(),
        }
    }

    /// Get a specific metadata element: what the host, asked through
    /// `get_map_value`, holds under `name` in the initial metadata
    /// received.
    pub fn value<F: FnOnce(MapType, &str) -> Result<Option<Vec<u8>>, Status>>(
        &self,
        name: &str,
        get_map_value: F,
    ) -> (r: Option<Vec<u8>>)
        requires
            call_requires(get_map_value, (MapType::GrpcReceiveInitialMetadata, name)),
        ensures
            exists|answer: Result<Option<Vec<u8>>, Status>|
                #[trigger] call_ensures(
                    get_map_value,
                    (MapType::GrpcReceiveInitialMetadata, name),
                    answer,
                ) && r == value_or_none(answer),
    {
        match get_map_value(MapType::GrpcReceiveInitialMetadata, name) {
            Ok(value) => value,
            Err(_) => None,
        }
    }
}

/// Response type for the message callback of a GRPC stream.
pub struct GrpcStreamMessage {
    status_code: GrpcCode,
    body_size: usize,
    message: Option<String>,
}

impl GrpcStreamMessage {
    /// GRPC status code of the message.
    pub closed spec fn spec_status_code(&self) -> GrpcCode {
        self.status_code
    }

    /// Total size of the message body.
    pub closed spec fn spec_body_size(&self) -> usize {
        self.body_size
    }

    /// Optional GRPC status message of the message.
    pub closed spec fn spec_status_message(&self) -> Option<String> {
        self.message
    }

    /// The view of a message with these three values.
    pub fn new(status_code: GrpcCode, message: Option<String>, body_size: usize) -> (r: Self)
        ensures
            r.spec_status_code() == status_code,
            r.spec_status_message() == message,
            r.spec_body_size() == body_size,
    {
        GrpcStreamMessage { status_code, body_size, message }
    }

    /// GRPC status code of the message.
    pub fn status_code(&self) -> (r: GrpcCode)
        ensures
            r == self.spec_status_code(),
    {
        self.status_code
    }

    /// Optional GRPC status message of the message.
    pub fn status_message(&self) -> (r: Option<&str>)
        ensures
            r is Some == self.spec_status_message() is Some,
            r is Some ==> r.unwrap()@ == self.spec_status_message().unwrap()@,
    {
        match &self.message {
            Some(message) => Some(message.as_str()),
            None => None,
        }
    }

    /// Total size of the message body.
    pub fn body_size(&self) -> (r: usize)
        ensures
            r == self.spec_body_size(),
    {
        self.body_size
    }

    /// Get a range of the message body: what the host, asked through
    /// `get_buffer`, holds of the received message in the part of the body
    /// that the range covers.
    pub fn body<F: FnOnce(BufferType, usize, usize) -> Result<Option<Vec<u8>>, Status>>(
        &self,
        start: RangeBound,
        end: RangeBound,
        get_buffer: F,
    ) -> (r: Option<Vec<u8>>)
        requires
            call_requires(
                get_buffer,
                (
                    BufferType::GrpcReceiveBuffer,
                    range_start_of(start),
                    range_size_of(start, end, self.spec_body_size()),
                ),
            ),
        ensures
            exists|answer: Result<Option<Vec<u8>>, Status>|
                #[trigger] call_ensures(
                    get_buffer,
                    (
                        BufferType::GrpcReceiveBuffer,
                        range_start_of(start),
                        range_size_of(start, end, self.spec_body_size()),
                    ),
                    answer,
                ) && r == value_or_none(answer),
    {
        let (from, size) = calculate_range(start, end, self.body_size);
        match get_buffer(BufferType::GrpcReceiveBuffer, from, size) {
            Ok(value) => value,
            Err(_) => None,
        }
    }

    /// Get the entire message body.
    pub fn full_body<F: FnOnce(BufferType, usize, usize) -> Result<Option<Vec<u8>>, Status>>(
        &self,
        get_buffer: F,
    ) -> (r: Option<Vec<u8>>)
        requires
            call_requires(
                get_buffer,
                (BufferType::GrpcReceiveBuffer, 0usize, self.spec_body_size()),
            ),
        ensures
            exists|answer: Result<Option<Vec<u8>>, Status>|
                #[trigger] call_ensures(
                    get_buffer,
                    (BufferType::GrpcReceiveBuffer, 0usize, self.spec_body_size()),
                    answer,
                ) && r == value_or_none(answer),
    {
        self.body(RangeBound::Unbounded, RangeBound::Excluded(self.body_size), get_buffer)
    }
}

/// Response type for the trailing metadata callback of a GRPC stream.
pub struct GrpcStreamTrailingMetadata {
    num_elements: usize,
}

impl GrpcStreamTrailingMetadata {
    /// Number of metadata elements.
    pub closed spec fn spec_num_elements(&self) -> usize {
        self.num_elements
    }

    /// The view of metadata with this many elements.
    pub fn new(num_elements: usize) -> (r: Self)
        ensures
            r.spec_num_elements() == num_elements,
    {
        GrpcStreamTrailingMetadata { num_elements }
    }

    /// Number of metadata elements.
    pub fn num_elements(&self) -> (r: usize)
        ensures
            r == self.spec_num_elements(),
    {
        self.num_elements
    }

    /// Get all metadata elements: what the host, asked through `get_map`,
    /// holds as the trailing metadata received.
    pub fn all<F: FnOnce(MapType) -> Result<Option<Vec<(String, Vec<u8>)>>, Status>>(
        &self,
        get_map: F,
    ) -> (r: Vec<(String, Vec<u8>)>)
        requires
            call_requires(get_map, (MapType::GrpcReceiveTrailingMetadata,)),
        ensures
            exists|answer: Result<Option<Vec<(String, Vec<u8>)>>, Status>|
                #[trigger] call_ensures(get_map, (MapType::GrpcReceiveTrailingMetadata,), answer)
                    && r@ == entries_or_none(answer),
    {
        match get_map(MapType::GrpcReceiveTrailingMetadata) {
            Ok(Some(entries)) => entries,
            _ => Vec::new(),
        }
    }

    /// Get a specific metadata element: what the host, asked through
    /// `get_map_value`, holds under `name` in the trailing metadata
    /// received.
    pub fn value<F: FnOnce(MapType, &str) -> Result<Option<Vec<u8>>, Status>>(
        &self,
        name: &str,
        get_map_value: F,
    ) -> (r: Option<Vec<u8>>)
        requires
            call_requires(get_map_value, (MapType::GrpcReceiveTrailingMetadata, name)),
        ensures
            exists|answer: Result<Option<Vec<u8>>, Status>|
                #[trigger] call_ensures(
                    get_map_value,
                    (MapType::GrpcReceiveTrailingMetadata, name),
                    answer,
                ) && r == value_or_none(answer),
    {
        match get_map_value(MapType::GrpcReceiveTrailingMetadata, name) {
            Ok(value) => value,
            Err(_) => None,
        }
    }
}

/// Response type for the close callback of a GRPC stream.
pub struct GrpcStreamClose {
    handle_id: u32,
    status_code: GrpcCode,
    message: Option<String>,
}

impl GrpcStreamClose {
    /// GRPC handle ID of the stream.
    pub closed spec fn spec_handle_id(&self) -> u32 {
        self.handle_id
    }

    /// GRPC status code of the close.
    pub closed spec fn spec_status_code(&self) -> GrpcCode {
        self.status_code
    }

    /// Optional GRPC status message of the close.
    pub closed spec fn spec_status_message(&self) -> Option<String> {
        self.message
    }

    /// The view of a close with these three values.
    pub fn new(token_id: u32, status_code: GrpcCode, message: Option<String>) -> (r: Self)
        ensures
            r.spec_handle_id() == token_id,
            r.spec_status_code() == status_code,
            r.spec_status_message() == message,
    {
        GrpcStreamClose { handle_id: token_id, status_code, message }
    }

    /// GRPC handle ID of the stream.
    pub fn handle_id(&self) -> (r: u32)
        ensures
            r == self.spec_handle_id(),
    {
        self.handle_id
    }

    /// GRPC status code of the close.
    pub fn status_code(&self) -> (r: GrpcCode)
        ensures
            r == self.spec_status_code(),
    {
        self.status_code
    }

    /// Optional GRPC status message of the close.
    pub fn status_message(&self) -> (r: Option<&str>)
        ensures
            r is Some == self.spec_status_message() is Some,
            r is Some ==> r.unwrap()@ == self.spec_status_message().unwrap()@,
    {
        match &self.message {
            Some(message) => Some(message.as_str()),
            None => None,
        }
    }
}

} // verus!
