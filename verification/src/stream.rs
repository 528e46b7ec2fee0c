use crate::calculate_range;
use crate::context::BaseContext;
use crate::hostcalls;
use crate::hostcalls::BufferType;
use crate::http::{range_size_of, range_start_of, value_or_none};
use crate::property::envoy::Attributes;
use crate::status::Status;
use crate::RangeBound;
use vstd::prelude::*;

verus! {

/// Defines control functions for streams.
pub trait StreamControl {
    /// Retrieve attributes for the stream data.
    fn attributes(&self) -> &Attributes;

    /// Asks the host, through `continue_stream`, to resume the downstream.
    /// Its answer is handed back.
    fn resume_downstream<F: FnOnce(hostcalls::StreamType) -> Result<(), Status>>(
        &self,
        continue_stream: F,
    ) -> (r: Result<(), Status>)
        requires
            call_requires(continue_stream, (hostcalls::StreamType::Downstream,)),
        ensures
            call_ensures(continue_stream, (hostcalls::StreamType::Downstream,), r),
    {
        continue_stream(hostcalls::StreamType::Downstream)
    }

    /// Asks the host, through `close_stream`, to close the downstream.
    /// Its answer is handed back.
    fn close_downstream<F: FnOnce(hostcalls::StreamType) -> Result<(), Status>>(
        &self,
        close_stream: F,
    ) -> (r: Result<(), Status>)
        requires
            call_requires(close_stream, (hostcalls::StreamType::Downstream,)),
        ensures
            call_ensures(close_stream, (hostcalls::StreamType::Downstream,), r),
    {
        close_stream(hostcalls::StreamType::Downstream)
    }

    /// Asks the host, through `continue_stream`, to resume the upstream.
    /// Its answer is handed back.
    fn resume_upstream<F: FnOnce(hostcalls::StreamType) -> Result<(), Status>>(
        &self,
        continue_stream: F,
    ) -> (r: Result<(), Status>)
        requires
            call_requires(continue_stream, (hostcalls::StreamType::Upstream,)),
        ensures
            call_ensures(continue_stream, (hostcalls::StreamType::Upstream,), r),
    {
        continue_stream(hostcalls::StreamType::Upstream)
    }

    /// Asks the host, through `close_stream`, to close the upstream.
    /// Its answer is handed back.
    fn close_upstream<F: FnOnce(hostcalls::StreamType) -> Result<(), Status>>(
        &self,
        close_stream: F,
    ) -> (r: Result<(), Status>)
        requires
            call_requires(close_stream, (hostcalls::StreamType::Upstream,)),
        ensures
            call_ensures(close_stream, (hostcalls::StreamType::Upstream,), r),
    {
        close_stream(hostcalls::StreamType::Upstream)
    }
}

/// Defines functions to interact with stream data.
pub trait StreamDataControl {
    /// Upstream or Downstream.
    spec fn spec_stream_type() -> StreamType;

    /// Upstream or Downstream.
    fn stream_type() -> (r: StreamType)
        ensures
            r == Self::spec_stream_type(),
    ;

    /// Length of this chunk of data.
    spec fn spec_data_size(&self) -> usize;

    /// Length of this chunk of data.
    fn data_size(&self) -> (r: usize)
        ensures
            r == self.spec_data_size(),
    ;

    /// If true, this will be the last data of its direction for this
    /// context.
    spec fn spec_end_of_stream(&self) -> bool;

    /// If true, this will be the last data of its direction for this
    /// context.
    fn end_of_stream(&self) -> (r: bool)
        ensures
            r == self.spec_end_of_stream(),
    ;

    /// Get all data.
    fn all<F: FnOnce(BufferType, usize, usize) -> Result<Option<Vec<u8>>, Status>>(
        &self,
        get_buffer: F,
    ) -> (r: Option<Vec<u8>>)
        requires
            call_requires(
                get_buffer,
                (Self::spec_stream_type().spec_buffer(), 0usize, self.spec_data_size()),
            ),
        ensures
            exists|answer: Result<Option<Vec<u8>>, Status>|
                #[trigger] call_ensures(
                    get_buffer,
                    (Self::spec_stream_type().spec_buffer(), 0usize, self.spec_data_size()),
                    answer,
                ) && r == value_or_none(answer),
    {
        self.get(RangeBound::Unbounded, RangeBound::Unbounded, get_buffer)
    }

    /// Get a range of data: what the host, asked through `get_buffer`,
    /// holds of the data of this direction in the part of the chunk that
    /// the range covers.
    fn get<F: FnOnce(BufferType, usize, usize) -> Result<Option<Vec<u8>>, Status>>(
        &self,
        start: RangeBound,
        end: RangeBound,
        get_buffer: F,
    ) -> (r: Option<Vec<u8>>)
        requires
            call_requires(
                get_buffer,
                (
                    Self::spec_stream_type().spec_buffer(),
                    range_start_of(start),
                    range_size_of(start, end, self.spec_data_size()),
                ),
            ),
        ensures
            exists|answer: Result<Option<Vec<u8>>, Status>|
                #[trigger] call_ensures(
                    get_buffer,
                    (
                        Self::spec_stream_type().spec_buffer(),
                        range_start_of(start),
                        range_size_of(start, end, self.spec_data_size()),
                    ),
                    answer,
                ) && r == value_or_none(answer),
    {
        let (from, size) = calculate_range(start, end, self.data_size());
        match get_buffer(Self::stream_type().buffer(), from, size) {
            Ok(value) => value,
            Err(_) => None,
        }
    }

    /// Replace a range of data with `value`, through `set_buffer`, and
    /// hands the answer of the host back.
    fn set<F: FnOnce(BufferType, usize, usize, &[u8]) -> Result<(), Status>>(
        &self,
        start: RangeBound,
        end: RangeBound,
        value: &[u8],
        set_buffer: F,
    ) -> (r: Result<(), Status>)
        requires
            call_requires(
                set_buffer,
                (
                    Self::spec_stream_type().spec_buffer(),
                    range_start_of(start),
                    range_size_of(start, end, self.spec_data_size()),
                    value,
                ),
            ),
        ensures
            call_ensures(
                set_buffer,
                (
                    Self::spec_stream_type().spec_buffer(),
                    range_start_of(start),
                    range_size_of(start, end, self.spec_data_size()),
                    value,
                ),
                r,
            ),
    {
        let (from, size) = calculate_range(start, end, self.data_size());
        set_buffer(Self::stream_type().buffer(), from, size, value)
    }

    /// Replace the entire data with `value`.
    fn replace<F: FnOnce(BufferType, usize, usize, &[u8]) -> Result<(), Status>>(
        &self,
        value: &[u8],
        set_buffer: F,
    ) -> (r: Result<(), Status>)
        requires
            call_requires(
                set_buffer,
                (Self::spec_stream_type().spec_buffer(), 0usize, self.spec_data_size(), value),
            ),
        ensures
            call_ensures(
                set_buffer,
                (Self::spec_stream_type().spec_buffer(), 0usize, self.spec_data_size(), value),
                r,
            ),
    {
        self.set(RangeBound::Unbounded, RangeBound::Unbounded, value, set_buffer)
    }

    /// Clear the data: replace it with no bytes.
    fn clear<F: FnOnce(BufferType, usize, usize, &[u8]) -> Result<(), Status>>(
        &self,
        set_buffer: F,
    ) -> (r: Result<(), Status>)
        requires
            forall|value: &[u8]|
                value@.len() == 0 ==> #[trigger] call_requires(
                    set_buffer,
                    (
                        Self::spec_stream_type().spec_buffer(),
                        0usize,
                        self.spec_data_size(),
                        value,
                    ),
                ),
        ensures
            exists|value: &[u8]|
                value@.len() == 0 && #[trigger] call_ensures(
                    set_buffer,
                    (
                        Self::spec_stream_type().spec_buffer(),
                        0usize,
                        self.spec_data_size(),
                        value,
                    ),
                    r,
                ),
    {
        let empty: Vec<u8> = Vec::new();
        self.replace(empty.as_slice(), set_buffer)
    }
}

/// Return status for stream callbacks.
#[derive(Copy, Clone, PartialEq, Eq, Structural, Hash, Debug)]
#[non_exhaustive]
pub enum FilterStreamStatus {
    Continue,
    StopIteration,
}

impl FilterStreamStatus {
    /// The number that the host reads this status as.
    pub open spec fn spec_code(self) -> usize {
        match self {
            FilterStreamStatus::Continue => 0,
            FilterStreamStatus::StopIteration => 1,
        }
    }

    /// The number that the host reads this status as.
    pub fn code(self) -> (r: usize)
        ensures
            r == self.spec_code(),
    {
        match self {
            FilterStreamStatus::Continue => 0,
            FilterStreamStatus::StopIteration => 1,
        }
    }
}

/// The direction of stream data.
#[derive(Copy, Clone, PartialEq, Eq, Structural, Debug)]
pub enum StreamType {
    Upstream,
    Downstream,
}

impl StreamType {
    /// The host buffer that holds the data of this direction.
    pub open spec fn spec_buffer(self) -> BufferType {
        match self {
            StreamType::Upstream => BufferType::UpstreamData,
            StreamType::Downstream => BufferType::DownstreamData,
        }
    }

    /// Label under which a failed read of the data is reported.
    pub fn get(&self) -> (r: &'static str)
        ensures
            r@ == match *self {
                StreamType::Upstream => "get-upstream-data"@,
                StreamType::Downstream => "get-downstream-data"@,
            },
    {
        match self {
            StreamType::Upstream => "get-upstream-data",
            StreamType::Downstream => "get-downstream-data",
        }
    }

    /// Label under which a failed write of the data is reported.
    pub fn set(&self) -> (r: &'static str)
        ensures
            r@ == match *self {
                StreamType::Upstream => "set-upstream-data"@,
                StreamType::Downstream => "set-downstream-data"@,
            },
    {
        match self {
            StreamType::Upstream => "set-upstream-data",
            StreamType::Downstream => "set-downstream-data",
        }
    }

    /// The host buffer that holds the data of this direction.
    pub fn buffer(&self) -> (r: BufferType)
        ensures
            r == self.spec_buffer(),
    {
        match self {
            StreamType::Upstream => BufferType::UpstreamData,
            StreamType::Downstream => BufferType::DownstreamData,
        }
    }
}

/// Upstream data reference for a Stream filter.
pub struct UpstreamData {
    pub(crate) data_size: usize,
    pub(crate) end_of_stream: bool,
    pub(crate) attributes: Attributes,
}

impl UpstreamData {
    /// The view of a chunk of this size, the last or not.
    pub(crate) fn new(data_size: usize, end_of_stream: bool) -> (r: Self)
        ensures
            r.spec_data_size() == data_size,
            r.spec_end_of_stream() == end_of_stream,
    {
        UpstreamData { data_size, end_of_stream, attributes: Attributes::get() }
    }
}

impl StreamControl for UpstreamData {
    fn attributes(&self) -> &Attributes {
        &self.attributes
    }
}

impl StreamDataControl for UpstreamData {
    open spec fn spec_stream_type() -> StreamType {
        StreamType::Upstream
    }

    fn stream_type() -> (r: StreamType) {
        StreamType::Upstream
    }

    closed spec fn spec_data_size(&self) -> usize {
        self.data_size
    }

    fn data_size(&self) -> (r: usize) {
        self.data_size
    }

    closed spec fn spec_end_of_stream(&self) -> bool {
        self.end_of_stream
    }

    fn end_of_stream(&self) -> (r: bool) {
        self.end_of_stream
    }
}

/// Downstream data reference for a Stream filter.
pub struct DownstreamData {
    pub(crate) data_size: usize,
    pub(crate) end_of_stream: bool,
    pub(crate) attributes: Attributes,
}

impl DownstreamData {
    /// The view of a chunk of this size, the last or not.
    pub(crate) fn new(data_size: usize, end_of_stream: bool) -> (r: Self)
        ensures
            r.spec_data_size() == data_size,
            r.spec_end_of_stream() == end_of_stream,
    {
        DownstreamData { data_size, end_of_stream, attributes: Attributes::get() }
    }
}

impl StreamControl for DownstreamData {
    fn attributes(&self) -> &Attributes {
        &self.attributes
    }
}

impl StreamDataControl for DownstreamData {
    open spec fn spec_stream_type() -> StreamType {
        StreamType::Downstream
    }

    fn stream_type() -> (r: StreamType) {
        StreamType::Downstream
    }

    closed spec fn spec_data_size(&self) -> usize {
        self.data_size
    }

    fn data_size(&self) -> (r: usize) {
        self.data_size
    }

    closed spec fn spec_end_of_stream(&self) -> bool {
        self.end_of_stream
    }

    fn end_of_stream(&self) -> (r: bool) {
        self.end_of_stream
    }
}

/// Which side closed a connection.
#[derive(Copy, Clone, PartialEq, Eq, Structural, Hash, Debug)]
#[non_exhaustive]
pub enum CloseType {
    Unknown,
    /// Close initiated by the proxy.
    Local,
    /// Close initiated by the peer.
    Remote,
}

impl CloseType {
    /// The number by which the host knows this close type.
    pub open spec fn spec_code(self) -> usize {
        match self {
            CloseType::Unknown => 0,
            CloseType::Local => 1,
            CloseType::Remote => 2,
        }
    }

    /// The number by which the host knows this close type.
    pub fn code(self) -> (r: usize)
        ensures
            r == self.spec_code(),
    {
        match self {
            CloseType::Unknown => 0,
            CloseType::Local => 1,
            CloseType::Remote => 2,
        }
    }

    /// The close type that the host means by `code`, if it is one this
    /// library knows.
    pub fn from_code(code: usize) -> (r: Option<CloseType>)
        ensures
            match r {
                Some(c) => c.spec_code() == code,
                None => code > 2,
            },
    {
        match code {
            0 => Some(CloseType::Unknown),
            1 => Some(CloseType::Local),
            2 => Some(CloseType::Remote),
            _ => None,
        }
    }
}

/// Context for a stream closing event.
pub struct StreamClose {
    pub(crate) close_type: CloseType,
    pub(crate) attributes: Attributes,
}

impl StreamClose {
    /// The view of a close of this type.
    pub(crate) fn new(close_type: CloseType) -> (r: Self)
        ensures
            r.spec_close_type() == close_type,
    {
        StreamClose { close_type, attributes: Attributes::get() }
    }

    /// Get close type of closed peer.
    pub closed spec fn spec_close_type(&self) -> CloseType {
        self.close_type
    }

    /// Get close type of closed peer.
    pub fn close_type(&self) -> (r: CloseType)
        ensures
            r == self.spec_close_type(),
    {
        self.close_type
    }
}

impl StreamControl for StreamClose {
    fn attributes(&self) -> &Attributes {
        &self.attributes
    }
}

/// Trait to implement stream filters (L4 filters).
pub trait StreamContext: BaseContext {
    /// Called on a new connection.
    fn on_new_connection(&mut self) -> FilterStreamStatus {
        FilterStreamStatus::Continue
    }

    /// Called when a chunk of downstream data is available.
    fn on_downstream_data(&mut self, data: &DownstreamData) -> FilterStreamStatus {
        FilterStreamStatus::Continue
    }

    /// Called when a downstream connection closes.
    fn on_downstream_close(&mut self, data: &StreamClose) {
    }

    /// Called when a chunk of upstream data is available.
    fn on_upstream_data(&mut self, data: &UpstreamData) -> FilterStreamStatus {
        FilterStreamStatus::Continue
    }

    /// Called when an upstream connection closes.
    fn on_upstream_close(&mut self, data: &StreamClose) {
    }
}

} // verus!
