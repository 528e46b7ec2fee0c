use vstd::prelude::*;

pub mod context;
pub mod dispatcher;
pub mod downcast_box;
pub mod entry;
pub mod env;
pub mod envoy;
pub mod grpc_call;
pub mod grpc_stream;
pub mod hostcalls;
pub mod http;
pub mod http_call;
pub mod logger;
pub mod metrics;
pub mod property;
pub mod queue;
pub mod shared_data;
pub mod status;
pub mod stream;
pub mod time;
pub mod upstream;

pub use context::{BaseContext, Context, RootContext};
pub use dispatcher::{set_root_context_factory, Callbacks, Dispatcher, EffectiveContext};
pub use downcast_box::{DowncastBox, Reflect};
pub use grpc_call::{GrpcCall, GrpcCallBuilder, GrpcCallResponse, GrpcCancelHandle, GrpcCode};
pub use grpc_stream::{
    GrpcStream, GrpcStreamBuilder, GrpcStreamClose, GrpcStreamHandle, GrpcStreamInitialMetadata,
    GrpcStreamMessage, GrpcStreamTrailingMetadata,
};
pub use http::{
    FilterDataStatus, FilterHeadersStatus, FilterTrailersStatus, HeaderType, HttpBodyControl,
    HttpContext, HttpControl, HttpHeaderControl, HttpType, RequestBody, RequestHeaders,
    RequestTrailers, ResponseBody, ResponseHeaders, ResponseTrailers,
};
pub use http_call::{HttpCall, HttpCallBuilder, HttpCallResponse};
pub use metrics::{
    ConstCounter, ConstGauge, ConstHistogram, Counter, Gauge, Histogram, Metrics, MetricsInfo,
};
pub use queue::Queue;
pub use shared_data::SharedData;
pub use status::{check_concern, log_concern, Status};
pub use stream::{
    CloseType, DownstreamData, FilterStreamStatus, StreamClose, StreamContext, StreamControl,
    StreamDataControl, StreamType, UpstreamData,
};
pub use time::{now, set_tick_period};
pub use upstream::Upstream;

use dispatcher::RootInit;

verus! {

/// One end of a range of positions.
#[derive(Copy, Clone, PartialEq, Eq, Structural, Debug)]
pub enum RangeBound {
    /// The position itself belongs to the range.
    Included(usize),
    /// The position itself does not belong to the range.
    Excluded(usize),
    /// The range has no end on this side.
    Unbounded,
}

/// Where a range starts: an excluded start is taken one position earlier,
/// never below zero.
pub open spec fn range_start(start: RangeBound) -> int {
    match start {
        RangeBound::Included(x) => x as int,
        RangeBound::Excluded(x) => if x == 0 { 0 } else { x - 1 },
        RangeBound::Unbounded => 0,
    }
}

/// Where a range ends, as the position just past its last, never past
/// `limit`.
pub open spec fn range_end(end: RangeBound, limit: usize) -> int {
    let raw = match end {
        RangeBound::Included(x) => x + 1,
        RangeBound::Excluded(x) => x as int,
        RangeBound::Unbounded => limit as int,
    };
    if raw < limit { raw } else { limit as int }
}

/// How many positions of a range lie at or after its start and before its
/// end.
pub open spec fn range_size(start: RangeBound, end: RangeBound, limit: usize) -> int {
    let s = range_start(start);
    let e = range_end(end, limit);
    if e > s { e - s } else { 0 }
}

/// Start and length of the part of `0..limit` that the range from `start`
/// to `end` covers.
pub fn calculate_range(start: RangeBound, end: RangeBound, limit: usize) -> (r: (usize, usize))
    ensures
        r.0 == range_start(start),
        r.1 == range_size(start, end, limit),
{
    let from: usize = match start {
        RangeBound::Included(x) => x,
        RangeBound::Excluded(x) => if x == 0 { 0 } else { x - 1 },
        RangeBound::Unbounded => 0,
    };
    let until: usize = match end {
        RangeBound::Included(x) => if x < limit { x + 1 } else { limit },
        RangeBound::Excluded(x) => if x < limit { x } else { limit },
        RangeBound::Unbounded => limit,
    };
    let size: usize = if until > from { until - from } else { 0 };
    (from, size)
}

/// Starts a new generation, so that each dispatcher is wiped before it is
/// next used, and forgets the root context factory. The result is the new
/// generation: the one after `generation`, or zero after the last one.
pub fn reset<F>(generation: usize, init: &mut RootInit<F>) -> (r: usize)
    ensures
        r != generation,
        r == if generation == usize::MAX {
            0
        } else {
            generation + 1
        },
        final(init).factory is None,
{
    init.clear();
    if generation == usize::MAX {
        0
    } else {
        generation + 1
    }
}

} // verus!
