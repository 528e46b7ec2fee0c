use proxy_sdk::context::{BaseContext, Context, RootContext};
use proxy_sdk::dispatcher::{set_root_context_factory, Callbacks, Dispatcher, RootInit};
use proxy_sdk::downcast_box::DowncastBox;
use proxy_sdk::grpc_call::{
    GrpcCallBuilder, GrpcCallBuilderError, GrpcCallResponse, GrpcCancelHandle, GrpcCode,
};
use proxy_sdk::grpc_stream::{
    GrpcStreamBuilder, GrpcStreamBuilderError, GrpcStreamClose, GrpcStreamHandle,
    GrpcStreamInitialMetadata, GrpcStreamMessage, GrpcStreamTrailingMetadata,
};
use proxy_sdk::hostcalls::{self, BufferType, LogLevel, MapType, MetricType};
use proxy_sdk::http::{
    FilterDataStatus, FilterHeadersStatus, FilterTrailersStatus, HeaderType, HttpBodyControl,
    HttpContext, HttpControl, HttpHeaderControl, HttpType, RequestBody, RequestHeaders,
    RequestTrailers, ResponseBody, ResponseHeaders, ResponseTrailers,
};
use proxy_sdk::http_call::{HttpCallBuilder, HttpCallBuilderError, HttpCallResponse, DEFAULT_TIMEOUT};
use proxy_sdk::logger::{Level, LevelFilter, Logger};
use proxy_sdk::metrics::{
    ConstCounter, ConstGauge, ConstHistogram, Counter, Gauge, Histogram, Metrics, MetricsInfo,
};
use proxy_sdk::property::envoy::{Attributes, ListenerDirection, WasmAttributes};
use proxy_sdk::queue::Queue;
use proxy_sdk::shared_data::SharedData;
use proxy_sdk::stream::{
    CloseType, DownstreamData, FilterStreamStatus, StreamContext, StreamControl,
    StreamDataControl, StreamType, UpstreamData,
};
use proxy_sdk::time::{now, set_tick_period};
use proxy_sdk::upstream::Upstream;
use proxy_sdk::{RangeBound, Status};
use std::cell::{Cell, RefCell};
use std::rc::Rc;

type Seen<X> = Rc<RefCell<Vec<X>>>;

fn seen<X>() -> Seen<X> {
    Rc::new(RefCell::new(Vec::new()))
}

struct Probe {
    request_headers: Seen<(usize, bool, Vec<(String, Vec<u8>)>)>,
    response_body: Seen<(usize, bool, Option<Vec<u8>>)>,
    downstream: Seen<(usize, bool, Option<Vec<u8>>)>,
}

struct Http {
    probe: Rc<Probe>,
}

impl BaseContext for Http {}

impl HttpContext for Http {
    fn on_http_request_headers(&mut self, headers: &RequestHeaders) -> FilterHeadersStatus {
        let all = headers.all(|map| {
            assert_eq!(map, MapType::HttpRequestHeaders);
            Ok(Some(vec![("k".to_string(), b"v".to_vec())]))
        });
        self.probe.request_headers.borrow_mut().push((
            headers.header_count(),
            headers.end_of_stream(),
            all,
        ));
        FilterHeadersStatus::ContinueAndEndStream
    }

    fn on_http_response_body(&mut self, body: &ResponseBody) -> FilterDataStatus {
        let part = body.get(RangeBound::Included(2), RangeBound::Unbounded, |buffer, start, size| {
            assert_eq!((buffer, start, size), (BufferType::HttpResponseBody, 2, 6));
            Ok(Some(vec![9]))
        });
        self.probe.response_body.borrow_mut().push((body.body_size(), body.end_of_stream(), part));
        FilterDataStatus::StopIterationNoBuffer
    }

    fn on_http_request_body(&mut self, body: &RequestBody) -> FilterDataStatus {
        assert_eq!(<RequestBody as HttpControl>::http_type(), HttpType::Request);
        let all = body.all(|buffer, start, size| {
            assert_eq!((buffer, start, size), (BufferType::HttpRequestBody, 0, 4));
            Err(Status::InternalFailure)
        });
        assert_eq!(all, None);
        assert_eq!(body.clear(|buffer, start, size, value| {
            assert_eq!((buffer, start, size, value.len()), (BufferType::HttpRequestBody, 0, 4, 0));
            Ok(())
        }), Ok(()));
        assert_eq!(body.replace(b"xy", |buffer, start, size, value| {
            assert_eq!((buffer, start, size, value), (BufferType::HttpRequestBody, 0, 4, &b"xy"[..]));
            Ok(())
        }), Ok(()));
        assert_eq!(body.set(RangeBound::Included(1), RangeBound::Excluded(3), b"z", |_, start, size, _| {
            assert_eq!((start, size), (1, 2));
            Err(Status::BadArgument)
        }), Err(Status::BadArgument));
        assert_eq!(body.resume(|stream| {
            assert_eq!(stream, hostcalls::StreamType::HttpRequest);
            Ok(())
        }), Ok(()));
        assert_eq!(body.reset(|stream| {
            assert_eq!(stream, hostcalls::StreamType::HttpRequest);
            Err(Status::BadArgument)
        }), Err(Status::BadArgument));
        FilterDataStatus::StopAllIterationAndWatermark
    }

    fn on_http_request_trailers(&mut self, trailers: &RequestTrailers) -> FilterTrailersStatus {
        assert_eq!(trailers.header_count(), 2);
        assert!(trailers.end_of_stream());
        assert_eq!(<RequestTrailers as HttpHeaderControl>::header_type().map(), MapType::HttpRequestTrailers);
        let value = trailers.get("name", |map, name| {
            assert_eq!((map, name), (MapType::HttpRequestTrailers, "name"));
            Ok(Some(vec![1]))
        });
        assert_eq!(value, Some(vec![1]));
        assert_eq!(trailers.get("name", |_, _| Err(Status::NotFound)), None);
        assert_eq!(trailers.set("n", b"v", |map, name, value| {
            assert_eq!((map, name, value), (MapType::HttpRequestTrailers, "n", Some(&b"v"[..])));
            Ok(())
        }), Ok(()));
        assert_eq!(trailers.remove("n", |map, name, value| {
            assert_eq!((map, name, value), (MapType::HttpRequestTrailers, "n", None));
            Ok(())
        }), Ok(()));
        assert_eq!(trailers.add("n", b"w", |map, name, value| {
            assert_eq!((map, name, value), (MapType::HttpRequestTrailers, "n", &b"w"[..]));
            Ok(())
        }), Ok(()));
        assert_eq!(trailers.set_all(&[("a", b"b")], |map, values| {
            assert_eq!(map, MapType::HttpRequestTrailers);
            assert_eq!(values.len(), 1);
            Ok(())
        }), Ok(()));
        FilterTrailersStatus::StopIteration
    }

    fn on_http_response_headers(&mut self, headers: &ResponseHeaders) -> FilterHeadersStatus {
        assert_eq!(headers.all(|_| Ok(None)), Vec::new());
        assert_eq!(headers.all(|_| Err(Status::InternalFailure)), Vec::new());
        let sent = headers.send_http_response(403, &[("a", b"b")], Some(b"no"), |code, h, body| {
            assert_eq!((code, h.len(), body), (403, 1, Some(&b"no"[..])));
            Err(Status::BadArgument)
        });
        assert_eq!(sent, Err(Status::BadArgument));
        assert_eq!(headers.done(|| Ok(())), Ok(()));
        assert_eq!(headers.resume(|stream| {
            assert_eq!(stream, hostcalls::StreamType::HttpResponse);
            Ok(())
        }), Ok(()));
        FilterHeadersStatus::StopAllIterationAndBuffer
    }

    fn on_http_response_trailers(&mut self, trailers: &ResponseTrailers) -> FilterTrailersStatus {
        assert_eq!(trailers.header_count(), 4);
        let _ = trailers.attributes();
        FilterTrailersStatus::Continue
    }
}

struct Conn {
    probe: Rc<Probe>,
}

impl BaseContext for Conn {}

impl StreamContext for Conn {
    fn on_downstream_data(&mut self, data: &DownstreamData) -> FilterStreamStatus {
        assert_eq!(<DownstreamData as StreamDataControl>::stream_type(), StreamType::Downstream);
        let all = data.all(|buffer, start, size| {
            assert_eq!((buffer, start, size), (BufferType::DownstreamData, 0, 5));
            Ok(Some(vec![7]))
        });
        self.probe.downstream.borrow_mut().push((data.data_size(), data.end_of_stream(), all));
        assert_eq!(data.resume_downstream(|s| {
            assert_eq!(s, hostcalls::StreamType::Downstream);
            Ok(())
        }), Ok(()));
        assert_eq!(data.close_upstream(|s| {
            assert_eq!(s, hostcalls::StreamType::Upstream);
            Ok(())
        }), Ok(()));
        FilterStreamStatus::StopIteration
    }

    fn on_upstream_data(&mut self, data: &UpstreamData) -> FilterStreamStatus {
        let part = data.get(RangeBound::Excluded(3), RangeBound::Included(3), |buffer, start, size| {
            assert_eq!((buffer, start, size), (BufferType::UpstreamData, 2, 2));
            Ok(None)
        });
        assert_eq!(part, None);
        assert_eq!(data.clear(|buffer, start, size, value| {
            assert_eq!((buffer, start, size, value.len()), (BufferType::UpstreamData, 0, 8, 0));
            Ok(())
        }), Ok(()));
        assert_eq!(data.set(RangeBound::Unbounded, RangeBound::Excluded(2), b"q", |_, start, size, value| {
            assert_eq!((start, size, value), (0, 2, &b"q"[..]));
            Ok(())
        }), Ok(()));
        assert_eq!(data.close_downstream(|s| {
            assert_eq!(s, hostcalls::StreamType::Downstream);
            Ok(())
        }), Ok(()));
        assert_eq!(data.resume_upstream(|s| {
            assert_eq!(s, hostcalls::StreamType::Upstream);
            Ok(())
        }), Ok(()));
        FilterStreamStatus::Continue
    }
}

struct Root {
    probe: Rc<Probe>,
    connections: bool,
}

impl BaseContext for Root {}

impl RootContext for Root {
    type Http = Http;
    type Stream = Conn;

    fn create_context(&mut self) -> Context<Http, Conn> {
        if self.connections {
            Context::Stream(Conn { probe: self.probe.clone() })
        } else {
            Context::Http(Http { probe: self.probe.clone() })
        }
    }
}

struct Kinds;

impl Callbacks for Kinds {
    type Http = u32;
    type Grpc = u32;
    type StreamInitialMetadata = u32;
    type StreamMessage = u32;
    type StreamTrailingMetadata = u32;
    type StreamClose = u32;
    type Queue = u32;
    type QueueReceive = u32;
}

type Factory = Box<dyn Fn() -> DowncastBox<Root>>;

fn dispatcher(connections: bool) -> (Dispatcher<Root, Kinds>, Rc<Probe>) {
    let probe = Rc::new(Probe {
        request_headers: seen(),
        response_body: seen(),
        downstream: seen(),
    });
    let mut init: RootInit<Factory> = RootInit::new();
    let p = probe.clone();
    set_root_context_factory(
        &mut init,
        Box::new(move || DowncastBox::from_box(Box::new(Root { probe: p.clone(), connections }))),
    );
    let mut dispatcher = Dispatcher::new();
    dispatcher.on_create_context(1, 0, &init);
    dispatcher.on_create_context(2, 1, &init);
    (dispatcher, probe)
}

fn accept(_: u32) -> Result<(), Status> {
    Ok(())
}

#[test]
fn http_events_reach_the_context_with_their_views() {
    let (mut d, probe) = dispatcher(false);
    assert_eq!(d.on_http_request_headers(2, 3, true), FilterHeadersStatus::ContinueAndEndStream);
    assert_eq!(
        *probe.request_headers.borrow(),
        vec![(3, true, vec![("k".to_string(), b"v".to_vec())])]
    );
    assert_eq!(d.on_http_request_body(2, 4, false), FilterDataStatus::StopAllIterationAndWatermark);
    assert_eq!(d.on_http_request_trailers(2, 2), FilterTrailersStatus::StopIteration);
    assert_eq!(d.on_http_response_headers(2, 1, false), FilterHeadersStatus::StopAllIterationAndBuffer);
    assert_eq!(d.on_http_response_body(2, 8, true), FilterDataStatus::StopIterationNoBuffer);
    assert_eq!(*probe.response_body.borrow(), vec![(8, true, Some(vec![9]))]);
    assert_eq!(d.on_http_response_trailers(2, 4), FilterTrailersStatus::Continue);
}

#[test]
fn connection_events_reach_the_context_with_their_views() {
    let (mut d, probe) = dispatcher(true);
    assert_eq!(d.on_downstream_data(2, 5, true), FilterStreamStatus::StopIteration);
    assert_eq!(*probe.downstream.borrow(), vec![(5, true, Some(vec![7]))]);
    assert_eq!(d.on_upstream_data(2, 8, false), FilterStreamStatus::Continue);
    d.on_upstream_close(2, CloseType::Local);
    assert_eq!(d.on_new_connection(2), FilterStreamStatus::Continue);
}

#[test]
fn labels_of_the_header_sections() {
    assert_eq!(HeaderType::RequestHeaders.all(), "get-all-request-header");
    assert_eq!(HeaderType::RequestTrailers.get(), "get-request-trailer");
    assert_eq!(HeaderType::ResponseHeaders.set(), "set-response-header");
    assert_eq!(HeaderType::ResponseTrailers.set_all(), "set-all-response-trailers");
    assert_eq!(HeaderType::RequestHeaders.add(), "add-request-headers");
    assert_eq!(HeaderType::ResponseTrailers.remove(), "remove-response-trailers");
    assert_eq!(HeaderType::ResponseHeaders.map(), MapType::HttpResponseHeaders);
    assert_eq!(HeaderType::ResponseTrailers.map(), MapType::HttpResponseTrailers);
    assert_eq!(HttpType::Request.resume(), "resume-http-request");
    assert_eq!(HttpType::Response.reset(), "reset-http-response");
    assert_eq!(HttpType::Request.get(), "get-request-body");
    assert_eq!(HttpType::Response.set(), "set-response-body");
    assert_eq!(HttpType::Response.buffer(), BufferType::HttpResponseBody);
    assert_eq!(StreamType::Upstream.get(), "get-upstream-data");
    assert_eq!(StreamType::Downstream.set(), "set-downstream-data");
    assert_eq!(StreamType::Upstream.buffer(), BufferType::UpstreamData);
    assert_eq!(HttpType::Response.call_resume(|s| {
        assert_eq!(s, hostcalls::StreamType::HttpResponse);
        Err(Status::Unimplemented)
    }), Err(Status::Unimplemented));
    assert_eq!(HttpType::Request.call_reset(|s| {
        assert_eq!(s, hostcalls::StreamType::HttpRequest);
        Ok(())
    }), Ok(()));
}

#[test]
fn codes_of_the_filter_statuses() {
    assert_eq!(FilterHeadersStatus::Continue.code(), 0);
    assert_eq!(FilterHeadersStatus::StopAllIterationAndWatermark.code(), 4);
    assert_eq!(FilterDataStatus::StopIterationNoBuffer.code(), 3);
    assert_eq!(FilterTrailersStatus::StopIteration.code(), 1);
    assert_eq!(FilterStreamStatus::StopIteration.code(), 1);
    assert_eq!(CloseType::Remote.code(), 2);
    assert_eq!(CloseType::from_code(1), Some(CloseType::Local));
    assert_eq!(CloseType::from_code(0), Some(CloseType::Unknown));
    assert_eq!(CloseType::from_code(3), None);
}

#[test]
fn grpc_codes_by_number() {
    assert_eq!(GrpcCode::from(0), GrpcCode::Success);
    assert_eq!(GrpcCode::from(1), GrpcCode::Cancelled);
    assert_eq!(GrpcCode::from(4), GrpcCode::DeadlineExceeded);
    assert_eq!(GrpcCode::from(16), GrpcCode::Unauthenticated);
    assert_eq!(GrpcCode::from(17), GrpcCode::Other(17));
    assert_eq!(GrpcCode::from(u32::MAX), GrpcCode::Other(u32::MAX));
    assert!(GrpcCode::Aborted.eq_code(10));
    assert!(!GrpcCode::Aborted.eq_code(11));
    assert!(GrpcCode::Other(20).eq_code(20));
    assert!(!GrpcCode::Other(3).eq_code(3));
}

#[test]
fn http_call_is_sent_and_recorded() {
    let (mut d, _) = dispatcher(false);
    d.on_http_request_headers(2, 0, false);
    let call = HttpCallBuilder::new()
        .upstream(Upstream::from_name("cluster"))
        .header(":method", b"GET")
        .header(":path", b"/")
        .trailer("t", b"1")
        .body(b"hi")
        .callback(41u32)
        .build()
        .expect("call");
    let sent = call.dispatch(&mut d, |upstream, headers, body, trailers, timeout| {
        assert_eq!(upstream, &b"cluster".to_vec());
        assert_eq!(headers.len(), 2);
        assert_eq!(headers[1], (":path", &b"/"[..]));
        assert_eq!(body, Some(&b"hi"[..]));
        assert_eq!(trailers.len(), 1);
        assert_eq!(timeout, 10000);
        Ok(9)
    });
    assert_eq!(sent, Ok(()));
    assert!(d.is_pending(9));
    d.on_tick(1);
    let delivery = d.on_http_call_response(9, 0, 0, 0, &accept).expect("delivery");
    assert_eq!(delivery.callback, 41);
    assert_eq!((d.active_id(), d.root_id()), (2, 1));
}

#[test]
fn http_call_that_the_host_refuses_is_not_recorded() {
    let (mut d, _) = dispatcher(false);
    let call = HttpCallBuilder::new()
        .upstream(Upstream::empty())
        .timeout(5)
        .headers(vec![("a", b"b")])
        .trailers(Vec::new())
        .callback(1u32)
        .build()
        .expect("call");
    let sent = call.dispatch(&mut d, |_, headers, body, _, timeout| {
        assert_eq!((headers.len(), body, timeout), (1, None, 5));
        Err(Status::BadArgument)
    });
    assert_eq!(sent, Err(Status::BadArgument));
    assert!(!d.is_pending(0));
}

#[test]
fn http_call_without_a_callback_records_nothing() {
    let (mut d, _) = dispatcher(false);
    let call = HttpCallBuilder::<u32>::new().upstream(Upstream::empty()).build().expect("call");
    assert_eq!(call.dispatch(&mut d, |_, _, _, _, _| Ok(3)), Ok(()));
    assert!(!d.is_pending(3));
    assert_eq!(DEFAULT_TIMEOUT, 10000);
}

#[test]
fn builders_need_their_targets() {
    assert!(matches!(
        HttpCallBuilder::<u32>::new().build(),
        Err(HttpCallBuilderError::UninitializedUpstream)
    ));
    assert!(matches!(
        GrpcCallBuilder::<u32>::new().service("s").method("m").build(),
        Err(GrpcCallBuilderError::UninitializedUpstream)
    ));
    assert!(matches!(
        GrpcCallBuilder::<u32>::new().upstream(Upstream::empty()).method("m").build(),
        Err(GrpcCallBuilderError::UninitializedService)
    ));
    assert!(matches!(
        GrpcCallBuilder::<u32>::new().upstream(Upstream::empty()).service("s").build(),
        Err(GrpcCallBuilderError::UninitializedMethod)
    ));
    assert!(matches!(
        GrpcStreamBuilder::<Kinds>::new().build(),
        Err(GrpcStreamBuilderError::UninitializedCluster)
    ));
    assert!(matches!(
        GrpcStreamBuilder::<Kinds>::new().cluster(Upstream::empty()).build(),
        Err(GrpcStreamBuilderError::UninitializedService)
    ));
    assert!(matches!(
        GrpcStreamBuilder::<Kinds>::new().cluster(Upstream::empty()).service("s").build(),
        Err(GrpcStreamBuilderError::UninitializedMethod)
    ));
}

#[test]
fn grpc_call_is_sent_and_recorded() {
    let (mut d, _) = dispatcher(false);
    d.on_tick(1);
    let call = GrpcCallBuilder::new()
        .upstream(Upstream::from(vec![1]))
        .service("svc")
        .method("m")
        .metadata("k", b"v")
        .initial_metadata(vec![("a", b"b"), ("c", b"d")])
        .metadata("e", b"f")
        .message(b"req")
        .timeout(250)
        .callback(5u32)
        .build()
        .expect("call");
    let handle = call
        .dispatch(&mut d, |upstream, service, method, metadata, message, timeout| {
            assert_eq!(upstream, &vec![1]);
            assert_eq!((service, method, metadata.len()), ("svc", "m", 3));
            assert_eq!((message, timeout), (Some(&b"req"[..]), 250));
            Ok(33)
        })
        .expect("handle");
    assert_eq!(handle.token(), 33);
    assert!(handle.eq_token(33));
    assert!(d.is_pending(33));
    let cancelled = Cell::new(0);
    assert_eq!(handle.cancel(|token| {
        cancelled.set(token);
        Err(Status::NotFound)
    }), Err(Status::NotFound));
    assert_eq!(cancelled.get(), 33);
    assert!(d.is_pending(33));
    let refused = GrpcCallBuilder::<u32>::new()
        .upstream(Upstream::empty())
        .service("s")
        .method("m")
        .build()
        .expect("call")
        .dispatch(&mut d, |_, _, _, metadata, message, timeout| {
            assert_eq!((metadata.len(), message, timeout), (0, None, 10000));
            Err(Status::InternalFailure)
        });
    assert!(matches!(refused, Err(Status::InternalFailure)));
}

#[test]
fn grpc_stream_is_opened_and_recorded() {
    let (mut d, _) = dispatcher(false);
    d.on_tick(1);
    let stream = GrpcStreamBuilder::<Kinds>::new()
        .cluster(Upstream::from(vec![2]))
        .service("svc")
        .method("m")
        .metadata("k", b"v")
        .on_message(10)
        .on_close(11)
        .build()
        .expect("stream");
    let handle = stream
        .open(&mut d, |cluster, service, method, metadata| {
            assert_eq!(cluster, &vec![2]);
            assert_eq!((service, method, metadata.len()), ("svc", "m", 1));
            Ok(44)
        })
        .expect("handle");
    assert!(handle.eq_token(44));
    assert!(d.is_pending(44));
    assert!(d.on_grpc_receive_initial_metadata(44, 0, &accept).is_none());
    assert!(d.on_grpc_receive_trailing_metadata(44, 0, &accept).is_none());
    match d.on_grpc_receive(44, 1, &accept) {
        proxy_sdk::dispatcher::GrpcReceive::Stream(delivery) => assert_eq!(delivery.callback, 10),
        _ => panic!("the stream has a message callback"),
    }
    match d.on_grpc_close(44, 0, &accept, || Ok((0, None))) {
        proxy_sdk::dispatcher::GrpcClose::Stream(delivery) => assert_eq!(delivery.callback, 11),
        _ => panic!("the stream has a close callback"),
    }
    let full = GrpcStreamBuilder::<Kinds>::new()
        .cluster(Upstream::empty())
        .service("s")
        .method("m")
        .initial_metadata(Vec::new())
        .on_initial_metadata(1)
        .on_trailing_metadata(3)
        .build()
        .expect("stream");
    assert!(full.open(&mut d, |_, _, _, _| Ok(45)).is_ok());
    assert_eq!(d.on_grpc_receive_initial_metadata(45, 0, &accept).map(|x| x.callback), Some(1));
    assert_eq!(d.on_grpc_receive_trailing_metadata(45, 0, &accept).map(|x| x.callback), Some(3));
    let refused = GrpcStreamBuilder::<Kinds>::new()
        .cluster(Upstream::empty())
        .service("s")
        .method("m")
        .on_message(1)
        .build()
        .expect("stream")
        .open(&mut d, |_, _, _, _| Err(Status::BadArgument));
    assert!(matches!(refused, Err(Status::BadArgument)));
}

#[test]
fn grpc_stream_handle_talks_to_the_host() {
    let handle = GrpcStreamHandle(7);
    let asked = Cell::new(0);
    assert_eq!(handle.cancel(|t| {
        asked.set(t);
        Ok(())
    }), Ok(()));
    assert_eq!(asked.get(), 7);
    assert_eq!(handle.close(|t| {
        asked.set(t + 1);
        Ok(())
    }), Ok(()));
    assert_eq!(asked.get(), 8);
    let sent = handle.send(Some(b"m"), true, |t, message, end| {
        assert_eq!((t, message, end), (7, Some(&b"m"[..]), true));
        Err(Status::BrokenConnection)
    });
    assert_eq!(sent, Err(Status::BrokenConnection));
    assert!(!handle.eq_token(8));
}

#[test]
fn responses_read_their_parts_from_the_host() {
    let http = HttpCallResponse::new(1, 10, 2);
    assert_eq!((http.num_headers(), http.body_size(), http.num_trailers()), (1, 10, 2));
    assert_eq!(
        http.headers(|map| {
            assert_eq!(map, MapType::HttpCallResponseHeaders);
            Ok(Some(vec![("a".to_string(), vec![1])]))
        }),
        vec![("a".to_string(), vec![1])]
    );
    assert_eq!(http.trailers(|map| {
        assert_eq!(map, MapType::HttpCallResponseTrailers);
        Err(Status::InternalFailure)
    }), Vec::new());
    assert_eq!(http.header("h", |map, name| {
        assert_eq!((map, name), (MapType::HttpCallResponseHeaders, "h"));
        Ok(Some(vec![2]))
    }), Some(vec![2]));
    assert_eq!(http.trailer("t", |map, name| {
        assert_eq!((map, name), (MapType::HttpCallResponseTrailers, "t"));
        Ok(None)
    }), None);
    assert_eq!(http.body(RangeBound::Included(4), RangeBound::Excluded(20), |buffer, start, size| {
        assert_eq!((buffer, start, size), (BufferType::HttpCallResponseBody, 4, 6));
        Ok(Some(vec![3]))
    }), Some(vec![3]));
    assert_eq!(http.full_body(|buffer, start, size| {
        assert_eq!((buffer, start, size), (BufferType::HttpCallResponseBody, 0, 10));
        Err(Status::NotFound)
    }), None);

    let grpc = GrpcCallResponse::new(3, GrpcCode::Internal, Some("m".to_string()), 12);
    assert_eq!(grpc.handle_id(), 3);
    assert_eq!(grpc.status_code(), GrpcCode::Internal);
    assert_eq!(grpc.status_message(), Some("m"));
    assert_eq!(grpc.body_size(), 12);
    assert_eq!(grpc.headers(|map| {
        assert_eq!(map, MapType::HttpCallResponseHeaders);
        Ok(None)
    }), Vec::new());
    assert_eq!(grpc.trailers(|map| {
        assert_eq!(map, MapType::HttpCallResponseTrailers);
        Ok(Some(vec![("t".to_string(), vec![])]))
    }), vec![("t".to_string(), vec![])]);
    assert_eq!(grpc.header("h", |map, _| {
        assert_eq!(map, MapType::HttpCallResponseHeaders);
        Err(Status::BadArgument)
    }), None);
    assert_eq!(grpc.trailer("t", |map, _| {
        assert_eq!(map, MapType::HttpCallResponseTrailers);
        Ok(Some(vec![5]))
    }), Some(vec![5]));
    assert_eq!(grpc.body(RangeBound::Unbounded, RangeBound::Included(3), |buffer, start, size| {
        assert_eq!((buffer, start, size), (BufferType::GrpcReceiveBuffer, 0, 4));
        Ok(Some(vec![1, 2, 3, 4]))
    }), Some(vec![1, 2, 3, 4]));
    assert_eq!(grpc.full_body(|buffer, start, size| {
        assert_eq!((buffer, start, size), (BufferType::GrpcReceiveBuffer, 0, 12));
        Ok(None)
    }), None);

    let message = GrpcStreamMessage::new(GrpcCode::Success, None, 6);
    assert_eq!(message.status_code(), GrpcCode::Success);
    assert_eq!(message.status_message(), None);
    assert_eq!(message.body_size(), 6);
    assert_eq!(message.full_body(|buffer, start, size| {
        assert_eq!((buffer, start, size), (BufferType::GrpcReceiveBuffer, 0, 6));
        Ok(Some(vec![1]))
    }), Some(vec![1]));
    assert_eq!(message.body(RangeBound::Included(5), RangeBound::Included(9), |_, start, size| {
        assert_eq!((start, size), (5, 1));
        Ok(Some(vec![2]))
    }), Some(vec![2]));

    let initial = GrpcStreamInitialMetadata::new(2);
    assert_eq!(initial.num_elements(), 2);
    assert_eq!(initial.all(|map| {
        assert_eq!(map, MapType::GrpcReceiveInitialMetadata);
        Ok(Some(vec![("i".to_string(), vec![1])]))
    }), vec![("i".to_string(), vec![1])]);
    assert_eq!(initial.value("v", |map, name| {
        assert_eq!((map, name), (MapType::GrpcReceiveInitialMetadata, "v"));
        Ok(Some(vec![1]))
    }), Some(vec![1]));
    let trailing = GrpcStreamTrailingMetadata::new(3);
    assert_eq!(trailing.num_elements(), 3);
    assert_eq!(trailing.all(|map| {
        assert_eq!(map, MapType::GrpcReceiveTrailingMetadata);
        Err(Status::InternalFailure)
    }), Vec::new());
    assert_eq!(trailing.value("v", |map, _| {
        assert_eq!(map, MapType::GrpcReceiveTrailingMetadata);
        Ok(None)
    }), None);
    let close = GrpcStreamClose::new(9, GrpcCode::Cancelled, Some("bye".to_string()));
    assert_eq!((close.handle_id(), close.status_code(), close.status_message()), (9, GrpcCode::Cancelled, Some("bye")));
}

#[test]
fn queues_are_registered_and_resolved() {
    let queue = Queue::register("q", |name| {
        assert_eq!(name, "q");
        Ok(5)
    })
    .expect("queue");
    assert!(queue.eq_id(5));
    assert!(matches!(Queue::register("q", |_| Err(Status::BadArgument)), Err(Status::BadArgument)));
    let found = Queue::resolve("vm", "q", |vm, name| {
        assert_eq!((vm, name), ("vm", "q"));
        Ok(Some(6))
    })
    .expect("answer")
    .expect("queue");
    assert!(found.eq_id(6));
    assert!(matches!(Queue::resolve("vm", "q", |_, _| Ok(None)), Ok(None)));
    assert!(matches!(Queue::resolve("vm", "q", |_, _| Err(Status::NotFound)), Err(Status::NotFound)));
    assert_eq!(queue.dequeue(|id| {
        assert_eq!(id, 5);
        Ok(Some(vec![1]))
    }), Ok(Some(vec![1])));
    assert_eq!(queue.enqueue(b"x", |id, value| {
        assert_eq!((id, value), (5, &b"x"[..]));
        Err(Status::InternalFailure)
    }), Err(Status::InternalFailure));
}

#[test]
fn shared_data_reads_and_writes() {
    let data = SharedData::from_key("key".to_string());
    assert_eq!(data.get(|key| {
        assert_eq!(key, "key");
        Ok((Some(vec![1]), Some(4)))
    }), Some(vec![1]));
    assert_eq!(data.get(|_| Err(Status::InternalFailure)), None);
    assert_eq!(data.get_with_cas(|_| Ok((Some(vec![1]), Some(4)))), (Some(vec![1]), Some(4)));
    assert_eq!(data.get_with_cas(|_| Ok((None, None))), (None, None));
    assert_eq!(data.get_with_cas(|_| Err(Status::InternalFailure)), (None, None));
    assert_eq!(data.set(b"v", |key, value, cas| {
        assert_eq!((key, value, cas), ("key", Some(&b"v"[..]), None));
        Ok(())
    }), Ok(()));
    assert!(data.set_with_cas(b"v", 3, |key, value, cas| {
        assert_eq!((key, value, cas), ("key", Some(&b"v"[..]), Some(3)));
        Ok(())
    }));
    assert!(!data.set_with_cas(b"v", 3, |_, _, _| Err(Status::CasMismatch)));
    assert!(!data.set_with_cas(b"v", 3, |_, _, _| Err(Status::InternalFailure)));
}

#[test]
fn metrics_are_defined_once_for_a_root() {
    let mut metrics = Metrics::new();
    let asked = Cell::new(0);
    let define = |kind: MetricType, name: &str| {
        asked.set(asked.get() + 1);
        assert_eq!(name, "hits");
        Ok(match kind {
            MetricType::Counter => 10,
            MetricType::Gauge => 20,
            _ => 30,
        })
    };
    assert_eq!(Counter::define(&mut metrics, 1, "hits", define).0, 10);
    assert_eq!(Counter::define(&mut metrics, 1, "hits", |_, _| panic!("defined already")).0, 10);
    assert_eq!(asked.get(), 1);
    assert_eq!(Gauge::define(&mut metrics, 1, "hits", define).0, 20);
    assert_eq!(Histogram::define(&mut metrics, 1, "hits", define).0, 30);
    assert_eq!(asked.get(), 3);
    assert_eq!(Counter::define(&mut metrics, 2, "hits", |_, _| Ok(11)).0, 11);
    assert_eq!(Counter::define(&mut metrics, 1, "hits", |_, _| panic!("defined already")).0, 10);
    assert_eq!(Counter::define(&mut metrics, 1, "misses", |_, name| {
        assert_eq!(name, "misses");
        Err(Status::InternalFailure)
    }).0, 0);
    assert_eq!(Counter::define(&mut metrics, 1, "misses", |_, _| panic!("defined already")).0, 0);
    assert_eq!(Gauge::define(&mut metrics, 1, "hits", |_, _| panic!("defined already")).0, 20);
    assert_eq!(Histogram::define(&mut metrics, 1, "hits", |_, _| panic!("defined already")).0, 30);
}

#[test]
fn metrics_known_by_name() {
    let mut metrics = Metrics::new();
    let counter = ConstCounter::define("c");
    assert_eq!(counter.get(&mut metrics, 1, |kind, name| {
        assert_eq!((kind, name), (MetricType::Counter, "c"));
        Ok(1)
    }).0, 1);
    assert_eq!(counter.get(&mut metrics, 1, |_, _| panic!("defined already")).0, 1);
    let gauge = ConstGauge::define("g");
    assert_eq!(gauge.get(&mut metrics, 1, |kind, name| {
        assert_eq!((kind, name), (MetricType::Gauge, "g"));
        Ok(2)
    }).0, 2);
    let histogram = ConstHistogram::define("h");
    assert_eq!(histogram.get(&mut metrics, 1, |kind, name| {
        assert_eq!((kind, name), (MetricType::Histogram, "h"));
        Ok(3)
    }).0, 3);
}

#[test]
fn metrics_of_one_root() {
    let mut info = MetricsInfo::new();
    let name = "n".to_string();
    assert_eq!(info.get(MetricType::Counter, &name), None);
    info.insert(MetricType::Counter, name.clone(), 4);
    info.insert(MetricType::Counter, name.clone(), 5);
    assert_eq!(info.get(MetricType::Counter, &name), Some(4));
    assert_eq!(info.get(MetricType::Gauge, &name), None);
    assert_eq!(info.define(MetricType::Gauge, "n", |_, _| Ok(6)), 6);
    assert_eq!(info.get(MetricType::Gauge, &name), Some(6));
}

#[test]
fn metric_handles_talk_to_the_host() {
    assert_eq!(Counter(3).get(|id| {
        assert_eq!(id, 3);
        Ok(9)
    }), Ok(9));
    assert_eq!(Gauge(4).get(|_| Err(Status::NotFound)), Err(Status::NotFound));
    let asked = RefCell::new(Vec::new());
    Counter(3).record(5, |id, value| {
        asked.borrow_mut().push((id, value as i64));
        Ok(())
    });
    Counter(3).increment(-2, |id, offset| {
        asked.borrow_mut().push((id, offset));
        Ok(())
    });
    Gauge(4).record(6, |id, value| {
        asked.borrow_mut().push((id, value as i64));
        Err(Status::BadArgument)
    });
    Gauge(4).increment(7, |id, offset| {
        asked.borrow_mut().push((id, offset));
        Ok(())
    });
    Histogram(5).record(8, |id, value| {
        asked.borrow_mut().push((id, value as i64));
        Ok(())
    });
    assert_eq!(*asked.borrow(), vec![(3, 5), (3, -2), (4, 6), (4, 7), (5, 8)]);
}

#[test]
fn logger_lets_through_up_to_its_level() {
    let mut logger = Logger::new();
    assert!(!logger.enabled(Level::Error));
    logger.set_log_level(LogLevel::Warn);
    assert!(logger.enabled(Level::Error));
    assert!(logger.enabled(Level::Warn));
    assert!(!logger.enabled(Level::Info));
    logger.set_log_level(LogLevel::Trace);
    assert!(logger.enabled(Level::Trace));
    logger.set_log_level(LogLevel::Critical);
    assert!(!logger.enabled(Level::Error));
    assert_eq!(LevelFilter::from_log_level(LogLevel::Critical), LevelFilter::Off);
    assert_eq!(LevelFilter::from_log_level(LogLevel::Debug), LevelFilter::Debug);
    assert_eq!(LevelFilter::Info.level_rank(), 3);
    assert_eq!(LogLevel::from_level(Level::Info), LogLevel::Info);
    assert_eq!(LogLevel::from_level(Level::Error), LogLevel::Error);
}

#[test]
fn logger_hands_records_to_the_host() {
    let mut logger = Logger::new();
    logger.set_log_level(LogLevel::Info);
    let sent = logger.log(Level::Warn, "careful", |level, message| {
        assert_eq!((level, message), (LogLevel::Warn, "careful"));
        Err(Status::InternalFailure)
    });
    assert_eq!(sent, Some(Err(Status::InternalFailure)));
    assert_eq!(logger.log(Level::Debug, "detail", |_, _| panic!("held back")), None);
}

#[test]
fn clock_and_ticks() {
    assert_eq!(now(|| Ok(1_700_000_000_000_000_000)), Some(1_700_000_000_000_000_000));
    assert_eq!(now(|| Err(Status::InternalFailure)), None);
    let asked = Cell::new(1);
    assert_eq!(set_tick_period(250, |millis| {
        asked.set(millis);
        Ok(())
    }), Ok(()));
    assert_eq!(asked.get(), 250);
    assert_eq!(set_tick_period(0, |millis| {
        asked.set(millis);
        Ok(())
    }), Ok(()));
    assert_eq!(asked.get(), 0);
    assert_eq!(set_tick_period((1u128 << 32) + 5, |millis| {
        asked.set(millis);
        Err(Status::BadArgument)
    }), Err(Status::BadArgument));
    assert_eq!(asked.get(), 5);
}

#[test]
fn attributes_are_read_by_their_names() {
    let attributes = Attributes::get();
    let read = |expected: &'static str, value: Option<Vec<u8>>| {
        move |name: &str| {
            assert_eq!(name, expected);
            value
        }
    };
    assert_eq!(attributes.request.path(read("request.path", Some(b"/x".to_vec()))), Some("/x".to_string()));
    assert_eq!(attributes.request.url_path(read("request.url_path", None)), None);
    assert_eq!(attributes.request.method(read("request.method", Some(b"GET".to_vec()))), Some("GET".to_string()));
    assert_eq!(attributes.request.method(read("request.method", None)), None);
    assert_eq!(attributes.request.scheme(read("request.scheme", Some(b"https".to_vec()))), Some("https".to_string()));
    assert_eq!(attributes.request.size(read("request.size", Some(vec![5, 0, 0, 0, 0, 0, 0, 0]))), Some(5));
    assert_eq!(attributes.request.total_size(read("request.total_size", Some(vec![1]))), None);
    assert_eq!(attributes.response.code(read("response.code", Some(vec![0x94, 1, 0, 0, 0, 0, 0, 0]))), Some(404));
    assert_eq!(attributes.response.code(read("response.code", Some(vec![0xff; 8]))), Some(u32::MAX));
    assert_eq!(attributes.response.flags(read("response.flags", Some(vec![0xff; 8]))), Some(u64::MAX));
    assert_eq!(attributes.response.grpc_status(read("response.grpc_status", None)), None);
    assert_eq!(attributes.connection.source_port(read("source.port", Some(vec![0x50, 0, 1, 0, 0, 0, 0, 0]))), Some(80));
    assert_eq!(attributes.connection.destination_port(read("destination.port", Some(vec![0xbb, 1, 0, 0, 0, 0, 0, 0]))), Some(443));
    assert_eq!(attributes.connection.id(read("connection.id", Some(vec![9, 0, 0, 0, 0, 0, 0, 0]))), Some(9));
    assert_eq!(attributes.connection.mtls(read("connection.mtls", Some(vec![1]))), Some(true));
    assert_eq!(attributes.connection.source_address(read("source.address", Some(b"1.2.3.4:5".to_vec()))), Some("1.2.3.4:5".to_string()));
    assert_eq!(attributes.connection.tls_version(read("connection.tls_version", Some(b"TLSv1.3".to_vec()))), Some("TLSv1.3".to_string()));
    assert_eq!(attributes.upstream.port(read("upstream.port", Some(vec![0xff; 8]))), Some(u16::MAX));
    assert_eq!(attributes.upstream.address(read("upstream.address", None)), None);
    assert_eq!(attributes.upstream.local_address(read("upstream.local_address", Some(b"l".to_vec()))), Some("l".to_string()));
    assert_eq!(attributes.configuration.cluster_name(read("xds.cluster_name", Some(b"c".to_vec()))), Some("c".to_string()));
    assert_eq!(attributes.configuration.filter_chain_name(read("xds.filter_chain_name", None)), None);
    assert_eq!(attributes.wasm.plugin_name(read("plugin_name", Some(b"p".to_vec()))), Some("p".to_string()));
    assert_eq!(WasmAttributes::get().plugin_vm_id(read("plugin_vm_id", Some(b"vm".to_vec()))), Some("vm".to_string()));
    assert_eq!(attributes.wasm.listener_direction(read("listener_direction", Some(vec![1, 0, 0, 0, 0, 0, 0, 0]))), Some(ListenerDirection::Inbound));
    assert_eq!(attributes.wasm.listener_direction(read("listener_direction", Some(vec![3, 0, 0, 0, 0, 0, 0, 0]))), None);
    assert_eq!(ListenerDirection::from_i64(0), Some(ListenerDirection::Unspecified));
    assert_eq!(ListenerDirection::from_i64(2), Some(ListenerDirection::Outbound));
    assert_eq!(ListenerDirection::from_i64(-1), None);
}

#[test]
fn attributes_that_are_messages_are_decoded() {
    let attributes = Attributes::get();
    let headers = attributes.request.headers(
        |name| {
            assert_eq!(name, "request.headers");
            Some(vec![1, 2])
        },
        |bytes| Some(vec![("n".to_string(), bytes)]),
    );
    assert_eq!(headers, Some(vec![("n".to_string(), vec![1, 2])]));
    assert_eq!(attributes.response.headers(|name| {
        assert_eq!(name, "response.headers");
        None
    }, |_| None), None);
    assert_eq!(attributes.response.trailers(|name| {
        assert_eq!(name, "response.trailers");
        Some(Vec::new())
    }, |_| None), None);
    assert_eq!(attributes.metadata.filter_state(|name| {
        assert_eq!(name, "filter_state");
        Some(Vec::new())
    }, |_| Some(Vec::new())), Some(Vec::new()));
    assert_eq!(attributes.metadata.metadata(|name| {
        assert_eq!(name, "metadata");
        Some(vec![7])
    }, |bytes| Some(bytes[0])), Some(7u8));
    assert_eq!(attributes.configuration.route_metadata(|name| {
        assert_eq!(name, "xds.route_metadata");
        Some(vec![7])
    }, |_| None::<u8>), None);
    assert_eq!(attributes.wasm.node(|name| {
        assert_eq!(name, "node");
        Some(vec![8])
    }, |bytes| Some(bytes.len())), Some(1));
    assert_eq!(attributes.wasm.upstream_host_metadata(|name| {
        assert_eq!(name, "upstream_host_metadata");
        None
    }, |_| Some(1u8)), None);
}
