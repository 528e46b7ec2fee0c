use proxy_sdk::context::{BaseContext, Context, RootContext};
use proxy_sdk::dispatcher::{
    set_root_context_factory, Callbacks, Dispatcher, EffectiveContext, GrpcClose, GrpcReceive,
    QueueCallback, RootInit,
};
use proxy_sdk::downcast_box::DowncastBox;
use proxy_sdk::grpc_call::{GrpcCallResponse, GrpcCode};
use proxy_sdk::grpc_stream::{
    GrpcStreamClose, GrpcStreamHandle, GrpcStreamInitialMetadata, GrpcStreamMessage,
    GrpcStreamTrailingMetadata,
};
use proxy_sdk::hostcalls::BufferType;
use proxy_sdk::http::{
    FilterDataStatus, FilterHeadersStatus, FilterTrailersStatus, HttpContext, HttpControl,
    HttpHeaderControl, RequestHeaders, ResponseHeaders,
};
use proxy_sdk::http_call::HttpCallResponse;
use proxy_sdk::queue::Queue;
use proxy_sdk::stream::{CloseType, FilterStreamStatus, StreamClose, StreamContext};
use proxy_sdk::Status;
use std::cell::{Cell, RefCell};
use std::rc::Rc;

#[derive(Default)]
struct Log {
    headers: Cell<u32>,
    header_count: Cell<usize>,
    end_of_stream: Cell<bool>,
    connections: Cell<u32>,
    ticks: Cell<u32>,
    configured: RefCell<Vec<Option<Vec<u8>>>>,
    made: Cell<u32>,
    closed: Cell<u32>,
}

struct Http {
    log: Rc<Log>,
}

impl BaseContext for Http {
    fn on_done(&mut self) -> bool {
        false
    }
}

impl HttpContext for Http {
    fn on_http_request_headers(&mut self, headers: &RequestHeaders) -> FilterHeadersStatus {
        self.log.headers.set(self.log.headers.get() + 1);
        self.log.header_count.set(headers.header_count());
        self.log.end_of_stream.set(headers.end_of_stream());
        FilterHeadersStatus::Continue
    }

    fn on_http_response_headers(&mut self, _headers: &ResponseHeaders) -> FilterHeadersStatus {
        FilterHeadersStatus::StopIteration
    }
}

struct Stream {
    log: Rc<Log>,
}

impl BaseContext for Stream {}

impl StreamContext for Stream {
    fn on_new_connection(&mut self) -> FilterStreamStatus {
        self.log.connections.set(self.log.connections.get() + 1);
        FilterStreamStatus::StopIteration
    }

    fn on_downstream_close(&mut self, data: &StreamClose) {
        if data.close_type() == CloseType::Remote {
            self.log.closed.set(self.log.closed.get() + 1);
        }
    }
}

struct Root {
    log: Rc<Log>,
    streams: bool,
    hits: u32,
}

impl BaseContext for Root {}

impl RootContext for Root {
    type Http = Http;
    type Stream = Stream;

    fn on_configure(&mut self, configuration: Option<Vec<u8>>) -> bool {
        self.log.configured.borrow_mut().push(configuration);
        false
    }

    fn on_tick(&mut self) {
        self.log.ticks.set(self.log.ticks.get() + 1);
    }

    fn create_context(&mut self) -> Context<Http, Stream> {
        self.log.made.set(self.log.made.get() + 1);
        if self.streams {
            Context::Stream(Stream { log: self.log.clone() })
        } else {
            Context::Http(Http { log: self.log.clone() })
        }
    }
}

struct Kinds;

impl Callbacks for Kinds {
    type Http = Box<dyn FnOnce(&mut DowncastBox<Root>, &HttpCallResponse)>;
    type Grpc = Box<dyn FnOnce(&mut DowncastBox<Root>, &GrpcCallResponse)>;
    type StreamInitialMetadata =
        Rc<dyn Fn(&mut DowncastBox<Root>, GrpcStreamHandle, &GrpcStreamInitialMetadata)>;
    type StreamMessage = Rc<dyn Fn(&mut DowncastBox<Root>, GrpcStreamHandle, &GrpcStreamMessage)>;
    type StreamTrailingMetadata =
        Rc<dyn Fn(&mut DowncastBox<Root>, GrpcStreamHandle, &GrpcStreamTrailingMetadata)>;
    type StreamClose = Box<dyn FnOnce(&mut DowncastBox<Root>, &GrpcStreamClose)>;
    type Queue = Rc<dyn Fn(&mut DowncastBox<Root>, Queue)>;
    type QueueReceive = Rc<dyn Fn(&mut DowncastBox<Root>, Queue, Vec<u8>)>;
}

type Factory = Box<dyn Fn() -> DowncastBox<Root>>;

struct Fixture {
    log: Rc<Log>,
    factory_calls: Rc<Cell<u32>>,
    init: RootInit<Factory>,
    dispatcher: Dispatcher<Root, Kinds>,
    host_contexts: Rc<RefCell<Vec<u32>>>,
}

fn fixture(streams: bool) -> Fixture {
    let log = Rc::new(Log::default());
    let factory_calls = Rc::new(Cell::new(0));
    let mut init: RootInit<Factory> = RootInit::new();
    let (l, f) = (log.clone(), factory_calls.clone());
    set_root_context_factory(
        &mut init,
        Box::new(move || {
            f.set(f.get() + 1);
            DowncastBox::from_box(Box::new(Root { log: l.clone(), streams, hits: 0 }))
        }),
    );
    Fixture {
        log,
        factory_calls,
        init,
        dispatcher: Dispatcher::new(),
        host_contexts: Rc::new(RefCell::new(Vec::new())),
    }
}

impl Fixture {
    fn accept(&self) -> impl Fn(u32) -> Result<(), Status> {
        let seen = self.host_contexts.clone();
        move |id| {
            seen.borrow_mut().push(id);
            Ok(())
        }
    }

    fn hits(&mut self, root_id: u32) -> u32 {
        let mut root = self.dispatcher.take_root(root_id).expect("root");
        let hits = root.data.as_any_mut().downcast_mut::<Root>().expect("invalid root type").hits;
        self.dispatcher.restore_root(root_id, root);
        hits
    }
}

fn refuse(_id: u32) -> Result<(), Status> {
    Err(Status::BadArgument)
}

#[test]
fn end_to_end_scenario() {
    let mut fx = fixture(false);
    fx.dispatcher.on_create_context(5, 0, &fx.init);
    assert_eq!(fx.factory_calls.get(), 1);
    assert!(fx.dispatcher.is_root(5));
    fx.dispatcher.on_create_context(9, 5, &fx.init);
    assert_eq!(fx.log.made.get(), 1);
    assert!(fx.dispatcher.is_known(9));
    assert!(!fx.dispatcher.is_root(9));
    fx.log.end_of_stream.set(true);
    let status = fx.dispatcher.on_http_request_headers(9, 3, false);
    assert_eq!(status, FilterHeadersStatus::Continue);
    assert_eq!(fx.log.headers.get(), 1);
    assert_eq!(fx.log.header_count.get(), 3);
    assert!(!fx.log.end_of_stream.get());
    assert_eq!(fx.dispatcher.on_http_response_headers(9, 1, true), FilterHeadersStatus::StopIteration);
    assert_eq!(fx.dispatcher.active_id(), 9);
    assert_eq!(fx.dispatcher.root_id(), 5);
    let status = fx.dispatcher.on_http_request_headers(42, 3, false);
    assert_eq!(status, FilterHeadersStatus::Continue);
    assert_eq!(fx.log.headers.get(), 1);
    assert_eq!(fx.dispatcher.active_id(), 9);
    assert_eq!(fx.factory_calls.get(), 1);
}

#[test]
fn existing_root_is_not_made_again() {
    let mut fx = fixture(false);
    fx.dispatcher.on_create_context(5, 0, &fx.init);
    fx.dispatcher.on_create_context(5, 0, &fx.init);
    assert_eq!(fx.factory_calls.get(), 1);
}

#[test]
fn child_of_unknown_parent_is_rejected() {
    let mut fx = fixture(false);
    fx.dispatcher.on_create_context(5, 0, &fx.init);
    fx.dispatcher.on_create_context(9, 6, &fx.init);
    assert!(!fx.dispatcher.is_known(9));
    assert_eq!(fx.log.made.get(), 0);
    assert_eq!(fx.dispatcher.on_http_request_headers(9, 1, true), FilterHeadersStatus::Continue);
    assert_eq!(fx.dispatcher.on_http_request_body(9, 1, true), FilterDataStatus::Continue);
    assert_eq!(fx.dispatcher.on_http_request_trailers(9, 1), FilterTrailersStatus::Continue);
    assert_eq!(fx.dispatcher.on_new_connection(9), FilterStreamStatus::Continue);
    assert!(fx.dispatcher.on_done(9));
    assert_eq!(fx.log.headers.get(), 0);
}

#[test]
fn unknown_contexts_give_the_defaults() {
    let mut fx = fixture(false);
    assert_eq!(fx.dispatcher.on_http_response_headers(1, 0, false), FilterHeadersStatus::Continue);
    assert_eq!(fx.dispatcher.on_http_response_body(1, 0, false), FilterDataStatus::Continue);
    assert_eq!(fx.dispatcher.on_http_response_trailers(1, 0), FilterTrailersStatus::Continue);
    assert_eq!(fx.dispatcher.on_downstream_data(1, 0, false), FilterStreamStatus::Continue);
    assert_eq!(fx.dispatcher.on_upstream_data(1, 0, false), FilterStreamStatus::Continue);
    fx.dispatcher.on_downstream_close(1, CloseType::Remote);
    fx.dispatcher.on_upstream_close(1, CloseType::Local);
    fx.dispatcher.on_log(1);
    fx.dispatcher.on_tick(1);
    assert!(!fx.dispatcher.on_delete(1));
    assert!(fx.dispatcher.on_vm_start(1, 4, |_, _, _| Err(Status::InternalFailure)));
    assert!(fx.dispatcher.on_configure(1, 4, |_, _, _| Err(Status::InternalFailure)));
    assert_eq!(fx.dispatcher.active_id(), 0);
    assert_eq!(fx.dispatcher.root_id(), 0);
}

#[test]
fn connection_contexts_handle_connection_events() {
    let mut fx = fixture(true);
    fx.dispatcher.on_create_context(1, 0, &fx.init);
    fx.dispatcher.on_create_context(2, 1, &fx.init);
    assert_eq!(fx.dispatcher.on_new_connection(2), FilterStreamStatus::StopIteration);
    assert_eq!(fx.log.connections.get(), 1);
    assert_eq!((fx.dispatcher.active_id(), fx.dispatcher.root_id()), (2, 1));
    fx.dispatcher.on_downstream_close(2, CloseType::Remote);
    assert_eq!(fx.log.closed.get(), 1);
    assert_eq!(fx.dispatcher.on_http_request_headers(2, 1, false), FilterHeadersStatus::Continue);
    assert!(fx.dispatcher.on_done(2));
    assert!(fx.dispatcher.on_delete(2));
    assert!(!fx.dispatcher.is_known(2));
    assert_eq!(fx.dispatcher.on_new_connection(2), FilterStreamStatus::Continue);
}

#[test]
fn done_asks_the_context() {
    let mut fx = fixture(false);
    fx.dispatcher.on_create_context(1, 0, &fx.init);
    fx.dispatcher.on_create_context(2, 1, &fx.init);
    assert!(!fx.dispatcher.on_done(2));
    assert!(fx.dispatcher.on_done(1));
    assert_eq!((fx.dispatcher.active_id(), fx.dispatcher.root_id()), (1, 1));
}

#[test]
fn delete_takes_children_before_roots() {
    let mut fx = fixture(false);
    fx.dispatcher.on_create_context(1, 0, &fx.init);
    fx.dispatcher.on_create_context(1, 1, &fx.init);
    assert!(fx.dispatcher.on_delete(1));
    assert!(fx.dispatcher.is_root(1));
    assert_eq!(fx.dispatcher.on_http_request_headers(1, 0, true), FilterHeadersStatus::Continue);
    assert!(fx.dispatcher.on_delete(1));
    assert!(!fx.dispatcher.is_root(1));
    assert!(!fx.dispatcher.on_delete(1));
}

#[test]
fn configure_hands_the_configuration_to_the_root() {
    let mut fx = fixture(false);
    fx.dispatcher.on_create_context(1, 0, &fx.init);
    let asked = Rc::new(RefCell::new(Vec::new()));
    let a = asked.clone();
    let ok = fx.dispatcher.on_configure(1, 7, move |buffer, start, size| {
        a.borrow_mut().push((buffer, start, size));
        Ok(Some(vec![1, 2, 3]))
    });
    assert!(!ok);
    assert_eq!(*asked.borrow(), vec![(BufferType::PluginConfiguration, 0, 7)]);
    assert_eq!(*fx.log.configured.borrow(), vec![Some(vec![1, 2, 3])]);
    assert!(!fx.dispatcher.on_configure(1, 7, |_, _, _| Err(Status::InternalFailure)));
    assert_eq!(fx.log.configured.borrow().len(), 1);
    let asked = Rc::new(RefCell::new(Vec::new()));
    let a = asked.clone();
    assert!(fx.dispatcher.on_vm_start(1, 9, move |buffer, start, size| {
        a.borrow_mut().push((buffer, start, size));
        Ok(None)
    }));
    assert_eq!(*asked.borrow(), vec![(BufferType::VmConfiguration, 0, 9)]);
}

#[test]
fn http_call_is_delivered_exactly_once() {
    let mut fx = fixture(false);
    fx.dispatcher.on_create_context(5, 0, &fx.init);
    fx.dispatcher.on_create_context(9, 5, &fx.init);
    fx.dispatcher.on_http_request_headers(9, 0, false);
    let seen = Rc::new(Cell::new((0usize, 0usize, 0usize)));
    let s = seen.clone();
    fx.dispatcher.register_http_callback(
        77,
        Box::new(move |root, response| {
            root.as_any_mut().downcast_mut::<Root>().expect("invalid root type").hits += 1;
            s.set((response.num_headers(), response.body_size(), response.num_trailers()));
        }),
    );
    fx.dispatcher.on_tick(5);
    assert_eq!((fx.dispatcher.active_id(), fx.dispatcher.root_id()), (5, 5));
    let accept = fx.accept();
    let delivery = fx.dispatcher.on_http_call_response(77, 1, 2, 3, &accept).expect("delivery");
    assert_eq!(delivery.root_context_id, 5);
    assert_eq!((fx.dispatcher.active_id(), fx.dispatcher.root_id()), (9, 5));
    assert_eq!(*fx.host_contexts.borrow(), vec![9]);
    let mut root = fx.dispatcher.take_root(5).expect("root");
    (delivery.callback)(&mut root.data, &delivery.response);
    fx.dispatcher.restore_root(5, root);
    delivery.scope.exit(&mut fx.dispatcher, &accept);
    assert_eq!(seen.get(), (1, 2, 3));
    assert_eq!((fx.dispatcher.active_id(), fx.dispatcher.root_id()), (5, 5));
    assert_eq!(*fx.host_contexts.borrow(), vec![9, 5]);
    assert_eq!(fx.hits(5), 1);
    assert!(!fx.dispatcher.is_pending(77));
    assert!(fx.dispatcher.on_http_call_response(77, 1, 2, 3, &accept).is_none());
    assert_eq!(*fx.host_contexts.borrow(), vec![9, 5]);
    assert_eq!(fx.hits(5), 1);
}

#[test]
fn call_of_a_dead_root_is_dropped() {
    let mut fx = fixture(false);
    fx.dispatcher.register_http_callback(1, Box::new(|_, _| panic!("not to be called")));
    let accept = fx.accept();
    assert!(fx.dispatcher.on_http_call_response(1, 0, 0, 0, &accept).is_none());
    assert!(!fx.dispatcher.is_pending(1));
    assert!(fx.host_contexts.borrow().is_empty());
}

#[test]
fn call_that_the_host_rejects_is_dropped() {
    let mut fx = fixture(false);
    fx.dispatcher.on_create_context(5, 0, &fx.init);
    fx.dispatcher.on_tick(5);
    fx.dispatcher.register_grpc_callback(1, Box::new(|_, _| panic!("not to be called")));
    fx.dispatcher.on_create_context(6, 0, &fx.init);
    fx.dispatcher.on_tick(6);
    assert!(matches!(fx.dispatcher.on_grpc_receive(1, 10, &refuse), GrpcReceive::Nothing));
    assert!(!fx.dispatcher.is_pending(1));
    assert_eq!((fx.dispatcher.active_id(), fx.dispatcher.root_id()), (6, 6));
}

#[test]
fn grpc_call_is_delivered_on_receive() {
    let mut fx = fixture(false);
    fx.dispatcher.on_create_context(5, 0, &fx.init);
    fx.dispatcher.on_tick(5);
    fx.dispatcher.register_grpc_callback(3, Box::new(|_, _| {}));
    let accept = fx.accept();
    match fx.dispatcher.on_grpc_receive(3, 11, &accept) {
        GrpcReceive::Call(delivery) => {
            assert_eq!(delivery.response.handle_id(), 3);
            assert_eq!(delivery.response.status_code(), GrpcCode::Success);
            assert_eq!(delivery.response.status_message(), None);
            assert_eq!(delivery.response.body_size(), 11);
            delivery.scope.exit(&mut fx.dispatcher, &accept);
        }
        _ => panic!("the call is pending"),
    }
    assert!(matches!(fx.dispatcher.on_grpc_receive(3, 11, &accept), GrpcReceive::Nothing));
    assert!(matches!(
        fx.dispatcher.on_grpc_close(3, 0, &accept, || Ok((0, None))),
        GrpcClose::Nothing
    ));
}

#[test]
fn grpc_close_takes_the_status_that_the_host_gives_when_asked() {
    let mut fx = fixture(false);
    fx.dispatcher.on_create_context(5, 0, &fx.init);
    fx.dispatcher.on_tick(5);
    fx.dispatcher.register_grpc_callback(3, Box::new(|_, _| {}));
    fx.dispatcher.register_grpc_callback(4, Box::new(|_, _| {}));
    fx.dispatcher.register_grpc_callback(6, Box::new(|_, _| {}));
    let accept = fx.accept();
    match fx.dispatcher.on_grpc_close(3, 2, &accept, || Ok((14, Some("gone".to_string())))) {
        GrpcClose::Call { delivery, status_mismatch } => {
            assert!(status_mismatch);
            assert_eq!(delivery.response.handle_id(), 3);
            assert_eq!(delivery.response.status_code(), GrpcCode::Unavailable);
            assert_eq!(delivery.response.status_message(), Some("gone"));
            assert_eq!(delivery.response.body_size(), 0);
            delivery.scope.exit(&mut fx.dispatcher, &accept);
        }
        _ => panic!("the call is pending"),
    }
    match fx.dispatcher.on_grpc_close(4, 99, &accept, || Ok((99, None))) {
        GrpcClose::Call { delivery, status_mismatch } => {
            assert!(!status_mismatch);
            assert_eq!(delivery.response.status_code(), GrpcCode::Other(99));
            delivery.scope.exit(&mut fx.dispatcher, &accept);
        }
        _ => panic!("the call is pending"),
    }
    fx.dispatcher.on_create_context(7, 0, &fx.init);
    fx.dispatcher.on_tick(7);
    fx.host_contexts.borrow_mut().clear();
    assert!(matches!(
        fx.dispatcher.on_grpc_close(6, 0, &accept, || Err(Status::InternalFailure)),
        GrpcClose::Nothing
    ));
    assert_eq!(*fx.host_contexts.borrow(), vec![5, 7]);
    assert_eq!((fx.dispatcher.active_id(), fx.dispatcher.root_id()), (7, 7));
    assert!(!fx.dispatcher.is_pending(6));
}

#[test]
fn stream_with_only_a_message_callback() {
    let mut fx = fixture(false);
    fx.dispatcher.on_create_context(5, 0, &fx.init);
    fx.dispatcher.on_tick(5);
    let messages = Rc::new(Cell::new(0));
    let m = messages.clone();
    fx.dispatcher.register_grpc_stream_message(
        8,
        Rc::new(move |_, handle, message| {
            assert!(handle.eq_token(8));
            assert_eq!(message.body_size(), 21);
            m.set(m.get() + 1);
        }),
    );
    let accept = fx.accept();
    assert!(fx.dispatcher.on_grpc_receive_initial_metadata(8, 2, &accept).is_none());
    assert!(fx.dispatcher.on_grpc_receive_trailing_metadata(8, 2, &accept).is_none());
    assert!(fx.host_contexts.borrow().is_empty());
    for round in 1..=2 {
        match fx.dispatcher.on_grpc_receive(8, 21, &accept) {
            GrpcReceive::Stream(delivery) => {
                let mut root = fx.dispatcher.take_root(5).expect("root");
                (delivery.callback)(&mut root.data, delivery.handle, &delivery.response);
                fx.dispatcher.restore_root(5, root);
                delivery.scope.exit(&mut fx.dispatcher, &accept);
            }
            _ => panic!("the stream has a message callback"),
        }
        assert_eq!(messages.get(), round);
        assert!(fx.dispatcher.is_pending(8));
    }
    assert!(matches!(
        fx.dispatcher.on_grpc_close(8, 0, &accept, || Ok((0, None))),
        GrpcClose::Nothing
    ));
    assert!(!fx.dispatcher.is_pending(8));
    assert!(matches!(fx.dispatcher.on_grpc_receive(8, 21, &accept), GrpcReceive::Nothing));
    assert_eq!(messages.get(), 2);
}

#[test]
fn stream_metadata_and_close_callbacks() {
    let mut fx = fixture(false);
    fx.dispatcher.on_create_context(5, 0, &fx.init);
    fx.dispatcher.on_tick(5);
    fx.dispatcher.register_grpc_stream_initial_meta(8, Rc::new(|_, _, _| {}));
    fx.dispatcher.register_grpc_stream_trailing_metadata(8, Rc::new(|_, _, _| {}));
    fx.dispatcher.register_grpc_stream_close(8, Box::new(|_, _| {}));
    let accept = fx.accept();
    let delivery = fx.dispatcher.on_grpc_receive_initial_metadata(8, 4, &accept).expect("initial");
    assert_eq!(delivery.response.num_elements(), 4);
    assert!(delivery.handle.eq_token(8));
    delivery.scope.exit(&mut fx.dispatcher, &accept);
    let delivery = fx.dispatcher.on_grpc_receive_trailing_metadata(8, 6, &accept).expect("trailing");
    assert_eq!(delivery.response.num_elements(), 6);
    delivery.scope.exit(&mut fx.dispatcher, &accept);
    assert!(matches!(fx.dispatcher.on_grpc_receive(8, 1, &accept), GrpcReceive::Nothing));
    match fx.dispatcher.on_grpc_close(8, 0, &accept, || Ok((5, None))) {
        GrpcClose::Stream(delivery) => {
            assert_eq!(delivery.response.handle_id(), 8);
            assert_eq!(delivery.response.status_code(), GrpcCode::NotFound);
            assert_eq!(delivery.response.status_message(), None);
            delivery.scope.exit(&mut fx.dispatcher, &accept);
        }
        _ => panic!("the stream has a close callback"),
    }
    assert!(!fx.dispatcher.is_pending(8));
}

#[test]
fn stream_of_another_context_is_not_altered() {
    let mut fx = fixture(false);
    fx.dispatcher.on_create_context(5, 0, &fx.init);
    fx.dispatcher.on_create_context(6, 0, &fx.init);
    fx.dispatcher.on_tick(5);
    let first = Rc::new(Cell::new(0));
    let f = first.clone();
    fx.dispatcher.register_grpc_stream_message(8, Rc::new(move |_, _, _| f.set(f.get() + 1)));
    fx.dispatcher.on_tick(6);
    fx.dispatcher.register_grpc_stream_message(8, Rc::new(|_, _, _| panic!("not to be called")));
    fx.dispatcher.register_grpc_stream_close(8, Box::new(|_, _| panic!("not to be called")));
    fx.dispatcher.register_grpc_stream_initial_meta(8, Rc::new(|_, _, _| panic!("no")));
    fx.dispatcher.register_grpc_stream_trailing_metadata(8, Rc::new(|_, _, _| panic!("no")));
    let accept = fx.accept();
    match fx.dispatcher.on_grpc_receive(8, 0, &accept) {
        GrpcReceive::Stream(delivery) => {
            assert_eq!(delivery.root_context_id, 5);
            assert_eq!((fx.dispatcher.active_id(), fx.dispatcher.root_id()), (5, 5));
            let mut root = fx.dispatcher.take_root(5).expect("root");
            (delivery.callback)(&mut root.data, delivery.handle, &delivery.response);
            fx.dispatcher.restore_root(5, root);
            delivery.scope.exit(&mut fx.dispatcher, &accept);
        }
        _ => panic!("the stream has a message callback"),
    }
    assert_eq!(first.get(), 1);
    assert!(fx.dispatcher.on_grpc_receive_initial_metadata(8, 0, &accept).is_none());
    assert!(matches!(
        fx.dispatcher.on_grpc_close(8, 0, &accept, || Ok((0, None))),
        GrpcClose::Nothing
    ));
}

#[test]
fn same_context_replaces_its_stream_callback() {
    let mut fx = fixture(false);
    fx.dispatcher.on_create_context(5, 0, &fx.init);
    fx.dispatcher.on_tick(5);
    let second = Rc::new(Cell::new(0));
    let s = second.clone();
    fx.dispatcher.register_grpc_stream_message(8, Rc::new(|_, _, _| panic!("replaced")));
    fx.dispatcher.register_grpc_stream_message(8, Rc::new(move |_, _, _| s.set(s.get() + 1)));
    let accept = fx.accept();
    match fx.dispatcher.on_grpc_receive(8, 0, &accept) {
        GrpcReceive::Stream(delivery) => {
            let mut root = fx.dispatcher.take_root(5).expect("root");
            (delivery.callback)(&mut root.data, delivery.handle, &delivery.response);
            fx.dispatcher.restore_root(5, root);
            delivery.scope.exit(&mut fx.dispatcher, &accept);
        }
        _ => panic!("the stream has a message callback"),
    }
    assert_eq!(second.get(), 1);
}

#[test]
fn new_generation_wipes_everything() {
    let mut fx = fixture(false);
    fx.dispatcher.dispatch(0);
    fx.dispatcher.on_create_context(5, 0, &fx.init);
    fx.dispatcher.on_create_context(9, 5, &fx.init);
    fx.dispatcher.on_tick(5);
    fx.dispatcher.register_http_callback(1, Box::new(|_, _| panic!("wiped")));
    fx.dispatcher.register_grpc_callback(2, Box::new(|_, _| panic!("wiped")));
    fx.dispatcher.register_grpc_stream_message(3, Rc::new(|_, _, _| panic!("wiped")));
    fx.dispatcher.register_queue_callback(4, QueueCallback::Enqueue(Rc::new(|_, _| panic!("wiped"))));
    fx.dispatcher.dispatch(0);
    assert!(fx.dispatcher.is_root(5));
    assert!(fx.dispatcher.is_pending(1));
    fx.dispatcher.dispatch(1);
    assert!(!fx.dispatcher.is_root(5));
    assert!(!fx.dispatcher.is_known(9));
    assert!(!fx.dispatcher.is_pending(1));
    assert!(!fx.dispatcher.is_pending(2));
    assert!(!fx.dispatcher.is_pending(3));
    assert_eq!((fx.dispatcher.active_id(), fx.dispatcher.root_id()), (0, 0));
    let accept = fx.accept();
    assert!(fx.dispatcher.on_http_call_response(1, 0, 0, 0, &accept).is_none());
    assert!(fx.dispatcher.on_queue_ready(5, 4).is_none());
    assert_eq!(fx.dispatcher.on_http_request_headers(9, 0, false), FilterHeadersStatus::Continue);
    assert_eq!(fx.factory_calls.get(), 1);
    fx.dispatcher.on_create_context(5, 0, &fx.init);
    assert_eq!(fx.factory_calls.get(), 2);
    assert!(fx.dispatcher.is_root(5));
}

#[test]
fn reset_starts_a_new_generation_and_forgets_the_factory() {
    let mut fx = fixture(false);
    assert_eq!(proxy_sdk::reset(0, &mut fx.init), 1);
    assert!(fx.init.factory.is_none());
    assert_eq!(proxy_sdk::reset(usize::MAX, &mut fx.init), 0);
}

#[test]
fn scope_restores_the_active_pair() {
    let mut fx = fixture(false);
    fx.dispatcher.on_create_context(5, 0, &fx.init);
    fx.dispatcher.on_create_context(9, 5, &fx.init);
    fx.dispatcher.on_create_context(6, 0, &fx.init);
    fx.dispatcher.on_http_request_headers(9, 0, false);
    let accept = fx.accept();
    let scope = EffectiveContext::enter(&mut fx.dispatcher, 6, 6, "test", &accept).expect("scope");
    assert_eq!((fx.dispatcher.active_id(), fx.dispatcher.root_id()), (6, 6));
    fx.dispatcher.on_tick(5);
    assert_eq!((fx.dispatcher.active_id(), fx.dispatcher.root_id()), (5, 5));
    scope.exit(&mut fx.dispatcher, &accept);
    assert_eq!((fx.dispatcher.active_id(), fx.dispatcher.root_id()), (9, 5));
    assert_eq!(*fx.host_contexts.borrow(), vec![6, 9]);
    assert!(EffectiveContext::enter(&mut fx.dispatcher, 6, 6, "test", &refuse).is_none());
    assert_eq!((fx.dispatcher.active_id(), fx.dispatcher.root_id()), (9, 5));
}

#[test]
fn scope_exit_does_not_depend_on_the_host() {
    let mut fx = fixture(false);
    fx.dispatcher.on_create_context(5, 0, &fx.init);
    fx.dispatcher.on_tick(5);
    let accept = fx.accept();
    let scope = EffectiveContext::enter(&mut fx.dispatcher, 1, 2, "test", &accept).expect("scope");
    scope.exit(&mut fx.dispatcher, &refuse);
    assert_eq!((fx.dispatcher.active_id(), fx.dispatcher.root_id()), (5, 5));
}

#[test]
fn queue_callbacks_are_delivered_each_time() {
    let mut fx = fixture(false);
    fx.dispatcher.on_create_context(5, 0, &fx.init);
    fx.dispatcher.on_http_request_headers(0, 0, false);
    let calls = Rc::new(Cell::new(0));
    let c = calls.clone();
    let queue = Queue(12).on_enqueue(
        &mut fx.dispatcher,
        Rc::new(move |_: &mut DowncastBox<Root>, queue: Queue| {
            assert!(queue.eq_id(12));
            c.set(c.get() + 1);
        }),
    );
    assert!(queue.eq_id(12));
    assert!(fx.dispatcher.on_queue_ready(6, 12).is_none());
    assert!(fx.dispatcher.on_queue_ready(5, 13).is_none());
    for round in 1..=3 {
        let delivery = fx.dispatcher.on_queue_ready(5, 12).expect("delivery");
        assert_eq!(delivery.root_context_id, 5);
        let mut root = fx.dispatcher.take_root(5).expect("root");
        match delivery.callback {
            QueueCallback::Enqueue(callback) => callback(&mut root.data, delivery.queue),
            QueueCallback::Receive(_) => panic!("registered with on_enqueue"),
        }
        fx.dispatcher.restore_root(5, root);
        assert_eq!(calls.get(), round);
    }
    assert_eq!((fx.dispatcher.active_id(), fx.dispatcher.root_id()), (0, 0));
}

#[test]
fn queue_receive_empties_the_queue() {
    let mut fx = fixture(false);
    fx.dispatcher.on_create_context(5, 0, &fx.init);
    let got = Rc::new(RefCell::new(Vec::new()));
    let g = got.clone();
    Queue(12).on_enqueue(&mut fx.dispatcher, Rc::new(|_, _| panic!("replaced")));
    Queue(12).on_receive(
        &mut fx.dispatcher,
        Rc::new(move |_: &mut DowncastBox<Root>, _: Queue, item: Vec<u8>| g.borrow_mut().push(item)),
    );
    let host = RefCell::new(vec![
        Ok(Some(vec![1u8])),
        Ok(Some(vec![2u8, 3])),
        Ok(None),
        Ok(Some(vec![4u8])),
    ]);
    let delivery = fx.dispatcher.on_queue_ready(5, 12).expect("delivery");
    let mut root = fx.dispatcher.take_root(5).expect("root");
    match delivery.callback {
        QueueCallback::Receive(callback) => {
            while let Some(item) = delivery.queue.receive(|id| {
                assert_eq!(id, 12);
                host.borrow_mut().remove(0)
            }) {
                callback(&mut root.data, delivery.queue, item);
            }
        }
        QueueCallback::Enqueue(_) => panic!("registered with on_receive"),
    }
    fx.dispatcher.restore_root(5, root);
    assert_eq!(*got.borrow(), vec![vec![1u8], vec![2, 3]]);
    assert_eq!(host.borrow().len(), 1);
    assert_eq!(Queue(1).receive(|_| Err(Status::Empty)), None);
}

#[test]
fn context_of_the_other_kind_stays_under_a_reused_id() {
    let mut fx = fixture(true);
    fx.dispatcher.on_create_context(5, 0, &fx.init);
    fx.dispatcher.on_create_context(9, 5, &fx.init);
    assert_eq!(fx.dispatcher.on_new_connection(9), FilterStreamStatus::StopIteration);
    let mut root = fx.dispatcher.take_root(5).expect("root");
    root.data.downcast_mut::<Root>().expect("invalid root type").streams = false;
    fx.dispatcher.restore_root(5, root);
    fx.dispatcher.on_create_context(9, 5, &fx.init);
    assert_eq!(fx.log.made.get(), 2);
    assert_eq!(fx.factory_calls.get(), 1);
    assert_eq!(fx.dispatcher.on_http_request_headers(9, 1, false), FilterHeadersStatus::Continue);
    assert_eq!(fx.log.headers.get(), 1);
    assert_eq!(fx.dispatcher.on_new_connection(9), FilterStreamStatus::StopIteration);
    assert_eq!(fx.log.connections.get(), 2);
    assert!(fx.dispatcher.on_delete(9));
    assert_eq!(fx.dispatcher.on_http_request_headers(9, 1, false), FilterHeadersStatus::Continue);
    assert_eq!(fx.log.headers.get(), 1);
    assert_eq!(fx.dispatcher.on_new_connection(9), FilterStreamStatus::StopIteration);
    assert!(fx.dispatcher.on_delete(9));
    assert!(!fx.dispatcher.is_known(9));
}

#[test]
fn handlers_get_the_values_of_the_event_and_their_answers_come_back() {
    let mut fx = fixture(false);
    fx.dispatcher.on_create_context(5, 0, &fx.init);
    fx.dispatcher.on_create_context(9, 5, &fx.init);
    assert_eq!(fx.log.made.get(), 1);
    assert_eq!(fx.dispatcher.on_http_request_headers(9, 3, false), FilterHeadersStatus::Continue);
    assert_eq!((fx.log.headers.get(), fx.log.header_count.get()), (1, 3));
    assert!(!fx.log.end_of_stream.get());
    assert_eq!(fx.dispatcher.on_http_request_headers(9, 4, true), FilterHeadersStatus::Continue);
    assert_eq!((fx.log.headers.get(), fx.log.header_count.get()), (2, 4));
    assert!(fx.log.end_of_stream.get());
    assert_eq!(
        fx.dispatcher.on_http_response_headers(9, 1, true),
        FilterHeadersStatus::StopIteration
    );
    assert!(!fx.dispatcher.on_done(9));
    assert!(fx.dispatcher.is_known(9));
    assert!(!fx.dispatcher.on_configure(5, 2, |_, _, _| Ok(Some(vec![7, 8]))));
    assert_eq!(*fx.log.configured.borrow(), vec![Some(vec![7, 8])]);
    fx.dispatcher.on_tick(5);
    assert_eq!(fx.log.ticks.get(), 1);
}
