use proxy_sdk::context::{BaseContext, Context, RootContext};
use proxy_sdk::dispatcher::{
    set_root_context_factory, Callbacks, ContextCreation, Dispatcher, GrpcReceive, QueueCallback,
    RootInit,
};
use proxy_sdk::downcast_box::DowncastBox;
use proxy_sdk::entry::{
    id_of, proxy_on_context_create, proxy_on_delete, proxy_on_done, proxy_on_grpc_close,
    proxy_on_grpc_receive, proxy_on_http_call_response, proxy_on_queue_ready,
    proxy_on_request_headers, proxy_on_tick, proxy_on_vm_start, register_grpc_callback,
    register_grpc_stream_close, register_grpc_stream_initial_meta, register_grpc_stream_message,
    register_grpc_stream_trailing_metadata, register_http_callback, register_queue_callback,
};
use proxy_sdk::http::{FilterHeadersStatus, HttpContext, HttpControl, RequestHeaders};
use proxy_sdk::stream::StreamContext;
use proxy_sdk::Status;
use std::cell::Cell;
use std::rc::Rc;

struct Http(Rc<Cell<u32>>);

impl BaseContext for Http {
    fn on_done(&mut self) -> bool {
        false
    }
}

impl HttpContext for Http {
    fn on_http_request_headers(&mut self, headers: &RequestHeaders) -> FilterHeadersStatus {
        self.0.set(self.0.get() + if headers.end_of_stream() { 100 } else { 1 });
        FilterHeadersStatus::StopIteration
    }
}

struct Conn;

impl BaseContext for Conn {}

impl StreamContext for Conn {}

struct Root(Rc<Cell<u32>>);

impl BaseContext for Root {}

impl RootContext for Root {
    type Http = Http;
    type Stream = Conn;

    fn create_context(&mut self) -> Context<Http, Conn> {
        Context::Http(Http(self.0.clone()))
    }
}

struct Kinds;

impl Callbacks for Kinds {
    type Http = u8;
    type Grpc = u8;
    type StreamInitialMetadata = u8;
    type StreamMessage = u8;
    type StreamTrailingMetadata = u8;
    type StreamClose = u8;
    type Queue = u8;
    type QueueReceive = u8;
}

type Factory = Box<dyn Fn() -> DowncastBox<Root>>;

fn setup() -> (Dispatcher<Root, Kinds>, RootInit<Factory>, Rc<Cell<u32>>, Rc<Cell<u32>>) {
    let seen = Rc::new(Cell::new(0));
    let made = Rc::new(Cell::new(0));
    let mut init: RootInit<Factory> = RootInit::new();
    let (s, m) = (seen.clone(), made.clone());
    set_root_context_factory(
        &mut init,
        Box::new(move || {
            m.set(m.get() + 1);
            DowncastBox::from_box(Box::new(Root(s.clone())))
        }),
    );
    (Dispatcher::new(), init, seen, made)
}

fn accept(_: u32) -> Result<(), Status> {
    Ok(())
}

#[test]
fn ids_are_the_low_bits_of_the_numbers_of_the_host() {
    assert_eq!(id_of(0), 0);
    assert_eq!(id_of(7), 7);
    assert_eq!(id_of(u32::MAX as usize), u32::MAX);
    assert_eq!(id_of(usize::MAX), u32::MAX);
}

#[test]
fn events_go_to_their_contexts() {
    let (mut d, init, seen, made) = setup();
    proxy_on_context_create(&mut d, 0, 5, 0, &init);
    proxy_on_context_create(&mut d, 0, 9, 5, &init);
    assert_eq!(made.get(), 1);
    assert_eq!(proxy_on_request_headers(&mut d, 0, 9, 3, 0), FilterHeadersStatus::StopIteration);
    assert_eq!(seen.get(), 1);
    assert_eq!(proxy_on_request_headers(&mut d, 0, 9, 3, 2), FilterHeadersStatus::StopIteration);
    assert_eq!(seen.get(), 101);
    assert_eq!(proxy_on_request_headers(&mut d, 0, 42, 3, 0), FilterHeadersStatus::Continue);
    assert_eq!(proxy_on_done(&mut d, 0, 9), 0);
    assert_eq!(proxy_on_done(&mut d, 0, 5), 1);
    assert_eq!(proxy_on_done(&mut d, 0, 42), 1);
    assert_eq!(proxy_on_vm_start(&mut d, 0, 5, 0, |_, _, _| Ok(None)), 1);
    assert_eq!(proxy_on_vm_start(&mut d, 0, 5, 0, |_, _, _| Err(Status::NotFound)), 0);
    assert_eq!(proxy_on_vm_start(&mut d, 0, 6, 0, |_, _, _| Err(Status::NotFound)), 1);
    assert!(proxy_on_delete(&mut d, 0, 9));
    assert!(!proxy_on_delete(&mut d, 0, 9));
    assert!(proxy_on_queue_ready(&mut d, 0, 5, 1).is_none());
}

#[test]
fn first_event_of_a_new_generation_finds_nothing() {
    let (mut d, init, seen, made) = setup();
    proxy_on_context_create(&mut d, 3, 5, 0, &init);
    proxy_on_context_create(&mut d, 3, 9, 5, &init);
    proxy_on_tick(&mut d, 3, 5);
    d.register_http_callback(1, 1);
    d.register_grpc_callback(2, 2);
    d.register_grpc_stream_message(3, 3);
    assert_eq!(proxy_on_request_headers(&mut d, 4, 9, 0, 0), FilterHeadersStatus::Continue);
    assert_eq!(seen.get(), 0);
    assert!(!d.is_root(5));
    assert!(proxy_on_http_call_response(&mut d, 4, 1, 0, 0, 0, &accept).is_none());
    assert!(matches!(proxy_on_grpc_receive(&mut d, 4, 2, 0, &accept), GrpcReceive::Nothing));
    assert!(matches!(proxy_on_grpc_receive(&mut d, 4, 3, 0, &accept), GrpcReceive::Nothing));
    assert_eq!(made.get(), 1);
    proxy_on_context_create(&mut d, 4, 5, 0, &init);
    assert_eq!(made.get(), 2);
    assert!(d.is_root(5));
}

#[test]
fn completions_are_found_by_the_low_bits_of_the_token() {
    let (mut d, init, _, _) = setup();
    proxy_on_context_create(&mut d, 0, 5, 0, &init);
    proxy_on_tick(&mut d, 0, 5);
    d.register_http_callback(7, 70);
    d.register_grpc_callback(8, 80);
    let delivery = proxy_on_http_call_response(&mut d, 0, 7, 1, 2, 3, &accept).expect("delivery");
    assert_eq!(delivery.callback, 70);
    assert_eq!(delivery.response.body_size(), 2);
    match proxy_on_grpc_close(&mut d, 0, 8, 3, &accept, || Ok((3, None))) {
        proxy_sdk::dispatcher::GrpcClose::Call { delivery, status_mismatch } => {
            assert_eq!(delivery.callback, 80);
            assert!(!status_mismatch);
        }
        _ => panic!("the call is pending"),
    }
}

#[test]
fn announcement_of_a_context_says_what_became_of_it() {
    let (mut d, init, _, made) = setup();
    assert_eq!(proxy_on_context_create(&mut d, 0, 5, 0, &init), ContextCreation::RootMade);
    assert_eq!(proxy_on_context_create(&mut d, 0, 5, 0, &init), ContextCreation::RootKnown);
    assert_eq!(
        proxy_on_context_create(&mut d, 0, 9, 5, &init),
        ContextCreation::Child { reused: false }
    );
    assert_eq!(
        proxy_on_context_create(&mut d, 0, 9, 5, &init),
        ContextCreation::Child { reused: true }
    );
    assert_eq!(proxy_on_context_create(&mut d, 0, 8, 6, &init), ContextCreation::UnknownParent);
    assert_eq!(d.do_create_subcontext(6, 8), ContextCreation::UnknownParent);
    assert_eq!(d.do_create_subcontext(5, 8), ContextCreation::Child { reused: false });
    assert_eq!(made.get(), 1);
}

#[test]
fn registration_under_a_new_generation_finds_a_wiped_dispatcher() {
    let (mut d, init, _, _) = setup();
    proxy_on_context_create(&mut d, 0, 5, 0, &init);
    proxy_on_tick(&mut d, 0, 5);
    register_http_callback(&mut d, 0, 1, 10);
    register_grpc_stream_message(&mut d, 0, 2, 20);
    assert!(d.is_pending(1) && d.is_pending(2) && d.is_root(5));
    register_grpc_callback(&mut d, 1, 3, 30);
    assert!(!d.is_pending(1) && !d.is_pending(2) && !d.is_root(5));
    assert!(d.is_pending(3));
    assert_eq!((d.active_id(), d.root_id()), (0, 0));
    register_grpc_stream_close(&mut d, 1, 4, 40);
    register_grpc_stream_initial_meta(&mut d, 1, 4, 41);
    register_grpc_stream_trailing_metadata(&mut d, 1, 4, 42);
    register_queue_callback(&mut d, 1, 6, QueueCallback::Enqueue(60));
    assert!(d.is_pending(3) && d.is_pending(4));
}
