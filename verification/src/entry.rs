use crate::context::{BaseContext, Context, RootContext};
use crate::dispatcher::{
    Callbacks, ContextCreation, Delivery, Dispatcher, EffectiveContext, GrpcClose, GrpcReceive,
    GrpcStreamCallback, QueueCallback, QueueDelivery, RootInfo, RootInit, StreamDelivery,
};
use crate::downcast_box::DowncastBox;
use crate::grpc_call::GrpcCode;
use crate::grpc_stream::{
    GrpcStreamHandle, GrpcStreamInitialMetadata, GrpcStreamTrailingMetadata,
};
use crate::hostcalls::BufferType;
use crate::http::{
    FilterDataStatus, FilterHeadersStatus, FilterTrailersStatus, HttpBodyControl, HttpContext,
    HttpControl, HttpHeaderControl, RequestBody, RequestHeaders, RequestTrailers, ResponseBody,
    ResponseHeaders, ResponseTrailers,
};
use crate::http_call::HttpCallResponse;
use crate::queue::Queue;
use crate::status::Status;
use crate::stream::{
    CloseType, DownstreamData, FilterStreamStatus, StreamClose, StreamContext, StreamDataControl,
    UpstreamData,
};
use vstd::prelude::*;

verus! {

/// The id that the host means by a number of its own width: the low 32
/// bits.
pub open spec fn spec_id(number: usize) -> u32 {
    number as u32
}

/// The id that the host means by a number of its own width.
pub fn id_of(number: usize) -> (r: u32)
    ensures
        r == spec_id(number),
{
    #[verifier::truncate]
    (number as u32)
}

/// The host announces a context. The dispatcher is made ready for the
/// generation first, as for every event. The result says what became of
/// the announcement.
pub fn proxy_on_context_create<
    T: RootContext + ?Sized,
    K: Callbacks,
    F: Fn() -> DowncastBox<T>,
>(
    dispatcher: &mut Dispatcher<T, K>,
    generation: usize,
    context_id: usize,
    root_context_id: usize,
    init: &RootInit<F>,
) -> (r: ContextCreation)
    requires
        spec_id(root_context_id) == 0 ==> init.can_make(
            old(dispatcher)@.synced(generation).roots.contains_key(spec_id(context_id)),
        ),
    ensures
        ({
            let pre = old(dispatcher)@.synced(generation);
            let post = final(dispatcher)@;
            let id = spec_id(context_id);
            let parent = spec_id(root_context_id);
            &&& r == pre.creation(id, parent)
            &&& parent == 0 && pre.roots.contains_key(id) ==> post == pre
            &&& parent == 0 && !pre.roots.contains_key(id) ==> exists|made: DowncastBox<T>|
                #[trigger] call_ensures(init.factory->0, (), made) && post == pre.with_root(
                    id,
                    RootInfo { data: made },
                )
            &&& parent != 0 && pre.roots.contains_key(parent) ==> pre.child_created(
                post,
                parent,
                id,
            )
            &&& parent != 0 && !pre.roots.contains_key(parent) ==> post == pre
            &&& parent != 0 && pre.roots.contains_key(parent) ==> exists|
                target: &mut T,
                made: Context<T::Http, T::Stream>,
            |
                pre.roots[parent].data.holds(target) && post.roots[parent].data.holds(
                    final(target),
                ) && #[trigger] call_ensures(<T as RootContext>::create_context, (target,), made)
                    && pre.child_stored(post, parent, id, made)
        }),
{
    dispatcher.dispatch(generation);
    dispatcher.on_create_context(id_of(context_id), id_of(root_context_id), init)
}

/// All processing for a context is complete. The result is 1 where the
/// context may be deleted at once, else 0.
pub fn proxy_on_done<T: RootContext + ?Sized, K: Callbacks>(
    dispatcher: &mut Dispatcher<T, K>,
    generation: usize,
    context_id: usize,
) -> (r: usize)
    ensures
        r == 0 || r == 1,
        ({
            let pre = old(dispatcher)@.synced(generation);
            let post = final(dispatcher)@;
            let id = spec_id(context_id);
            &&& pre.http_streams.contains_key(id) ==> pre.http_stream_handled(post, id)
            &&& !pre.http_streams.contains_key(id) && pre.streams.contains_key(id)
                ==> pre.stream_handled(post, id)
            &&& !pre.http_streams.contains_key(id) && !pre.streams.contains_key(id)
                && pre.roots.contains_key(id) ==> pre.root_handled(post, id)
            &&& !pre.knows(id) ==> r == 1 && post == pre
            &&& pre.http_streams.contains_key(id) ==> exists|target: &mut T::Http, answer: bool|
                *target == pre.http_streams[id].data
                    && *final(target) == post.http_streams[id].data
                    && #[trigger] call_ensures(<T::Http as BaseContext>::on_done, (target,), answer)
                    && r == (if answer { 1usize } else { 0usize })
            &&& !pre.http_streams.contains_key(id) && pre.streams.contains_key(id)
                ==> exists|target: &mut T::Stream, answer: bool|
                *target == pre.streams[id].data
                    && *final(target) == post.streams[id].data
                    && #[trigger] call_ensures(<T::Stream as BaseContext>::on_done, (target,),
                        answer)
                    && r == (if answer { 1usize } else { 0usize })
            &&& !pre.http_streams.contains_key(id) && !pre.streams.contains_key(id)
                && pre.roots.contains_key(id) ==> exists|target: &mut T, answer: bool|
                pre.roots[id].data.holds(target)
                    && post.roots[id].data.holds(final(target))
                    && #[trigger] call_ensures(<T as BaseContext>::on_done, (target,), answer)
                    && r == (if answer { 1usize } else { 0usize })
        }),
{
    dispatcher.dispatch(generation);
    if dispatcher.on_done(id_of(context_id)) {
        1
    } else {
        0
    }
}

/// A context is to write its access log.
pub fn proxy_on_log<T: RootContext + ?Sized, K: Callbacks>(
    dispatcher: &mut Dispatcher<T, K>,
    generation: usize,
    context_id: usize,
)
    ensures
        ({
            let pre = old(dispatcher)@.synced(generation);
            let post = final(dispatcher)@;
            let id = spec_id(context_id);
            &&& pre.http_streams.contains_key(id) ==> pre.http_stream_handled(post, id)
            &&& !pre.http_streams.contains_key(id) && pre.streams.contains_key(id)
                ==> pre.stream_handled(post, id)
            &&& !pre.http_streams.contains_key(id) && !pre.streams.contains_key(id)
                && pre.roots.contains_key(id) ==> pre.root_handled(post, id)
            &&& !pre.knows(id) ==> post == pre
            &&& pre.http_streams.contains_key(id) ==> exists|target: &mut T::Http|
                *target == pre.http_streams[id].data
                    && *final(target) == post.http_streams[id].data
                    && #[trigger] call_ensures(<T::Http as BaseContext>::on_log, (target,), ())
            &&& !pre.http_streams.contains_key(id) && pre.streams.contains_key(id)
                ==> exists|target: &mut T::Stream|
                *target == pre.streams[id].data
                    && *final(target) == post.streams[id].data
                    && #[trigger] call_ensures(<T::Stream as BaseContext>::on_log, (target,), ())
            &&& !pre.http_streams.contains_key(id) && !pre.streams.contains_key(id)
                && pre.roots.contains_key(id) ==> exists|target: &mut T|
                pre.roots[id].data.holds(target)
                    && post.roots[id].data.holds(final(target))
                    && #[trigger] call_ensures(<T as BaseContext>::on_log, (target,), ())
        }),
{
    dispatcher.dispatch(generation);
    dispatcher.on_log(id_of(context_id))
}

/// A context is deleted. The result says whether it was known.
pub fn proxy_on_delete<T: RootContext + ?Sized, K: Callbacks>(
    dispatcher: &mut Dispatcher<T, K>,
    generation: usize,
    context_id: usize,
) -> (known: bool)
    ensures
        final(dispatcher)@ == old(dispatcher)@.synced(generation).without_context(
            spec_id(context_id),
        ),
        known == old(dispatcher)@.synced(generation).knows(spec_id(context_id)),
{
    dispatcher.dispatch(generation);
    dispatcher.on_delete(id_of(context_id))
}

/// The VM starts. The result is 1 where startup may go on, else 0.
pub fn proxy_on_vm_start<
    T: RootContext + ?Sized,
    K: Callbacks,
    B: FnOnce(BufferType, usize, usize) -> Result<Option<Vec<u8>>, Status>,
>(
    dispatcher: &mut Dispatcher<T, K>,
    generation: usize,
    context_id: usize,
    vm_configuration_size: usize,
    get_buffer: B,
) -> (r: usize)
    requires
        call_requires(get_buffer, (BufferType::VmConfiguration, 0usize, vm_configuration_size)),
    ensures
        r == 0 || r == 1,
        ({
            let pre = old(dispatcher)@.synced(generation);
            let post = final(dispatcher)@;
            let id = spec_id(context_id);
            &&& !pre.roots.contains_key(id) ==> r == 1 && post == pre
            &&& pre.roots.contains_key(id) ==> exists|answer: Result<Option<Vec<u8>>, Status>|
                #[trigger] call_ensures(
                    get_buffer,
                    (BufferType::VmConfiguration, 0usize, vm_configuration_size),
                    answer,
                ) && match answer {
                    Err(_) => r == 0 && post == pre,
                    Ok(configuration) => pre.root_handled(post, id)
                        && exists|target: &mut T, answer: bool|
                            pre.roots[id].data.holds(target)
                                && post.roots[id].data.holds(final(target))
                                && #[trigger] call_ensures(<T as RootContext>::on_vm_start,
                                    (target, configuration), answer)
                                && r == (if answer { 1usize } else { 0usize }),
                }
        }),
{
    dispatcher.dispatch(generation);
    if dispatcher.on_vm_start(id_of(context_id), vm_configuration_size, get_buffer) {
        1
    } else {
        0
    }
}

/// The plugin is configured. The result is 1 where startup may go on,
/// else 0.
pub fn proxy_on_configure<
    T: RootContext + ?Sized,
    K: Callbacks,
    B: FnOnce(BufferType, usize, usize) -> Result<Option<Vec<u8>>, Status>,
>(
    dispatcher: &mut Dispatcher<T, K>,
    generation: usize,
    context_id: usize,
    plugin_configuration_size: usize,
    get_buffer: B,
) -> (r: usize)
    requires
        call_requires(
            get_buffer,
            (BufferType::PluginConfiguration, 0usize, plugin_configuration_size),
        ),
    ensures
        r == 0 || r == 1,
        ({
            let pre = old(dispatcher)@.synced(generation);
            let post = final(dispatcher)@;
            let id = spec_id(context_id);
            &&& !pre.roots.contains_key(id) ==> r == 1 && post == pre
            &&& pre.roots.contains_key(id) ==> exists|answer: Result<Option<Vec<u8>>, Status>|
                #[trigger] call_ensures(
                    get_buffer,
                    (BufferType::PluginConfiguration, 0usize, plugin_configuration_size),
                    answer,
                ) && match answer {
                    Err(_) => r == 0 && post == pre,
                    Ok(configuration) => pre.root_handled(post, id)
                        && exists|target: &mut T, answer: bool|
                            pre.roots[id].data.holds(target)
                                && post.roots[id].data.holds(final(target))
                                && #[trigger] call_ensures(<T as RootContext>::on_configure,
                                    (target, configuration), answer)
                                && r == (if answer { 1usize } else { 0usize }),
                }
        }),
{
    dispatcher.dispatch(generation);
    if dispatcher.on_configure(id_of(context_id), plugin_configuration_size, get_buffer) {
        1
    } else {
        0
    }
}

/// A tick.
pub fn proxy_on_tick<T: RootContext + ?Sized, K: Callbacks>(
    dispatcher: &mut Dispatcher<T, K>,
    generation: usize,
    context_id: usize,
)
    ensures
        ({
            let pre = old(dispatcher)@.synced(generation);
            let post = final(dispatcher)@;
            let id = spec_id(context_id);
            &&& !pre.roots.contains_key(id) ==> post == pre
            &&& pre.roots.contains_key(id) ==> pre.root_handled(post, id)
            &&& pre.roots.contains_key(id) ==> exists|target: &mut T|
                pre.roots[id].data.holds(target)
                    && post.roots[id].data.holds(final(target))
                    && #[trigger] call_ensures(<T as RootContext>::on_tick, (target,), ())
        }),
{
    dispatcher.dispatch(generation);
    dispatcher.on_tick(id_of(context_id))
}

/// A queue has data. The result is what to call, if anything.
pub fn proxy_on_queue_ready<T: RootContext + ?Sized, K: Callbacks>(
    dispatcher: &mut Dispatcher<T, K>,
    generation: usize,
    context_id: usize,
    queue_id: usize,
) -> (r: Option<QueueDelivery<K::Queue, K::QueueReceive>>)
    ensures
        final(dispatcher)@ == old(dispatcher)@.synced(generation),
        ({
            let pre = old(dispatcher)@.synced(generation);
            &&& r is Some == (pre.roots.contains_key(spec_id(context_id))
                && pre.queue_callbacks.contains_key(spec_id(queue_id)))
            &&& r matches Some(d) ==> d.root_context_id == spec_id(context_id) && d.queue == Queue(
                spec_id(queue_id),
            ) && pre.queue_callbacks[spec_id(queue_id)].copied(d.callback)
        }),
{
    dispatcher.dispatch(generation);
    dispatcher.on_queue_ready(id_of(context_id), id_of(queue_id))
}

/// A new connection.
pub fn proxy_on_new_connection<T: RootContext + ?Sized, K: Callbacks>(
    dispatcher: &mut Dispatcher<T, K>,
    generation: usize,
    context_id: usize,
) -> (r: FilterStreamStatus)
    ensures
        ({
            let pre = old(dispatcher)@.synced(generation);
            let post = final(dispatcher)@;
            let id = spec_id(context_id);
            &&& !pre.streams.contains_key(id) ==> r == FilterStreamStatus::Continue && post == pre
            &&& pre.streams.contains_key(id) ==> pre.stream_handled(post, id)
            &&& pre.streams.contains_key(id) ==> exists|target: &mut T::Stream|
                *target == pre.streams[id].data
                    && *final(target) == post.streams[id].data
                    && #[trigger] call_ensures(
                    <T::Stream as StreamContext>::on_new_connection,
                    (target,),
                    r,
                )
        }),
{
    dispatcher.dispatch(generation);
    dispatcher.on_new_connection(id_of(context_id))
}

/// Downstream data. `end_of_stream` is zero unless the data is the last.
pub fn proxy_on_downstream_data<T: RootContext + ?Sized, K: Callbacks>(
    dispatcher: &mut Dispatcher<T, K>,
    generation: usize,
    context_id: usize,
    data_size: usize,
    end_of_stream: usize,
) -> (r: FilterStreamStatus)
    ensures
        ({
            let pre = old(dispatcher)@.synced(generation);
            let post = final(dispatcher)@;
            let id = spec_id(context_id);
            &&& !pre.streams.contains_key(id) ==> r == FilterStreamStatus::Continue && post == pre
            &&& pre.streams.contains_key(id) ==> pre.stream_handled(post, id)
            &&& pre.streams.contains_key(id)
                ==> exists|target: &mut T::Stream, view: DownstreamData|
                *target == pre.streams[id].data
                    && *final(target) == post.streams[id].data
                    && view.spec_data_size() == data_size
                    && view.spec_end_of_stream() == (end_of_stream != 0)
                    && #[trigger] call_ensures(
                    <T::Stream as StreamContext>::on_downstream_data,
                    (target, &view),
                    r,
                )
        }),
{
    dispatcher.dispatch(generation);
    dispatcher.on_downstream_data(id_of(context_id), data_size, end_of_stream != 0)
}

/// The downstream connection closed.
pub fn proxy_on_downstream_connection_close<T: RootContext + ?Sized, K: Callbacks>(
    dispatcher: &mut Dispatcher<T, K>,
    generation: usize,
    context_id: usize,
    close_type: CloseType,
)
    ensures
        ({
            let pre = old(dispatcher)@.synced(generation);
            let post = final(dispatcher)@;
            let id = spec_id(context_id);
            &&& !pre.streams.contains_key(id) ==> post == pre
            &&& pre.streams.contains_key(id) ==> pre.stream_handled(post, id)
            &&& pre.streams.contains_key(id) ==> exists|target: &mut T::Stream, view: StreamClose|
                *target == pre.streams[id].data
                    && *final(target) == post.streams[id].data
                    && view.spec_close_type() == close_type
                    && #[trigger] call_ensures(
                    <T::Stream as StreamContext>::on_downstream_close,
                    (target, &view),
                    (),
                )
        }),
{
    dispatcher.dispatch(generation);
    dispatcher.on_downstream_close(id_of(context_id), close_type)
}

/// Upstream data. `end_of_stream` is zero unless the data is the last.
pub fn proxy_on_upstream_data<T: RootContext + ?Sized, K: Callbacks>(
    dispatcher: &mut Dispatcher<T, K>,
    generation: usize,
    context_id: usize,
    data_size: usize,
    end_of_stream: usize,
) -> (r: FilterStreamStatus)
    ensures
        ({
            let pre = old(dispatcher)@.synced(generation);
            let post = final(dispatcher)@;
            let id = spec_id(context_id);
            &&& !pre.streams.contains_key(id) ==> r == FilterStreamStatus::Continue && post == pre
            &&& pre.streams.contains_key(id) ==> pre.stream_handled(post, id)
            &&& pre.streams.contains_key(id) ==> exists|target: &mut T::Stream, view: UpstreamData|
                *target == pre.streams[id].data
                    && *final(target) == post.streams[id].data
                    && view.spec_data_size() == data_size
                    && view.spec_end_of_stream() == (end_of_stream != 0)
                    && #[trigger] call_ensures(
                    <T::Stream as StreamContext>::on_upstream_data,
                    (target, &view),
                    r,
                )
        }),
{
    dispatcher.dispatch(generation);
    dispatcher.on_upstream_data(id_of(context_id), data_size, end_of_stream != 0)
}

/// The upstream connection closed.
pub fn proxy_on_upstream_connection_close<T: RootContext + ?Sized, K: Callbacks>(
    dispatcher: &mut Dispatcher<T, K>,
    generation: usize,
    context_id: usize,
    close_type: CloseType,
)
    ensures
        ({
            let pre = old(dispatcher)@.synced(generation);
            let post = final(dispatcher)@;
            let id = spec_id(context_id);
            &&& !pre.streams.contains_key(id) ==> post == pre
            &&& pre.streams.contains_key(id) ==> pre.stream_handled(post, id)
            &&& pre.streams.contains_key(id) ==> exists|target: &mut T::Stream, view: StreamClose|
                *target == pre.streams[id].data
                    && *final(target) == post.streams[id].data
                    && view.spec_close_type() == close_type
                    && #[trigger] call_ensures(
                    <T::Stream as StreamContext>::on_upstream_close,
                    (target, &view),
                    (),
                )
        }),
{
    dispatcher.dispatch(generation);
    dispatcher.on_upstream_close(id_of(context_id), close_type)
}

/// Request headers. `end_of_stream` is zero unless they are the last of
/// the request.
pub fn proxy_on_request_headers<T: RootContext + ?Sized, K: Callbacks>(
    dispatcher: &mut Dispatcher<T, K>,
    generation: usize,
    context_id: usize,
    num_headers: usize,
    end_of_stream: usize,
) -> (r: FilterHeadersStatus)
    ensures
        ({
            let pre = old(dispatcher)@.synced(generation);
            let post = final(dispatcher)@;
            let id = spec_id(context_id);
            &&& !pre.http_streams.contains_key(id) ==> r == FilterHeadersStatus::Continue && post
                == pre
            &&& pre.http_streams.contains_key(id) ==> pre.http_stream_handled(post, id)
            &&& pre.http_streams.contains_key(id)
                ==> exists|target: &mut T::Http, view: RequestHeaders|
                *target == pre.http_streams[id].data
                    && *final(target) == post.http_streams[id].data
                    && view.spec_header_count() == num_headers
                    && view.spec_end_of_stream() == (end_of_stream != 0)
                    && #[trigger] call_ensures(
                    <T::Http as HttpContext>::on_http_request_headers,
                    (target, &view),
                    r,
                )
        }),
{
    dispatcher.dispatch(generation);
    dispatcher.on_http_request_headers(id_of(context_id), num_headers, end_of_stream != 0)
}

/// A block of the request body. `end_of_stream` is zero unless it is the
/// last.
pub fn proxy_on_request_body<T: RootContext + ?Sized, K: Callbacks>(
    dispatcher: &mut Dispatcher<T, K>,
    generation: usize,
    context_id: usize,
    body_size: usize,
    end_of_stream: usize,
) -> (r: FilterDataStatus)
    ensures
        ({
            let pre = old(dispatcher)@.synced(generation);
            let post = final(dispatcher)@;
            let id = spec_id(context_id);
            &&& !pre.http_streams.contains_key(id) ==> r == FilterDataStatus::Continue && post
                == pre
            &&& pre.http_streams.contains_key(id) ==> pre.http_stream_handled(post, id)
            &&& pre.http_streams.contains_key(id)
                ==> exists|target: &mut T::Http, view: RequestBody|
                *target == pre.http_streams[id].data
                    && *final(target) == post.http_streams[id].data
                    && view.spec_body_size() == body_size
                    && view.spec_end_of_stream() == (end_of_stream != 0)
                    && #[trigger] call_ensures(
                    <T::Http as HttpContext>::on_http_request_body,
                    (target, &view),
                    r,
                )
        }),
{
    dispatcher.dispatch(generation);
    dispatcher.on_http_request_body(id_of(context_id), body_size, end_of_stream != 0)
}

/// Request trailers.
pub fn proxy_on_request_trailers<T: RootContext + ?Sized, K: Callbacks>(
    dispatcher: &mut Dispatcher<T, K>,
    generation: usize,
    context_id: usize,
    num_trailers: usize,
) -> (r: FilterTrailersStatus)
    ensures
        ({
            let pre = old(dispatcher)@.synced(generation);
            let post = final(dispatcher)@;
            let id = spec_id(context_id);
            &&& !pre.http_streams.contains_key(id) ==> r == FilterTrailersStatus::Continue && post
                == pre
            &&& pre.http_streams.contains_key(id) ==> pre.http_stream_handled(post, id)
            &&& pre.http_streams.contains_key(id)
                ==> exists|target: &mut T::Http, view: RequestTrailers|
                *target == pre.http_streams[id].data
                    && *final(target) == post.http_streams[id].data
                    && view.spec_header_count() == num_trailers
                    && #[trigger] call_ensures(
                    <T::Http as HttpContext>::on_http_request_trailers,
                    (target, &view),
                    r,
                )
        }),
{
    dispatcher.dispatch(generation);
    dispatcher.on_http_request_trailers(id_of(context_id), num_trailers)
}

/// Response headers. `end_of_stream` is zero unless they are the last of
/// the response.
pub fn proxy_on_response_headers<T: RootContext + ?Sized, K: Callbacks>(
    dispatcher: &mut Dispatcher<T, K>,
    generation: usize,
    context_id: usize,
    num_headers: usize,
    end_of_stream: usize,
) -> (r: FilterHeadersStatus)
    ensures
        ({
            let pre = old(dispatcher)@.synced(generation);
            let post = final(dispatcher)@;
            let id = spec_id(context_id);
            &&& !pre.http_streams.contains_key(id) ==> r == FilterHeadersStatus::Continue && post
                == pre
            &&& pre.http_streams.contains_key(id) ==> pre.http_stream_handled(post, id)
            &&& pre.http_streams.contains_key(id)
                ==> exists|target: &mut T::Http, view: ResponseHeaders|
                *target == pre.http_streams[id].data
                    && *final(target) == post.http_streams[id].data
                    && view.spec_header_count() == num_headers
                    && view.spec_end_of_stream() == (end_of_stream != 0)
                    && #[trigger] call_ensures(
                    <T::Http as HttpContext>::on_http_response_headers,
                    (target, &view),
                    r,
                )
        }),
{
    dispatcher.dispatch(generation);
    dispatcher.on_http_response_headers(id_of(context_id), num_headers, end_of_stream != 0)
}

/// A block of the response body. `end_of_stream` is zero unless it is the
/// last.
pub fn proxy_on_response_body<T: RootContext + ?Sized, K: Callbacks>(
    dispatcher: &mut Dispatcher<T, K>,
    generation: usize,
    context_id: usize,
    body_size: usize,
    end_of_stream: usize,
) -> (r: FilterDataStatus)
    ensures
        ({
            let pre = old(dispatcher)@.synced(generation);
            let post = final(dispatcher)@;
            let id = spec_id(context_id);
            &&& !pre.http_streams.contains_key(id) ==> r == FilterDataStatus::Continue && post
                == pre
            &&& pre.http_streams.contains_key(id) ==> pre.http_stream_handled(post, id)
            &&& pre.http_streams.contains_key(id)
                ==> exists|target: &mut T::Http, view: ResponseBody|
                *target == pre.http_streams[id].data
                    && *final(target) == post.http_streams[id].data
                    && view.spec_body_size() == body_size
                    && view.spec_end_of_stream() == (end_of_stream != 0)
                    && #[trigger] call_ensures(
                    <T::Http as HttpContext>::on_http_response_body,
                    (target, &view),
                    r,
                )
        }),
{
    dispatcher.dispatch(generation);
    dispatcher.on_http_response_body(id_of(context_id), body_size, end_of_stream != 0)
}

/// Response trailers.
pub fn proxy_on_response_trailers<T: RootContext + ?Sized, K: Callbacks>(
    dispatcher: &mut Dispatcher<T, K>,
    generation: usize,
    context_id: usize,
    num_trailers: usize,
) -> (r: FilterTrailersStatus)
    ensures
        ({
            let pre = old(dispatcher)@.synced(generation);
            let post = final(dispatcher)@;
            let id = spec_id(context_id);
            &&& !pre.http_streams.contains_key(id) ==> r == FilterTrailersStatus::Continue && post
                == pre
            &&& pre.http_streams.contains_key(id) ==> pre.http_stream_handled(post, id)
            &&& pre.http_streams.contains_key(id)
                ==> exists|target: &mut T::Http, view: ResponseTrailers|
                *target == pre.http_streams[id].data
                    && *final(target) == post.http_streams[id].data
                    && view.spec_header_count() == num_trailers
                    && #[trigger] call_ensures(
                    <T::Http as HttpContext>::on_http_response_trailers,
                    (target, &view),
                    r,
                )
        }),
{
    dispatcher.dispatch(generation);
    dispatcher.on_http_response_trailers(id_of(context_id), num_trailers)
}

/// The response of an HTTP call has arrived. The result is what to call,
/// if anything. The context that the host names is not looked at: the
/// call is delivered under the context that made it.
pub fn proxy_on_http_call_response<
    T: RootContext + ?Sized,
    K: Callbacks,
    C: Fn(u32) -> Result<(), Status>,
>(
    dispatcher: &mut Dispatcher<T, K>,
    generation: usize,
    token_id: usize,
    num_headers: usize,
    body_size: usize,
    num_trailers: usize,
    set_context: &C,
) -> (r: Option<Delivery<K::Http, HttpCallResponse>>)
    requires
        forall|id: u32| call_requires(*set_context, (id,)),
    ensures
        ({
            let pre = old(dispatcher)@.synced(generation);
            let post = final(dispatcher)@;
            let token = spec_id(token_id);
            &&& match pre.http_call_target(token) {
                None => r is None && post == pre.without_http_callback(token),
                Some(entry) => exists|answer: Result<(), Status>|
                    #[trigger] call_ensures(*set_context, (entry.context_id,), answer)
                        && EffectiveContext::opened(
                        pre.without_http_callback(token),
                        entry.context_id,
                        entry.root_context_id,
                        "http callback",
                        answer,
                        post,
                        Delivery::scope_of(r),
                    ),
            }
            &&& r matches Some(d) ==> {
                &&& d.root_context_id == pre.http_callbacks[token].root_context_id
                &&& d.callback == pre.http_callbacks[token].callback
                &&& d.response.spec_num_headers() == num_headers
                &&& d.response.spec_body_size() == body_size
                &&& d.response.spec_num_trailers() == num_trailers
            }
        }),
{
    dispatcher.dispatch(generation);
    dispatcher.on_http_call_response(
        id_of(token_id),
        num_headers,
        body_size,
        num_trailers,
        set_context,
    )
}

/// Initial metadata of a GRPC stream has arrived. The result is what to
/// call, if anything.
pub fn proxy_on_grpc_receive_initial_metadata<
    T: RootContext + ?Sized,
    K: Callbacks,
    C: Fn(u32) -> Result<(), Status>,
>(
    dispatcher: &mut Dispatcher<T, K>,
    generation: usize,
    token_id: usize,
    headers: usize,
    set_context: &C,
) -> (r: Option<StreamDelivery<K::StreamInitialMetadata, GrpcStreamInitialMetadata>>)
    requires
        forall|id: u32| call_requires(*set_context, (id,)),
    ensures
        ({
            let pre = old(dispatcher)@.synced(generation);
            let post = final(dispatcher)@;
            let token = spec_id(token_id);
            &&& match pre.initial_metadata_target(token) {
                None => r is None && post == pre,
                Some(entry) => exists|answer: Result<(), Status>|
                    #[trigger] call_ensures(*set_context, (entry.context_id,), answer)
                        && EffectiveContext::opened(
                        pre,
                        entry.context_id,
                        entry.root_context_id,
                        "grpc stream",
                        answer,
                        post,
                        StreamDelivery::scope_of(r),
                    ),
            }
            &&& r matches Some(d) ==> {
                &&& d.root_context_id == pre.grpc_streams[token].root_context_id
                &&& d.handle == GrpcStreamHandle(token)
                &&& cloned(pre.grpc_streams[token].initial_meta->0, d.callback)
                &&& d.response.spec_num_elements() == spec_id(headers)
            }
        }),
{
    dispatcher.dispatch(generation);
    dispatcher.on_grpc_receive_initial_metadata(id_of(token_id), id_of(headers), set_context)
}

/// A GRPC message has arrived. The result is what to call, if anything.
pub fn proxy_on_grpc_receive<
    T: RootContext + ?Sized,
    K: Callbacks,
    C: Fn(u32) -> Result<(), Status>,
>(
    dispatcher: &mut Dispatcher<T, K>,
    generation: usize,
    token_id: usize,
    response_size: usize,
    set_context: &C,
) -> (r: GrpcReceive<K>)
    requires
        forall|id: u32| call_requires(*set_context, (id,)),
    ensures
        ({
            let pre = old(dispatcher)@.synced(generation);
            let post = final(dispatcher)@;
            let token = spec_id(token_id);
            &&& pre.grpc_callbacks.contains_key(token) ==> !(r is Stream)
                && match pre.grpc_call_target(
                token,
            ) {
                None => r is Nothing && post == pre.without_grpc_callback(token),
                Some(entry) => exists|answer: Result<(), Status>|
                    #[trigger] call_ensures(*set_context, (entry.context_id,), answer)
                        && EffectiveContext::opened(
                        pre.without_grpc_callback(token),
                        entry.context_id,
                        entry.root_context_id,
                        "grpc callback",
                        answer,
                        post,
                        r.scope(),
                    ),
            }
            &&& !pre.grpc_callbacks.contains_key(token) ==> !(r is Call)
                && match pre.message_target(
                token,
            ) {
                None => r is Nothing && post == pre,
                Some(entry) => exists|answer: Result<(), Status>|
                    #[trigger] call_ensures(*set_context, (entry.context_id,), answer)
                        && EffectiveContext::opened(
                        pre,
                        entry.context_id,
                        entry.root_context_id,
                        "grpc stream",
                        answer,
                        post,
                        r.scope(),
                    ),
            }
            &&& r matches GrpcReceive::Call(d) ==> {
                &&& d.root_context_id == pre.grpc_callbacks[token].root_context_id
                &&& d.callback == pre.grpc_callbacks[token].callback
                &&& d.response.spec_handle_id() == token
                &&& d.response.spec_status_code() == GrpcCode::Success
                &&& d.response.spec_status_message() is None
                &&& d.response.spec_body_size() == response_size
            }
            &&& r matches GrpcReceive::Stream(d) ==> {
                &&& d.root_context_id == pre.grpc_streams[token].root_context_id
                &&& d.handle == GrpcStreamHandle(token)
                &&& cloned(pre.grpc_streams[token].message->0, d.callback)
                &&& d.response.spec_status_code() == GrpcCode::Success
                &&& d.response.spec_status_message() is None
                &&& d.response.spec_body_size() == response_size
            }
        }),
{
    dispatcher.dispatch(generation);
    dispatcher.on_grpc_receive(id_of(token_id), response_size, set_context)
}

/// Trailing metadata of a GRPC stream has arrived. The result is what to
/// call, if anything.
pub fn proxy_on_grpc_receive_trailing_metadata<
    T: RootContext + ?Sized,
    K: Callbacks,
    C: Fn(u32) -> Result<(), Status>,
>(
    dispatcher: &mut Dispatcher<T, K>,
    generation: usize,
    token_id: usize,
    trailers: usize,
    set_context: &C,
) -> (r: Option<StreamDelivery<K::StreamTrailingMetadata, GrpcStreamTrailingMetadata>>)
    requires
        forall|id: u32| call_requires(*set_context, (id,)),
    ensures
        ({
            let pre = old(dispatcher)@.synced(generation);
            let post = final(dispatcher)@;
            let token = spec_id(token_id);
            &&& match pre.trailing_metadata_target(token) {
                None => r is None && post == pre,
                Some(entry) => exists|answer: Result<(), Status>|
                    #[trigger] call_ensures(*set_context, (entry.context_id,), answer)
                        && EffectiveContext::opened(
                        pre,
                        entry.context_id,
                        entry.root_context_id,
                        "grpc stream",
                        answer,
                        post,
                        StreamDelivery::scope_of(r),
                    ),
            }
            &&& r matches Some(d) ==> {
                &&& d.root_context_id == pre.grpc_streams[token].root_context_id
                &&& d.handle == GrpcStreamHandle(token)
                &&& cloned(pre.grpc_streams[token].trailer_meta->0, d.callback)
                &&& d.response.spec_num_elements() == spec_id(trailers)
            }
        }),
{
    dispatcher.dispatch(generation);
    dispatcher.on_grpc_receive_trailing_metadata(id_of(token_id), id_of(trailers), set_context)
}

/// A GRPC call or stream has closed. The result is what to call, if
/// anything.
pub fn proxy_on_grpc_close<
    T: RootContext + ?Sized,
    K: Callbacks,
    C: Fn(u32) -> Result<(), Status>,
    G: FnOnce() -> Result<(u32, Option<String>), Status>,
>(
    dispatcher: &mut Dispatcher<T, K>,
    generation: usize,
    token_id: usize,
    status_code: usize,
    set_context: &C,
    get_status: G,
) -> (r: GrpcClose<K>)
    requires
        forall|id: u32| call_requires(*set_context, (id,)),
        call_requires(get_status, ()),
    ensures
        ({
            let pre = old(dispatcher)@.synced(generation);
            let post = final(dispatcher)@;
            let token = spec_id(token_id);
            match pre.close_target(token) {
                None => r is Nothing && post == pre.without_grpc_token(token),
                Some(origin) => r.closes(
                    pre,
                    token,
                    spec_id(status_code),
                    origin,
                    *set_context,
                    get_status,
                    post,
                ),
            }
        }),
{
    dispatcher.dispatch(generation);
    dispatcher.on_grpc_close(id_of(token_id), id_of(status_code), set_context, get_status)
}

/// Whichever event comes first under a new generation finds a dispatcher
/// that knows nothing of what was registered before: no root, no context,
/// no pending call.
pub proof fn law_event_after_new_generation<T: RootContext + ?Sized, K: Callbacks>(
    pre: crate::dispatcher::DispatcherView<T, K>,
    generation: usize,
    id: u32,
)
    requires
        pre.generation != generation,
    ensures
        !pre.synced(generation).knows(id),
        pre.synced(generation).http_call_target(id) is None,
        pre.synced(generation).grpc_call_target(id) is None,
        pre.synced(generation).message_target(id) is None,
        pre.synced(generation).initial_metadata_target(id) is None,
        pre.synced(generation).trailing_metadata_target(id) is None,
        pre.synced(generation).close_target(id) is None,
        pre.synced(generation).without_context(id) == pre.synced(generation),
{
}

/// Records `callback` for the HTTP call `token`, made by the current context.
/// The dispatcher is made ready for the generation first.
pub fn register_http_callback<T: RootContext + ?Sized, K: Callbacks>(
    dispatcher: &mut Dispatcher<T, K>,
    generation: usize,
    token: u32,
    callback: K::Http,
)
    ensures
        final(dispatcher)@
            == old(dispatcher)@.synced(generation).with_http_callback(token, callback),
{
    dispatcher.dispatch(generation);
    dispatcher.register_http_callback(token, callback)
}

/// Records `callback` for the GRPC call `token`, made by the current context.
/// The dispatcher is made ready for the generation first.
pub fn register_grpc_callback<T: RootContext + ?Sized, K: Callbacks>(
    dispatcher: &mut Dispatcher<T, K>,
    generation: usize,
    token: u32,
    callback: K::Grpc,
)
    ensures
        final(dispatcher)@
            == old(dispatcher)@.synced(generation).with_grpc_callback(token, callback),
{
    dispatcher.dispatch(generation);
    dispatcher.register_grpc_callback(token, callback)
}

/// Records `callback` as what to call when the queue `token` has data.
/// The dispatcher is made ready for the generation first.
pub fn register_queue_callback<T: RootContext + ?Sized, K: Callbacks>(
    dispatcher: &mut Dispatcher<T, K>,
    generation: usize,
    token: u32,
    callback: QueueCallback<K::Queue, K::QueueReceive>,
)
    ensures
        final(dispatcher)@
            == old(dispatcher)@.synced(generation).with_queue_callback(token, callback),
{
    dispatcher.dispatch(generation);
    dispatcher.register_queue_callback(token, callback)
}

/// Records `callback` as the initial metadata callback of the GRPC stream `token`.
/// A stream that another context opened is left as it is. The dispatcher
/// is made ready for the generation first.
pub fn register_grpc_stream_initial_meta<T: RootContext + ?Sized, K: Callbacks>(
    dispatcher: &mut Dispatcher<T, K>,
    generation: usize,
    token: u32,
    callback: K::StreamInitialMetadata,
)
    ensures
        final(dispatcher)@ == old(dispatcher)@.synced(generation).with_stream_entry(
            token,
            (GrpcStreamCallback {
                initial_meta: Some(callback),
                ..old(dispatcher)@.synced(generation).stream_entry(token)
            }),
        ),
{
    dispatcher.dispatch(generation);
    dispatcher.register_grpc_stream_initial_meta(token, callback)
}

/// Records `callback` as the message callback of the GRPC stream `token`.
/// A stream that another context opened is left as it is. The dispatcher
/// is made ready for the generation first.
pub fn register_grpc_stream_message<T: RootContext + ?Sized, K: Callbacks>(
    dispatcher: &mut Dispatcher<T, K>,
    generation: usize,
    token: u32,
    callback: K::StreamMessage,
)
    ensures
        final(dispatcher)@ == old(dispatcher)@.synced(generation).with_stream_entry(
            token,
            (GrpcStreamCallback {
                message: Some(callback),
                ..old(dispatcher)@.synced(generation).stream_entry(token)
            }),
        ),
{
    dispatcher.dispatch(generation);
    dispatcher.register_grpc_stream_message(token, callback)
}

/// Records `callback` as the trailing metadata callback of the GRPC stream `token`.
/// A stream that another context opened is left as it is. The dispatcher
/// is made ready for the generation first.
pub fn register_grpc_stream_trailing_metadata<T: RootContext + ?Sized, K: Callbacks>(
    dispatcher: &mut Dispatcher<T, K>,
    generation: usize,
    token: u32,
    callback: K::StreamTrailingMetadata,
)
    ensures
        final(dispatcher)@ == old(dispatcher)@.synced(generation).with_stream_entry(
            token,
            (GrpcStreamCallback {
                trailer_meta: Some(callback),
                ..old(dispatcher)@.synced(generation).stream_entry(token)
            }),
        ),
{
    dispatcher.dispatch(generation);
    dispatcher.register_grpc_stream_trailing_metadata(token, callback)
}

/// Records `callback` as the close callback of the GRPC stream `token`.
/// A stream that another context opened is left as it is. The dispatcher
/// is made ready for the generation first.
pub fn register_grpc_stream_close<T: RootContext + ?Sized, K: Callbacks>(
    dispatcher: &mut Dispatcher<T, K>,
    generation: usize,
    token: u32,
    callback: K::StreamClose,
)
    ensures
        final(dispatcher)@ == old(dispatcher)@.synced(generation).with_stream_entry(
            token,
            (GrpcStreamCallback {
                close: Some(callback),
                ..old(dispatcher)@.synced(generation).stream_entry(token)
            }),
        ),
{
    dispatcher.dispatch(generation);
    dispatcher.register_grpc_stream_close(token, callback)
}

} // verus!
