use crate::context::{BaseContext, Context, RootContext};
use crate::downcast_box::DowncastBox;
use crate::grpc_call::{GrpcCallResponse, GrpcCode};
use crate::grpc_stream::{
    GrpcStreamClose, GrpcStreamHandle, GrpcStreamInitialMetadata, GrpcStreamMessage,
    GrpcStreamTrailingMetadata,
};
use crate::hostcalls::BufferType;
use crate::http::{
    FilterDataStatus, FilterHeadersStatus, FilterTrailersStatus, HttpBodyControl, HttpContext,
    HttpControl, HttpHeaderControl, RequestBody,
    RequestHeaders, RequestTrailers, ResponseBody, ResponseHeaders, ResponseTrailers,
};
use crate::http_call::HttpCallResponse;
use crate::property::envoy::Attributes;
use crate::queue::Queue;
use crate::status::Status;
use crate::stream::{
    CloseType, DownstreamData, FilterStreamStatus, StreamClose, StreamContext, StreamDataControl,
    UpstreamData,
};
use std::collections::HashMap;
use vstd::prelude::*;

verus! {

broadcast use vstd::std_specs::hash::group_hash_axioms;

/// The types of the callbacks that a plugin registers for its pending
/// calls. The dispatcher stores and hands them out; it never looks inside.
pub trait Callbacks {
    /// Called once with the response of an HTTP call.
    type Http;

    /// Called once with the response of a GRPC call.
    type Grpc;

    /// Called with the initial metadata of a GRPC stream, each time some
    /// arrives.
    type StreamInitialMetadata: Clone;

    /// Called with each message of a GRPC stream.
    type StreamMessage: Clone;

    /// Called with the trailing metadata of a GRPC stream, each time some
    /// arrives.
    type StreamTrailingMetadata: Clone;

    /// Called once when a GRPC stream closes.
    type StreamClose;

    /// Called each time a shared queue has data.
    type Queue: Clone;

    /// Called with each item that a shared queue hands out.
    type QueueReceive: Clone;
}

/// What to call when a shared queue has data. One of the two is
/// registered for a queue at a time.
pub enum QueueCallback<E, R> {
    /// Called once for each notice that the queue has data.
    Enqueue(E),
    /// Called once for each item of the queue, which is emptied.
    Receive(R),
}

/// A pending HTTP call: the context that made it and what to call with its
/// response.
pub struct HttpCallback<F> {
    pub context_id: u32,
    pub root_context_id: u32,
    pub callback: F,
}

/// A pending GRPC call: the context that made it and what to call with its
/// response.
pub struct GrpcCallback<F> {
    pub context_id: u32,
    pub root_context_id: u32,
    pub callback: F,
}

/// An open GRPC stream: the context that opened it and what to call for
/// each of its four kinds of event, as far as registered.
pub struct GrpcStreamCallback<K: Callbacks> {
    pub context_id: u32,
    pub root_context_id: u32,
    pub close: Option<K::StreamClose>,
    pub message: Option<K::StreamMessage>,
    pub initial_meta: Option<K::StreamInitialMetadata>,
    pub trailer_meta: Option<K::StreamTrailingMetadata>,
}

/// A live connection context and the root that made it.
pub struct StreamInfo<S> {
    pub parent_context_id: u32,
    pub data: S,
}

/// A live HTTP request context and the root that made it.
pub struct HttpStreamInfo<H> {
    pub parent_context_id: u32,
    pub data: H,
}

/// A live root context.
pub struct RootInfo<T: ?Sized> {
    pub data: DowncastBox<T>,
}

/// What a dispatcher holds, as mathematical maps.
pub struct DispatcherView<T: RootContext + ?Sized, K: Callbacks> {
    pub roots: Map<u32, RootInfo<T>>,
    pub streams: Map<u32, StreamInfo<T::Stream>>,
    pub http_streams: Map<u32, HttpStreamInfo<T::Http>>,
    pub http_callbacks: Map<u32, HttpCallback<K::Http>>,
    pub grpc_callbacks: Map<u32, GrpcCallback<K::Grpc>>,
    pub grpc_streams: Map<u32, GrpcStreamCallback<K>>,
    pub queue_callbacks: Map<u32, QueueCallback<K::Queue, K::QueueReceive>>,
    pub active_id: u32,
    pub active_root_id: u32,
    pub generation: usize,
}

impl<T: RootContext + ?Sized, K: Callbacks> DispatcherView<T, K> {
    /// A dispatcher that knows no context and no pending call.
    pub open spec fn empty(generation: usize) -> Self {
        DispatcherView {
            roots: Map::empty(),
            streams: Map::empty(),
            http_streams: Map::empty(),
            http_callbacks: Map::empty(),
            grpc_callbacks: Map::empty(),
            grpc_streams: Map::empty(),
            queue_callbacks: Map::empty(),
            active_id: 0,
            active_root_id: 0,
            generation,
        }
    }

    /// This dispatcher, wiped if it was last used under another generation
    /// than `current`.
    pub open spec fn synced(self, current: usize) -> Self {
        if self.generation != current {
            Self::empty(current)
        } else {
            self
        }
    }

    /// This dispatcher with another context current.
    pub open spec fn with_active(self, id: u32, root_id: u32) -> Self {
        DispatcherView { active_id: id, active_root_id: root_id, ..self }
    }

    /// This dispatcher with `root` as the root context `id`.
    pub open spec fn with_root(self, id: u32, root: RootInfo<T>) -> Self {
        DispatcherView { roots: self.roots.insert(id, root), ..self }
    }

    /// This dispatcher without the root context `id`.
    pub open spec fn without_root(self, id: u32) -> Self {
        DispatcherView { roots: self.roots.remove(id), ..self }
    }

    /// Whether `id` denotes a live context of any kind.
    pub open spec fn knows(self, id: u32) -> bool {
        self.http_streams.contains_key(id) || self.streams.contains_key(id)
            || self.roots.contains_key(id)
    }

    /// This dispatcher after the context `id` was deleted: gone from the
    /// HTTP contexts if it is one, else from the connection contexts if it
    /// is one, else from the roots.
    pub open spec fn without_context(self, id: u32) -> Self {
        if self.http_streams.contains_key(id) {
            DispatcherView { http_streams: self.http_streams.remove(id), ..self }
        } else if self.streams.contains_key(id) {
            DispatcherView { streams: self.streams.remove(id), ..self }
        } else if self.roots.contains_key(id) {
            DispatcherView { roots: self.roots.remove(id), ..self }
        } else {
            self
        }
    }

    /// Whether `post` is this dispatcher after the root `id` handled an
    /// event: the root is current, and nothing but the root's own state
    /// may differ.
    pub open spec fn root_handled(self, post: Self, id: u32) -> bool {
        &&& post.roots.dom() == self.roots.dom()
        &&& forall|k: u32| k != id && self.roots.contains_key(k) ==> post.roots[k] == self.roots[k]
        &&& post == DispatcherView { roots: post.roots, active_id: id, active_root_id: id, ..self }
    }

    /// Whether `post` is this dispatcher after the connection context `id`
    /// handled an event: the context is current, under the root that made
    /// it, and nothing but the context's own state may differ.
    pub open spec fn stream_handled(self, post: Self, id: u32) -> bool {
        &&& post.streams.dom() == self.streams.dom()
        &&& forall|k: u32|
            k != id && self.streams.contains_key(k) ==> post.streams[k] == self.streams[k]
        &&& post.streams[id].parent_context_id == self.streams[id].parent_context_id
        &&& post == DispatcherView {
            streams: post.streams,
            active_id: id,
            active_root_id: self.streams[id].parent_context_id,
            ..self
        }
    }

    /// Whether `post` is this dispatcher after the HTTP context `id`
    /// handled an event: the context is current, under the root that made
    /// it, and nothing but the context's own state may differ.
    pub open spec fn http_stream_handled(self, post: Self, id: u32) -> bool {
        &&& post.http_streams.dom() == self.http_streams.dom()
        &&& forall|k: u32|
            k != id && self.http_streams.contains_key(k) ==> post.http_streams[k]
                == self.http_streams[k]
        &&& post.http_streams[id].parent_context_id == self.http_streams[id].parent_context_id
        &&& post == DispatcherView {
            http_streams: post.http_streams,
            active_id: id,
            active_root_id: self.http_streams[id].parent_context_id,
            ..self
        }
    }

    /// Whether `post` is this dispatcher after the root `root_id` made a
    /// context that was stored under `id`: the new context is the only
    /// change in its category, the other category is as before, and
    /// nothing else but the root's own state may differ.
    pub open spec fn child_created(self, post: Self, root_id: u32, id: u32) -> bool {
        &&& post.roots.dom() == self.roots.dom()
        &&& forall|k: u32|
            k != root_id && self.roots.contains_key(k) ==> post.roots[k] == self.roots[k]
        &&& post == DispatcherView {
            roots: post.roots,
            streams: post.streams,
            http_streams: post.http_streams,
            ..self
        }
        &&& {
            ||| {
                &&& post.http_streams.contains_key(id)
                &&& post.http_streams[id].parent_context_id == root_id
                &&& post.http_streams == self.http_streams.insert(id, post.http_streams[id])
                &&& post.streams == self.streams
            }
            ||| {
                &&& post.streams.contains_key(id)
                &&& post.streams[id].parent_context_id == root_id
                &&& post.streams == self.streams.insert(id, post.streams[id])
                &&& post.http_streams == self.http_streams
            }
        }
    }

    /// What becomes of the announcement of the context `id` under the parent
    /// `parent_id`, of which 0 stands for none.
    pub open spec fn creation(self, id: u32, parent_id: u32) -> ContextCreation {
        if parent_id == 0 {
            if self.roots.contains_key(id) {
                ContextCreation::RootKnown
            } else {
                ContextCreation::RootMade
            }
        } else if self.roots.contains_key(parent_id) {
            ContextCreation::Child {
                reused: self.http_streams.contains_key(id) || self.streams.contains_key(id),
            }
        } else {
            ContextCreation::UnknownParent
        }
    }

    /// Whether the child contexts of `post` are those of this dispatcher
    /// with `made`, a context that the root `root_id` made, stored under
    /// `id` in the category of its kind: what was stored there in that
    /// category is replaced, and the other category is as before.
    pub open spec fn child_stored(
        self,
        post: Self,
        root_id: u32,
        id: u32,
        made: Context<T::Http, T::Stream>,
    ) -> bool {
        match made {
            Context::Http(context) => post.http_streams == self.http_streams.insert(
                id,
                HttpStreamInfo { parent_context_id: root_id, data: context },
            ) && post.streams == self.streams,
            Context::Stream(context) => post.streams == self.streams.insert(
                id,
                StreamInfo { parent_context_id: root_id, data: context },
            ) && post.http_streams == self.http_streams,
        }
    }

    /// This dispatcher after the HTTP call `token` was registered by the
    /// current context.
    pub open spec fn with_http_callback(self, token: u32, callback: K::Http) -> Self {
        DispatcherView {
            http_callbacks: self.http_callbacks.insert(
                token,
                HttpCallback {
                    context_id: self.active_id,
                    root_context_id: self.active_root_id,
                    callback,
                },
            ),
            ..self
        }
    }

    /// This dispatcher after the GRPC call `token` was registered by the
    /// current context.
    pub open spec fn with_grpc_callback(self, token: u32, callback: K::Grpc) -> Self {
        DispatcherView {
            grpc_callbacks: self.grpc_callbacks.insert(
                token,
                GrpcCallback {
                    context_id: self.active_id,
                    root_context_id: self.active_root_id,
                    callback,
                },
            ),
            ..self
        }
    }

    /// This dispatcher after `callback` was registered for the queue
    /// `token`.
    pub open spec fn with_queue_callback(
        self,
        token: u32,
        callback: QueueCallback<K::Queue, K::QueueReceive>,
    ) -> Self {
        DispatcherView { queue_callbacks: self.queue_callbacks.insert(token, callback), ..self }
    }

    /// This dispatcher without the pending HTTP call `token`.
    pub open spec fn without_http_callback(self, token: u32) -> Self {
        DispatcherView { http_callbacks: self.http_callbacks.remove(token), ..self }
    }

    /// This dispatcher without the pending GRPC call `token`.
    pub open spec fn without_grpc_callback(self, token: u32) -> Self {
        DispatcherView { grpc_callbacks: self.grpc_callbacks.remove(token), ..self }
    }

    /// This dispatcher without the GRPC stream `token`.
    pub open spec fn without_grpc_stream(self, token: u32) -> Self {
        DispatcherView { grpc_streams: self.grpc_streams.remove(token), ..self }
    }

    /// Whether the current context may register a callback for the stream
    /// `token`: the stream is new or was opened by the current context.
    pub open spec fn owns_stream(self, token: u32) -> bool {
        self.grpc_streams.contains_key(token) ==> self.grpc_streams[token].context_id
            == self.active_id
    }

    /// The record of the stream `token` before the current context
    /// registers a callback for it: the one there is, or an empty one of
    /// the current context.
    pub open spec fn stream_entry(self, token: u32) -> GrpcStreamCallback<K> {
        if self.grpc_streams.contains_key(token) {
            self.grpc_streams[token]
        } else {
            GrpcStreamCallback {
                context_id: self.active_id,
                root_context_id: self.active_root_id,
                close: None,
                message: None,
                initial_meta: None,
                trailer_meta: None,
            }
        }
    }

    /// This dispatcher with `entry` as the record of the stream `token`,
    /// or unchanged where the stream belongs to another context than the
    /// current one.
    pub open spec fn with_stream_entry(self, token: u32, entry: GrpcStreamCallback<K>) -> Self {
        if self.owns_stream(token) {
            DispatcherView { grpc_streams: self.grpc_streams.insert(token, entry), ..self }
        } else {
            self
        }
    }

    /// The pending HTTP call that a response for `token` is delivered to:
    /// the one recorded, if the root of the context that made it is alive.
    pub open spec fn http_call_target(self, token: u32) -> Option<HttpCallback<K::Http>> {
        if self.http_callbacks.contains_key(token) && self.roots.contains_key(
            self.http_callbacks[token].root_context_id,
        ) {
            Some(self.http_callbacks[token])
        } else {
            None
        }
    }

    /// The pending GRPC call that an event for `token` is delivered to:
    /// the one recorded, if the root of the context that made it is alive.
    pub open spec fn grpc_call_target(self, token: u32) -> Option<GrpcCallback<K::Grpc>> {
        if self.grpc_callbacks.contains_key(token) && self.roots.contains_key(
            self.grpc_callbacks[token].root_context_id,
        ) {
            Some(self.grpc_callbacks[token])
        } else {
            None
        }
    }

    /// The open stream that an event for `token` concerns, if no pending
    /// GRPC call has that token and the root of the context that opened the
    /// stream is alive.
    pub open spec fn grpc_stream_target(self, token: u32) -> Option<GrpcStreamCallback<K>> {
        if !self.grpc_callbacks.contains_key(token) && self.grpc_streams.contains_key(token)
            && self.roots.contains_key(self.grpc_streams[token].root_context_id) {
            Some(self.grpc_streams[token])
        } else {
            None
        }
    }

    /// The open stream whose initial metadata callback an event for
    /// `token` is delivered to: the stream recorded, if that callback is
    /// registered and the root of the context that opened the stream is
    /// alive.
    pub open spec fn initial_metadata_target(self, token: u32) -> Option<GrpcStreamCallback<K>> {
        if self.grpc_streams.contains_key(token) && self.grpc_streams[token].initial_meta is Some
            && self.roots.contains_key(self.grpc_streams[token].root_context_id) {
            Some(self.grpc_streams[token])
        } else {
            None
        }
    }

    /// The open stream whose trailing metadata callback an event for
    /// `token` is delivered to: the stream recorded, if that callback is
    /// registered and the root of the context that opened the stream is
    /// alive.
    pub open spec fn trailing_metadata_target(self, token: u32) -> Option<GrpcStreamCallback<K>> {
        if self.grpc_streams.contains_key(token) && self.grpc_streams[token].trailer_meta is Some
            && self.roots.contains_key(self.grpc_streams[token].root_context_id) {
            Some(self.grpc_streams[token])
        } else {
            None
        }
    }

    /// The open stream whose message callback a message for `token` is
    /// delivered to: the stream recorded, if no pending call has that
    /// token, the callback is registered and the root of the context that
    /// opened the stream is alive.
    pub open spec fn message_target(self, token: u32) -> Option<GrpcStreamCallback<K>> {
        match self.grpc_stream_target(token) {
            Some(entry) => if entry.message is Some {
                Some(entry)
            } else {
                None
            },
            None => None,
        }
    }

    /// The context, with its root, that a close for `token` is delivered
    /// under: the one that made the pending call with that token; else the
    /// one that opened the stream with that token, if a close callback is
    /// registered for it. In both cases only if the root is alive.
    pub open spec fn close_target(self, token: u32) -> Option<(u32, u32)> {
        if self.grpc_callbacks.contains_key(token) {
            match self.grpc_call_target(token) {
                Some(entry) => Some((entry.context_id, entry.root_context_id)),
                None => None,
            }
        } else {
            match self.grpc_stream_target(token) {
                Some(entry) => if entry.close is Some {
                    Some((entry.context_id, entry.root_context_id))
                } else {
                    None
                },
                None => None,
            }
        }
    }

    /// This dispatcher after the record that an event for the GRPC token
    /// `token` consumes is gone: the pending call if there is one,
    /// else the stream.
    pub open spec fn without_grpc_token(self, token: u32) -> Self {
        if self.grpc_callbacks.contains_key(token) {
            self.without_grpc_callback(token)
        } else {
            self.without_grpc_stream(token)
        }
    }
}

/// What became of the announcement of a context.
#[derive(Copy, Clone, PartialEq, Eq, Structural, Debug)]
pub enum ContextCreation {
    /// The root was alive already; nothing was made.
    RootKnown,
    /// The root was made by the factory.
    RootMade,
    /// A root made a context, which was stored. `reused` says that the id
    /// denoted a context of a request or of a connection already, which
    /// was not deleted first.
    Child { reused: bool },
    /// The parent is no live root; nothing was made.
    UnknownParent,
}

/// The slot in which the root context factory is registered. It is shared
/// by all dispatchers of a process.
pub struct RootInit<F> {
    pub factory: Option<F>,
}

impl<F> RootInit<F> {
    /// A slot with no factory registered.
    pub fn new() -> (r: Self)
        ensures
            r.factory is None,
    {
        RootInit { factory: None }
    }

    /// Forgets the registered factory.
    pub fn clear(&mut self)
        ensures
            final(self).factory is None,
    {
        self.factory = None;
    }

    /// Whether the registered factory can make the root context that is
    /// needed where `known` says whether one is there already.
    pub open spec fn can_make<X>(&self, known: bool) -> bool where F: Fn() -> X {
        !known ==> self.factory is Some && call_requires(self.factory->0, ())
    }
}

/// Sets the root context factory. The factory registered last is the one
/// used.
pub fn set_root_context_factory<F>(init: &mut RootInit<F>, root: F)
    ensures
        final(init).factory == Some(root),
{
    init.factory = Some(root);
}

/// The guard of a stretch during which the host treats another context as
/// current: it remembers which context was current before.
pub struct EffectiveContext {
    name: &'static str,
    prior: u32,
    prior_root: u32,
}

/// What to call for a completed call, and with what. The scope of the
/// context that made the call is open: after the callback has run it is to
/// be closed with `EffectiveContext::exit`.
pub struct Delivery<F, V> {
    pub scope: EffectiveContext,
    pub root_context_id: u32,
    pub callback: F,
    pub response: V,
}

/// What to call for an event of a stream, and with what. The scope of the
/// context that opened the stream is open: after the callback has run it is
/// to be closed with `EffectiveContext::exit`.
pub struct StreamDelivery<F, V> {
    pub scope: EffectiveContext,
    pub root_context_id: u32,
    pub handle: GrpcStreamHandle,
    pub callback: F,
    pub response: V,
}

/// What to call because a queue has data.
pub struct QueueDelivery<E, R> {
    pub root_context_id: u32,
    pub queue: Queue,
    pub callback: QueueCallback<E, R>,
}

impl<E: Clone, R: Clone> QueueCallback<E, R> {
    /// Whether `copy` is a copy of this callback: of the same kind, and a
    /// clone of what it holds.
    pub open spec fn copied(self, copy: Self) -> bool {
        match (self, copy) {
            (QueueCallback::Enqueue(a), QueueCallback::Enqueue(b)) => cloned(a, b),
            (QueueCallback::Receive(a), QueueCallback::Receive(b)) => cloned(a, b),
            _ => false,
        }
    }

    /// A copy of this callback.
    pub fn copy(&self) -> (r: Self)
        ensures
            self.copied(r),
    {
        match self {
            QueueCallback::Enqueue(callback) => QueueCallback::Enqueue(callback.clone()),
            QueueCallback::Receive(callback) => QueueCallback::Receive(callback.clone()),
        }
    }
}

/// What a received GRPC message is delivered to.
pub enum GrpcReceive<K: Callbacks> {
    /// The response of a pending call.
    Call(Delivery<K::Grpc, GrpcCallResponse>),
    /// A message of an open stream.
    Stream(StreamDelivery<K::StreamMessage, GrpcStreamMessage>),
    /// Nothing is to be called.
    Nothing,
}

/// What a GRPC close is delivered to.
pub enum GrpcClose<K: Callbacks> {
    /// The pending call that ended. `status_mismatch` says that the status
    /// the host gave with the event is not the one it gave when asked.
    Call { delivery: Delivery<K::Grpc, GrpcCallResponse>, status_mismatch: bool },
    /// The stream that closed.
    Stream(Delivery<K::StreamClose, GrpcStreamClose>),
    /// Nothing is to be called.
    Nothing,
}

impl EffectiveContext {
    /// What the scope was opened for.
    pub closed spec fn name(&self) -> &'static str {
        self.name
    }

    /// The context that was current before the scope was opened.
    pub closed spec fn prior(&self) -> u32 {
        self.prior
    }

    /// The root that was current before the scope was opened.
    pub closed spec fn prior_root(&self) -> u32 {
        self.prior_root
    }

    /// Whether `scope` and `post` are what opening a scope for the context
    /// `id` under the root `root_id` gives, from the dispatcher `pre` and
    /// with `answer` as the host's answer to being asked to make `id`
    /// current.
    pub open spec fn opened<T: RootContext + ?Sized, K: Callbacks>(
        pre: DispatcherView<T, K>,
        id: u32,
        root_id: u32,
        name: &'static str,
        answer: Result<(), Status>,
        post: DispatcherView<T, K>,
        scope: Option<EffectiveContext>,
    ) -> bool {
        match answer {
            Err(_) => scope is None && post == pre,
            Ok(_) => {
                &&& scope is Some
                &&& scope->0.name() == name
                &&& scope->0.prior() == pre.active_id
                &&& scope->0.prior_root() == pre.active_root_id
                &&& post == pre.with_active(id, root_id)
            },
        }
    }

    /// Opens a scope for the context `id` under the root `root_id`: asks
    /// the host, through `set_context`, to make `id` current. If the host
    /// refuses, nothing changes and there is no scope. Otherwise the
    /// dispatcher has `id` and `root_id` current, and the scope remembers
    /// what was current before.
    pub fn enter<T: RootContext + ?Sized, K: Callbacks, C: Fn(u32) -> Result<(), Status>>(
        dispatcher: &mut Dispatcher<T, K>,
        id: u32,
        root_id: u32,
        name: &'static str,
        set_context: &C,
    ) -> (r: Option<Self>)
        requires
            call_requires(*set_context, (id,)),
        ensures
            exists|answer: Result<(), Status>|
                #[trigger] call_ensures(*set_context, (id,), answer) && Self::opened(
                    old(dispatcher)@,
                    id,
                    root_id,
                    name,
                    answer,
                    final(dispatcher)@,
                    r,
                ),
    {
        match set_context(id) {
            Err(_) => None,
            Ok(_) => {
                let prior = dispatcher.active_id;
                dispatcher.active_id = id;
                let prior_root = dispatcher.active_root_id;
                dispatcher.active_root_id = root_id;
                Some(EffectiveContext { name, prior, prior_root })
            },
        }
    }

    /// Closes the scope: asks the host, through `set_context`, to make the
    /// context current that was so before, without looking at its answer,
    /// and makes that context and its root current in the dispatcher.
    pub fn exit<T: RootContext + ?Sized, K: Callbacks, C: Fn(u32) -> Result<(), Status>>(
        self,
        dispatcher: &mut Dispatcher<T, K>,
        set_context: &C,
    )
        requires
            call_requires(*set_context, (self.prior(),)),
        ensures
            final(dispatcher)@ == old(dispatcher)@.with_active(self.prior(), self.prior_root()),
            exists|answer: Result<(), Status>|
                #[trigger] call_ensures(*set_context, (self.prior(),), answer),
    {
        let _ = set_context(self.prior);
        dispatcher.active_id = self.prior;
        dispatcher.active_root_id = self.prior_root;
    }
}

/// A map from which a key was taken and put back with a value is the map
/// with that value put in.
proof fn lemma_remove_insert<V>(m: Map<u32, V>, k: u32, v: V)
    ensures
        m.remove(k).insert(k, v) == m.insert(k, v),
        !m.contains_key(k) ==> m.remove(k) == m,
        m.insert(k, v).dom() == m.dom().insert(k),
        m.contains_key(k) ==> m.dom().insert(k) == m.dom(),
        m.contains_key(k) && m[k] == v ==> m.insert(k, v) == m,
{
    assert(m.remove(k).insert(k, v) =~= m.insert(k, v));
    if !m.contains_key(k) {
        assert(m.remove(k) =~= m);
    }
    assert(m.insert(k, v).dom() =~= m.dom().insert(k));
    if m.contains_key(k) {
        assert(m.dom().insert(k) =~= m.dom());
        if m[k] == v {
            assert(m.insert(k, v) =~= m);
        }
    }
}

/// The dispatcher of one plugin instance: the live contexts, the pending
/// calls, and which context is current.
pub struct Dispatcher<T: RootContext + ?Sized, K: Callbacks> {
    roots: HashMap<u32, RootInfo<T>>,
    streams: HashMap<u32, StreamInfo<T::Stream>>,
    http_streams: HashMap<u32, HttpStreamInfo<T::Http>>,
    http_callbacks: HashMap<u32, HttpCallback<K::Http>>,
    grpc_callbacks: HashMap<u32, GrpcCallback<K::Grpc>>,
    grpc_streams: HashMap<u32, GrpcStreamCallback<K>>,
    queue_callbacks: HashMap<u32, QueueCallback<K::Queue, K::QueueReceive>>,
    active_id: u32,
    active_root_id: u32,
    generation: usize,
}

impl<T: RootContext + ?Sized, K: Callbacks> View for Dispatcher<T, K> {
    type V = DispatcherView<T, K>;

    closed spec fn view(&self) -> DispatcherView<T, K> {
        DispatcherView {
            roots: self.roots@,
            streams: self.streams@,
            http_streams: self.http_streams@,
            http_callbacks: self.http_callbacks@,
            grpc_callbacks: self.grpc_callbacks@,
            grpc_streams: self.grpc_streams@,
            queue_callbacks: self.queue_callbacks@,
            active_id: self.active_id,
            active_root_id: self.active_root_id,
            generation: self.generation,
        }
    }
}

impl<T: RootContext + ?Sized, K: Callbacks> Dispatcher<T, K> {
    /// A dispatcher that knows no context and no pending call.
    pub fn new() -> (d: Self)
        ensures
            d@ == DispatcherView::<T, K>::empty(0),
    {
        Dispatcher {
            roots: HashMap::new(),
            streams: HashMap::new(),
            http_streams: HashMap::new(),
            http_callbacks: HashMap::new(),
            grpc_callbacks: HashMap::new(),
            grpc_streams: HashMap::new(),
            queue_callbacks: HashMap::new(),
            active_id: 0,
            active_root_id: 0,
            generation: 0,
        }
    }

    /// Forgets every context and every pending call, and has no context
    /// current.
    pub fn reset(&mut self)
        ensures
            final(self)@ == DispatcherView::<T, K>::empty(old(self)@.generation),
    {
        self.roots.clear();
        self.streams.clear();
        self.http_streams.clear();
        self.http_callbacks.clear();
        self.grpc_callbacks.clear();
        self.grpc_streams.clear();
        self.queue_callbacks.clear();
        self.active_id = 0;
        self.active_root_id = 0;
    }

    /// Makes the dispatcher ready for an event under the generation
    /// `current`: if it was last used under another one, it is wiped
    /// first.
    pub fn dispatch(&mut self, current: usize)
        ensures
            final(self)@ == old(self)@.synced(current),
    {
        if self.generation != current {
            self.generation = current;
            self.reset();
        }
    }

    /// The context that is current.
    pub fn active_id(&self) -> (r: u32)
        ensures
            r == self@.active_id,
    {
        self.active_id
    }

    /// The root of the context that is current.
    pub fn root_id(&self) -> (r: u32)
        ensures
            r == self@.active_root_id,
    {
        self.active_root_id
    }

    /// Whether `id` denotes a live root context.
    pub fn is_root(&self, id: u32) -> (r: bool)
        ensures
            r == self@.roots.contains_key(id),
    {
        self.roots.contains_key(&id)
    }

    /// Whether `id` denotes a live context of any kind.
    pub fn is_known(&self, id: u32) -> (r: bool)
        ensures
            r == self@.knows(id),
    {
        self.http_streams.contains_key(&id) || self.streams.contains_key(&id)
            || self.roots.contains_key(&id)
    }

    /// Whether a call or a stream is pending under `token`.
    pub fn is_pending(&self, token: u32) -> (r: bool)
        ensures
            r == (self@.http_callbacks.contains_key(token) || self@.grpc_callbacks.contains_key(
                token,
            ) || self@.grpc_streams.contains_key(token)),
    {
        self.http_callbacks.contains_key(&token) || self.grpc_callbacks.contains_key(&token)
            || self.grpc_streams.contains_key(&token)
    }

    /// Takes the root context `id` out of the dispatcher, to lend it to a
    /// callback.
    pub fn take_root(&mut self, id: u32) -> (r: Option<RootInfo<T>>)
        ensures
            final(self)@ == old(self)@.without_root(id),
            r == if old(self)@.roots.contains_key(id) {
                Some(old(self)@.roots[id])
            } else {
                None
            },
    {
        self.roots.remove(&id)
    }

    /// Puts the root context `id` back that `take_root` took out.
    pub fn restore_root(&mut self, id: u32, root: RootInfo<T>)
        ensures
            final(self)@ == old(self)@.with_root(id, root),
    {
        self.roots.insert(id, root);
    }

    /// Makes sure that the root context `root_context_id` is alive: if it
    /// is not, it is made by the registered factory.
    pub fn root<F: Fn() -> DowncastBox<T>>(&mut self, root_context_id: u32, init: &RootInit<F>)
        requires
            init.can_make(old(self)@.roots.contains_key(root_context_id)),
        ensures
            old(self)@.roots.contains_key(root_context_id) ==> final(self)@ == old(self)@,
            !old(self)@.roots.contains_key(root_context_id) ==> exists|made: DowncastBox<T>|
                #[trigger] call_ensures(init.factory->0, (), made) && final(self)@
                    == old(self)@.with_root(root_context_id, RootInfo { data: made }),
    {
        if !self.roots.contains_key(&root_context_id) {
            match &init.factory {
                Some(factory) => {
                    let made = factory();
                    self.roots.insert(root_context_id, RootInfo { data: made });
                },
                None => {},
            }
        }
    }

    /// Records `callback` for the HTTP call `token`, made by the current
    /// context.
    pub fn register_http_callback(&mut self, token: u32, callback: K::Http)
        ensures
            final(self)@ == old(self)@.with_http_callback(token, callback),
    {
        self.http_callbacks.insert(
            token,
            HttpCallback {
                context_id: self.active_id,
                root_context_id: self.active_root_id,
                callback,
            },
        );
    }

    /// Records `callback` for the GRPC call `token`, made by the current
    /// context.
    pub fn register_grpc_callback(&mut self, token: u32, callback: K::Grpc)
        ensures
            final(self)@ == old(self)@.with_grpc_callback(token, callback),
    {
        self.grpc_callbacks.insert(
            token,
            GrpcCallback {
                context_id: self.active_id,
                root_context_id: self.active_root_id,
                callback,
            },
        );
    }

    /// Takes the record of the stream `token` out for the current context
    /// to change: the one there is, or an empty one. Where the stream
    /// belongs to another context, nothing is taken out.
    fn take_stream_entry(&mut self, token: u32) -> (r: Option<GrpcStreamCallback<K>>)
        ensures
            old(self)@.owns_stream(token) ==> r == Some(old(self)@.stream_entry(token))
                && final(self)@ == old(self)@.without_grpc_stream(token),
            !old(self)@.owns_stream(token) ==> r is None && final(self)@ == old(self)@,
    {
        let context_id = self.active_id;
        let root_context_id = self.active_root_id;
        let owned_elsewhere = match self.grpc_streams.get(&token) {
            Some(entry) => entry.context_id != context_id,
            None => false,
        };
        if owned_elsewhere {
            None
        } else {
            match self.grpc_streams.remove(&token) {
                Some(entry) => Some(entry),
                None => {
                    proof {
                        lemma_remove_insert(
                            old(self)@.grpc_streams,
                            token,
                            old(self)@.stream_entry(token),
                        );
                    }
                    Some(
                        GrpcStreamCallback {
                            context_id,
                            root_context_id,
                            close: None,
                            message: None,
                            initial_meta: None,
                            trailer_meta: None,
                        },
                    )
                },
            }
        }
    }

    /// Records `callback` as the initial metadata callback of the GRPC
    /// stream `token`. A stream that another context opened is left as it
    /// is.
    pub fn register_grpc_stream_initial_meta(
        &mut self,
        token: u32,
        callback: K::StreamInitialMetadata,
    )
        ensures
            final(self)@ == old(self)@.with_stream_entry(
                token,
                (GrpcStreamCallback {
                    initial_meta: Some(callback),
                    ..old(self)@.stream_entry(token)
                }),
            ),
    {
        match self.take_stream_entry(token) {
            Some(mut entry) => {
                entry.initial_meta = Some(callback);
                self.grpc_streams.insert(token, entry);
                proof {
                    lemma_remove_insert(old(self)@.grpc_streams, token, entry);
                }
            },
            None => {},
        }
    }

    /// Records `callback` as the message callback of the GRPC stream
    /// `token`. A stream that another context opened is left as it is.
    pub fn register_grpc_stream_message(&mut self, token: u32, callback: K::StreamMessage)
        ensures
            final(self)@ == old(self)@.with_stream_entry(
                token,
                (GrpcStreamCallback {
                    message: Some(callback),
                    ..old(self)@.stream_entry(token)
                }),
            ),
    {
        match self.take_stream_entry(token) {
            Some(mut entry) => {
                entry.message = Some(callback);
                self.grpc_streams.insert(token, entry);
                proof {
                    lemma_remove_insert(old(self)@.grpc_streams, token, entry);
                }
            },
            None => {},
        }
    }

    /// Records `callback` as the trailing metadata callback of the GRPC
    /// stream `token`. A stream that another context opened is left as it
    /// is.
    pub fn register_grpc_stream_trailing_metadata(
        &mut self,
        token: u32,
        callback: K::StreamTrailingMetadata,
    )
        ensures
            final(self)@ == old(self)@.with_stream_entry(
                token,
                (GrpcStreamCallback {
                    trailer_meta: Some(callback),
                    ..old(self)@.stream_entry(token)
                }),
            ),
    {
        match self.take_stream_entry(token) {
            Some(mut entry) => {
                entry.trailer_meta = Some(callback);
                self.grpc_streams.insert(token, entry);
                proof {
                    lemma_remove_insert(old(self)@.grpc_streams, token, entry);
                }
            },
            None => {},
        }
    }

    /// Records `callback` as the close callback of the GRPC stream
    /// `token`. A stream that another context opened is left as it is.
    pub fn register_grpc_stream_close(&mut self, token: u32, callback: K::StreamClose)
        ensures
            final(self)@ == old(self)@.with_stream_entry(
                token,
                (GrpcStreamCallback { close: Some(callback), ..old(self)@.stream_entry(token) }),
            ),
    {
        match self.take_stream_entry(token) {
            Some(mut entry) => {
                entry.close = Some(callback);
                self.grpc_streams.insert(token, entry);
                proof {
                    lemma_remove_insert(old(self)@.grpc_streams, token, entry);
                }
            },
            None => {},
        }
    }

    /// Records `callback` as what to call when the queue `token` has data.
    pub fn register_queue_callback(
        &mut self,
        token: u32,
        callback: QueueCallback<K::Queue, K::QueueReceive>,
    )
        ensures
            final(self)@ == old(self)@.with_queue_callback(token, callback),
    {
        self.queue_callbacks.insert(token, callback);
    }
}

impl<F, V> Delivery<F, V> {
    /// The scope that a delivery holds open, if there is a delivery.
    pub open spec fn scope_of(delivery: Option<Self>) -> Option<EffectiveContext> {
        match delivery {
            Some(d) => Some(d.scope),
            None => None,
        }
    }
}

impl<F, V> StreamDelivery<F, V> {
    /// The scope that a delivery holds open, if there is a delivery.
    pub open spec fn scope_of(delivery: Option<Self>) -> Option<EffectiveContext> {
        match delivery {
            Some(d) => Some(d.scope),
            None => None,
        }
    }
}

impl<K: Callbacks> GrpcReceive<K> {
    /// The scope that a delivery holds open, if there is a delivery.
    pub open spec fn scope(self) -> Option<EffectiveContext> {
        match self {
            GrpcReceive::Call(d) => Some(d.scope),
            GrpcReceive::Stream(d) => Some(d.scope),
            GrpcReceive::Nothing => None,
        }
    }
}

impl<K: Callbacks> GrpcClose<K> {
    /// The scope that a delivery holds open, if there is a delivery.
    pub open spec fn scope(self) -> Option<EffectiveContext> {
        match self {
            GrpcClose::Call { delivery, status_mismatch } => Some(delivery.scope),
            GrpcClose::Stream(d) => Some(d.scope),
            GrpcClose::Nothing => None,
        }
    }
}

impl<T: RootContext + ?Sized, K: Callbacks> Dispatcher<T, K> {
    /// Takes the HTTP context `id` out, if there is one.
    fn take_http_stream(&mut self, id: u32) -> (r: Option<HttpStreamInfo<T::Http>>)
        ensures
            old(self)@.http_streams.contains_key(id) ==> r == Some(old(self)@.http_streams[id])
                && final(self)@ == (DispatcherView {
                http_streams: old(self)@.http_streams.remove(id),
                ..old(self)@
            }),
            !old(self)@.http_streams.contains_key(id) ==> r is None && final(self)@ == old(self)@,
    {
        proof {
            if !old(self)@.http_streams.contains_key(id) {
                assert(old(self)@.http_streams.remove(id) =~= old(self)@.http_streams);
            }
        }
        self.http_streams.remove(&id)
    }

    /// Takes the connection context `id` out, if there is one.
    fn take_stream(&mut self, id: u32) -> (r: Option<StreamInfo<T::Stream>>)
        ensures
            old(self)@.streams.contains_key(id) ==> r == Some(old(self)@.streams[id])
                && final(self)@
                == (DispatcherView { streams: old(self)@.streams.remove(id), ..old(self)@ }),
            !old(self)@.streams.contains_key(id) ==> r is None && final(self)@ == old(self)@,
    {
        proof {
            if !old(self)@.streams.contains_key(id) {
                assert(old(self)@.streams.remove(id) =~= old(self)@.streams);
            }
        }
        self.streams.remove(&id)
    }

    /// Takes the root context `id` out, if there is one.
    fn take_known_root(&mut self, id: u32) -> (r: Option<RootInfo<T>>)
        ensures
            old(self)@.roots.contains_key(id) ==> r == Some(old(self)@.roots[id]) && final(self)@
                == old(self)@.without_root(id),
            !old(self)@.roots.contains_key(id) ==> r is None && final(self)@ == old(self)@,
    {
        proof {
            if !old(self)@.roots.contains_key(id) {
                assert(old(self)@.roots.remove(id) =~= old(self)@.roots);
            }
        }
        self.roots.remove(&id)
    }

    /// Makes the HTTP context `id` current and takes it out to handle an
    /// event, if there is one.
    fn enter_http_stream(&mut self, id: u32) -> (r: Option<HttpStreamInfo<T::Http>>)
        ensures
            old(self)@.http_streams.contains_key(id) ==> r == Some(old(self)@.http_streams[id])
                && final(self)@ == (DispatcherView {
                http_streams: old(self)@.http_streams.remove(id),
                active_id: id,
                active_root_id: old(self)@.http_streams[id].parent_context_id,
                ..old(self)@
            }),
            !old(self)@.http_streams.contains_key(id) ==> r is None && final(self)@ == old(self)@,
    {
        let taken = self.take_http_stream(id);
        if let Some(info) = &taken {
            self.active_id = id;
            self.active_root_id = info.parent_context_id;
        }
        taken
    }

    /// Makes the connection context `id` current and takes it out to
    /// handle an event, if there is one.
    fn enter_stream(&mut self, id: u32) -> (r: Option<StreamInfo<T::Stream>>)
        ensures
            old(self)@.streams.contains_key(id) ==> r == Some(old(self)@.streams[id])
                && final(self)@ == (DispatcherView {
                streams: old(self)@.streams.remove(id),
                active_id: id,
                active_root_id: old(self)@.streams[id].parent_context_id,
                ..old(self)@
            }),
            !old(self)@.streams.contains_key(id) ==> r is None && final(self)@ == old(self)@,
    {
        let taken = self.take_stream(id);
        if let Some(info) = &taken {
            self.active_id = id;
            self.active_root_id = info.parent_context_id;
        }
        taken
    }

    /// Makes the root context `id` current and takes it out to handle an
    /// event, if there is one.
    fn enter_root(&mut self, id: u32) -> (r: Option<RootInfo<T>>)
        ensures
            old(self)@.roots.contains_key(id) ==> r == Some(old(self)@.roots[id]) && final(self)@
                == old(self)@.without_root(id).with_active(id, id),
            !old(self)@.roots.contains_key(id) ==> r is None && final(self)@ == old(self)@,
    {
        let taken = self.take_known_root(id);
        if taken.is_some() {
            self.active_id = id;
            self.active_root_id = id;
        }
        taken
    }

    /// Puts the HTTP context `id` back after it has handled an event.
    fn put_http_stream(&mut self, id: u32, info: HttpStreamInfo<T::Http>, Ghost(pre): Ghost<
        DispatcherView<T, K>,
    >)
        requires
            pre.http_streams.contains_key(id),
            pre.http_streams[id].parent_context_id == info.parent_context_id,
            old(self)@ == (DispatcherView {
                http_streams: pre.http_streams.remove(id),
                active_id: id,
                active_root_id: info.parent_context_id,
                ..pre
            }),
        ensures
            pre.http_stream_handled(final(self)@, id),
            final(self)@.http_streams[id] == info,
    {
        self.http_streams.insert(id, info);
        proof {
            lemma_remove_insert(pre.http_streams, id, info);
        }
    }

    /// Puts the connection context `id` back after it has handled an
    /// event.
    fn put_stream(&mut self, id: u32, info: StreamInfo<T::Stream>, Ghost(pre): Ghost<
        DispatcherView<T, K>,
    >)
        requires
            pre.streams.contains_key(id),
            pre.streams[id].parent_context_id == info.parent_context_id,
            old(self)@ == (DispatcherView {
                streams: pre.streams.remove(id),
                active_id: id,
                active_root_id: info.parent_context_id,
                ..pre
            }),
        ensures
            pre.stream_handled(final(self)@, id),
            final(self)@.streams[id] == info,
    {
        self.streams.insert(id, info);
        proof {
            lemma_remove_insert(pre.streams, id, info);
        }
    }

    /// Puts the root context `id` back after it has handled an event.
    fn put_root(&mut self, id: u32, root: RootInfo<T>, Ghost(pre): Ghost<DispatcherView<T, K>>)
        requires
            pre.roots.contains_key(id),
            old(self)@ == pre.without_root(id).with_active(id, id),
        ensures
            pre.root_handled(final(self)@, id),
            final(self)@.roots[id] == root,
    {
        self.roots.insert(id, root);
        proof {
            lemma_remove_insert(pre.roots, id, root);
        }
    }

    /// Has the root `root_context_id` make a context, once, and stores it
    /// under `context_id`, as an HTTP context or as a connection context,
    /// whichever the root made. A context that was stored there in the
    /// same category is replaced; one in the other category stays. Under a
    /// root that is not alive nothing is created. The result says which of
    /// the two it was, and whether the id was in use for a context of a
    /// request or of a connection.
    pub fn do_create_subcontext(&mut self, root_context_id: u32, context_id: u32) -> (r:
        ContextCreation)
        ensures
            r == (if old(self)@.roots.contains_key(root_context_id) {
                ContextCreation::Child {
                    reused: old(self)@.http_streams.contains_key(context_id)
                        || old(self)@.streams.contains_key(context_id),
                }
            } else {
                ContextCreation::UnknownParent
            }),
            old(self)@.roots.contains_key(root_context_id) ==> old(self)@.child_created(
                final(self)@,
                root_context_id,
                context_id,
            ),
            !old(self)@.roots.contains_key(root_context_id) ==> final(self)@ == old(self)@,
            old(self)@.roots.contains_key(root_context_id)
                ==> exists|target: &mut T, made: Context<T::Http, T::Stream>|
                old(self)@.roots[root_context_id].data.holds(target)
                    && final(self)@.roots[root_context_id].data.holds(final(target))
                    && #[trigger] call_ensures(<T as RootContext>::create_context, (target,), made)
                    && old(self)@.child_stored(final(self)@, root_context_id, context_id, made),
    {
        let reused = self.http_streams.contains_key(&context_id) || self.streams.contains_key(
            &context_id,
        );
        match self.take_known_root(root_context_id) {
            Some(mut root) => {
                let made = root.data.get_mut().create_context();
                self.roots.insert(root_context_id, root);
                proof {
                    lemma_remove_insert(old(self)@.roots, root_context_id, root);
                }
                match made {
                    Context::Http(context) => {
                        self.http_streams.insert(
                            context_id,
                            HttpStreamInfo { parent_context_id: root_context_id, data: context },
                        );
                    },
                    Context::Stream(context) => {
                        self.streams.insert(
                            context_id,
                            StreamInfo { parent_context_id: root_context_id, data: context },
                        );
                    },
                }
                ContextCreation::Child { reused }
            },
            None => ContextCreation::UnknownParent,
        }
    }

    /// A new context: with no parent, the root `context_id` is made if it
    /// is not alive; with a live root as parent, that root makes a context
    /// that is stored under `context_id`; with an unknown parent, nothing
    /// is created. The result says which it was.
    pub fn on_create_context<F: Fn() -> DowncastBox<T>>(
        &mut self,
        context_id: u32,
        parent_context_id: u32,
        init: &RootInit<F>,
    ) -> (r: ContextCreation)
        requires
            parent_context_id == 0 ==> init.can_make(old(self)@.roots.contains_key(context_id)),
        ensures
            r == old(self)@.creation(context_id, parent_context_id),
            parent_context_id == 0 && old(self)@.roots.contains_key(context_id) ==> final(self)@
                == old(self)@,
            parent_context_id == 0 && !old(self)@.roots.contains_key(context_id) ==> exists|
                made: DowncastBox<T>,
            |
                #[trigger] call_ensures(init.factory->0, (), made) && final(self)@
                    == old(self)@.with_root(context_id, RootInfo { data: made }),
            parent_context_id != 0 && old(self)@.roots.contains_key(parent_context_id)
                ==> old(self)@.child_created(final(self)@, parent_context_id, context_id),
            parent_context_id != 0 && !old(self)@.roots.contains_key(parent_context_id)
                ==> final(self)@ == old(self)@,
            parent_context_id != 0 && old(self)@.roots.contains_key(parent_context_id)
                ==> exists|target: &mut T, made: Context<T::Http, T::Stream>|
                old(self)@.roots[parent_context_id].data.holds(target)
                    && final(self)@.roots[parent_context_id].data.holds(final(target))
                    && #[trigger] call_ensures(<T as RootContext>::create_context, (target,), made)
                    && old(self)@.child_stored(final(self)@, parent_context_id, context_id, made),
    {
        if parent_context_id == 0 {
            let known = self.roots.contains_key(&context_id);
            self.root(context_id, init);
            if known {
                ContextCreation::RootKnown
            } else {
                ContextCreation::RootMade
            }
        } else {
            self.do_create_subcontext(parent_context_id, context_id)
        }
    }

    /// All processing for the context `context_id` is complete: the
    /// context becomes current and says whether it may be deleted at once.
    /// An unknown context may.
    pub fn on_done(&mut self, context_id: u32) -> (r: bool)
        ensures
            old(self)@.http_streams.contains_key(context_id) ==> old(self)@.http_stream_handled(
                final(self)@,
                context_id,
            ),
            !old(self)@.http_streams.contains_key(context_id) && old(self)@.streams.contains_key(
                context_id,
            ) ==> old(self)@.stream_handled(final(self)@, context_id),
            !old(self)@.http_streams.contains_key(context_id)
                && !old(self)@.streams.contains_key(context_id)
                && old(self)@.roots.contains_key(context_id)
                ==> old(self)@.root_handled(final(self)@, context_id),
            !old(self)@.knows(context_id) ==> r && final(self)@ == old(self)@,
            old(self)@.http_streams.contains_key(context_id) ==> exists|target: &mut T::Http|
                *target == old(self)@.http_streams[context_id].data
                    && *final(target) == final(self)@.http_streams[context_id].data
                    && #[trigger] call_ensures(<T::Http as BaseContext>::on_done, (target,), r),
            !old(self)@.http_streams.contains_key(context_id)
                && old(self)@.streams.contains_key(context_id)
                ==> exists|target: &mut T::Stream|
                *target == old(self)@.streams[context_id].data
                    && *final(target) == final(self)@.streams[context_id].data
                    && #[trigger] call_ensures(<T::Stream as BaseContext>::on_done, (target,), r),
            !old(self)@.http_streams.contains_key(context_id)
                && !old(self)@.streams.contains_key(context_id)
                && old(self)@.roots.contains_key(context_id) ==> exists|target: &mut T|
                old(self)@.roots[context_id].data.holds(target)
                    && final(self)@.roots[context_id].data.holds(final(target))
                    && #[trigger] call_ensures(<T as BaseContext>::on_done, (target,), r),
    {
        if let Some(mut http_stream) = self.enter_http_stream(context_id) {
            let r = http_stream.data.on_done();
            self.put_http_stream(context_id, http_stream, Ghost(old(self)@));
            r
        } else if let Some(mut stream) = self.enter_stream(context_id) {
            let r = stream.data.on_done();
            self.put_stream(context_id, stream, Ghost(old(self)@));
            r
        } else if let Some(mut root) = self.enter_root(context_id) {
            let r = root.data.get_mut().on_done();
            self.put_root(context_id, root, Ghost(old(self)@));
            r
        } else {
            true
        }
    }

    /// The context `context_id` is to write its access log: it becomes
    /// current and does so. An unknown context is passed over.
    pub fn on_log(&mut self, context_id: u32)
        ensures
            old(self)@.http_streams.contains_key(context_id) ==> old(self)@.http_stream_handled(
                final(self)@,
                context_id,
            ),
            !old(self)@.http_streams.contains_key(context_id) && old(self)@.streams.contains_key(
                context_id,
            ) ==> old(self)@.stream_handled(final(self)@, context_id),
            !old(self)@.http_streams.contains_key(context_id)
                && !old(self)@.streams.contains_key(context_id)
                && old(self)@.roots.contains_key(context_id)
                ==> old(self)@.root_handled(final(self)@, context_id),
            !old(self)@.knows(context_id) ==> final(self)@ == old(self)@,
            old(self)@.http_streams.contains_key(context_id) ==> exists|target: &mut T::Http|
                *target == old(self)@.http_streams[context_id].data
                    && *final(target) == final(self)@.http_streams[context_id].data
                    && #[trigger] call_ensures(<T::Http as BaseContext>::on_log, (target,), ()),
            !old(self)@.http_streams.contains_key(context_id)
                && old(self)@.streams.contains_key(context_id)
                ==> exists|target: &mut T::Stream|
                *target == old(self)@.streams[context_id].data
                    && *final(target) == final(self)@.streams[context_id].data
                    && #[trigger] call_ensures(<T::Stream as BaseContext>::on_log, (target,), ()),
            !old(self)@.http_streams.contains_key(context_id)
                && !old(self)@.streams.contains_key(context_id)
                && old(self)@.roots.contains_key(context_id) ==> exists|target: &mut T|
                old(self)@.roots[context_id].data.holds(target)
                    && final(self)@.roots[context_id].data.holds(final(target))
                    && #[trigger] call_ensures(<T as BaseContext>::on_log, (target,), ()),
    {
        if let Some(mut http_stream) = self.enter_http_stream(context_id) {
            http_stream.data.on_log();
            self.put_http_stream(context_id, http_stream, Ghost(old(self)@));
        } else if let Some(mut stream) = self.enter_stream(context_id) {
            stream.data.on_log();
            self.put_stream(context_id, stream, Ghost(old(self)@));
        } else if let Some(mut root) = self.enter_root(context_id) {
            root.data.get_mut().on_log();
            self.put_root(context_id, root, Ghost(old(self)@));
        }
    }

    /// Deletes the context `context_id` from the category that holds it:
    /// the HTTP contexts first, then the connection contexts, the roots
    /// last. The result says whether it was known.
    pub fn on_delete(&mut self, context_id: u32) -> (known: bool)
        ensures
            final(self)@ == old(self)@.without_context(context_id),
            known == old(self)@.knows(context_id),
    {
        if self.take_http_stream(context_id).is_some() {
            return true;
        }
        if self.take_stream(context_id).is_some() {
            return true;
        }
        if self.take_known_root(context_id).is_some() {
            return true;
        }
        false
    }

    /// The VM starts: the root `context_id` is handed the VM
    /// configuration, which the host is asked for through `get_buffer`,
    /// and says whether startup may go on. For a context that is no root
    /// it may; where the host refuses the configuration it may not.
    pub fn on_vm_start<
        B: FnOnce(BufferType, usize, usize) -> Result<Option<Vec<u8>>, Status>,
    >(&mut self, context_id: u32, vm_configuration_size: usize, get_buffer: B) -> (r: bool)
        requires
            call_requires(
                get_buffer,
                (BufferType::VmConfiguration, 0usize, vm_configuration_size),
            ),
        ensures
            !old(self)@.roots.contains_key(context_id) ==> r && final(self)@ == old(self)@,
            old(self)@.roots.contains_key(context_id) ==> exists|
                answer: Result<Option<Vec<u8>>, Status>,
            |
                #[trigger] call_ensures(
                    get_buffer,
                    (BufferType::VmConfiguration, 0usize, vm_configuration_size),
                    answer,
                ) && match answer {
                    Err(_) => !r && final(self)@ == old(self)@,
                    Ok(configuration) => old(self)@.root_handled(final(self)@, context_id)
                        && exists|target: &mut T|
                            old(self)@.roots[context_id].data.holds(target)
                                && final(self)@.roots[context_id].data.holds(final(target))
                                && #[trigger] call_ensures(<T as RootContext>::on_vm_start,
                                    (target, configuration), r),
                },
    {
        if !self.roots.contains_key(&context_id) {
            return true;
        }
        let configuration = match get_buffer(
            BufferType::VmConfiguration,
            0,
            vm_configuration_size,
        ) {
            Ok(configuration) => configuration,
            Err(_) => {
                return false;
            },
        };
        match self.enter_root(context_id) {
            Some(mut root) => {
                let r = root.data.get_mut().on_vm_start(configuration);
                self.put_root(context_id, root, Ghost(old(self)@));
                r
            },
            None => true,
        }
    }

    /// The plugin is configured: the root `context_id` is handed the
    /// plugin configuration, which the host is asked for through
    /// `get_buffer`, and says whether startup may go on. For a context
    /// that is no root it may; where the host refuses the configuration it
    /// may not.
    pub fn on_configure<B: FnOnce(BufferType, usize, usize) -> Result<Option<Vec<u8>>, Status>>(
        &mut self,
        context_id: u32,
        plugin_configuration_size: usize,
        get_buffer: B,
    ) -> (r: bool)
        requires
            call_requires(
                get_buffer,
                (BufferType::PluginConfiguration, 0usize, plugin_configuration_size),
            ),
        ensures
            !old(self)@.roots.contains_key(context_id) ==> r && final(self)@ == old(self)@,
            old(self)@.roots.contains_key(context_id) ==> exists|
                answer: Result<Option<Vec<u8>>, Status>,
            |
                #[trigger] call_ensures(
                    get_buffer,
                    (BufferType::PluginConfiguration, 0usize, plugin_configuration_size),
                    answer,
                ) && match answer {
                    Err(_) => !r && final(self)@ == old(self)@,
                    Ok(configuration) => old(self)@.root_handled(final(self)@, context_id)
                        && exists|target: &mut T|
                            old(self)@.roots[context_id].data.holds(target)
                                && final(self)@.roots[context_id].data.holds(final(target))
                                && #[trigger] call_ensures(<T as RootContext>::on_configure,
                                    (target, configuration), r),
                },
    {
        if !self.roots.contains_key(&context_id) {
            return true;
        }
        let configuration = match get_buffer(
            BufferType::PluginConfiguration,
            0,
            plugin_configuration_size,
        ) {
            Ok(configuration) => configuration,
            Err(_) => {
                return false;
            },
        };
        match self.enter_root(context_id) {
            Some(mut root) => {
                let r = root.data.get_mut().on_configure(configuration);
                self.put_root(context_id, root, Ghost(old(self)@));
                r
            },
            None => true,
        }
    }

    /// A tick: the root `context_id` becomes current and handles it. A
    /// context that is no root is passed over.
    pub fn on_tick(&mut self, context_id: u32)
        ensures
            !old(self)@.roots.contains_key(context_id) ==> final(self)@ == old(self)@,
            old(self)@.roots.contains_key(context_id) ==> old(self)@.root_handled(
                final(self)@,
                context_id,
            ),
            old(self)@.roots.contains_key(context_id) ==> exists|target: &mut T|
                old(self)@.roots[context_id].data.holds(target)
                    && final(self)@.roots[context_id].data.holds(final(target))
                    && #[trigger] call_ensures(<T as RootContext>::on_tick, (target,), ()),
    {
        match self.enter_root(context_id) {
            Some(mut root) => {
                root.data.get_mut().on_tick();
                self.put_root(context_id, root, Ghost(old(self)@));
            },
            None => {},
        }
    }

    /// The queue `queue_id` has data for the root `context_id`: what was
    /// registered for the queue is to be called with that root. Nothing is
    /// to be called for a context that is no root, or a queue that nothing
    /// was registered for. No other context becomes current.
    pub fn on_queue_ready(&self, context_id: u32, queue_id: u32) -> (r: Option<
        QueueDelivery<K::Queue, K::QueueReceive>,
    >)
        ensures
            r is Some == (self@.roots.contains_key(context_id)
                && self@.queue_callbacks.contains_key(
                queue_id,
            )),
            r matches Some(d) ==> d.root_context_id == context_id && d.queue == Queue(queue_id)
                && self@.queue_callbacks[queue_id].copied(d.callback),
    {
        if !self.roots.contains_key(&context_id) {
            return None;
        }
        match self.queue_callbacks.get(&queue_id) {
            Some(callback) => Some(
                QueueDelivery {
                    root_context_id: context_id,
                    queue: Queue(queue_id),
                    callback: callback.copy(),
                },
            ),
            None => None,
        }
    }

    /// A new connection: the connection context `context_id` becomes
    /// current and handles it. For an unknown context processing
    /// continues.
    pub fn on_new_connection(&mut self, context_id: u32) -> (r: FilterStreamStatus)
        ensures
            !old(self)@.streams.contains_key(context_id) ==> r == FilterStreamStatus::Continue
                && final(self)@ == old(self)@,
            old(self)@.streams.contains_key(context_id) ==> old(self)@.stream_handled(
                final(self)@,
                context_id,
            ),
            old(self)@.streams.contains_key(context_id) ==> exists|target: &mut T::Stream|
                *target == old(self)@.streams[context_id].data
                    && *final(target) == final(self)@.streams[context_id].data
                    && #[trigger] call_ensures(
                    <T::Stream as StreamContext>::on_new_connection,
                    (target,),
                    r,
                ),
    {
        match self.enter_stream(context_id) {
            Some(mut stream) => {
                let r = stream.data.on_new_connection();
                self.put_stream(context_id, stream, Ghost(old(self)@));
                r
            },
            None => FilterStreamStatus::Continue,
        }
    }

    /// Downstream data: the connection context `context_id` becomes
    /// current and handles it. For an unknown context processing
    /// continues.
    pub fn on_downstream_data(&mut self, context_id: u32, data_size: usize,
        end_of_stream: bool) -> (r:
        FilterStreamStatus)
        ensures
            !old(self)@.streams.contains_key(context_id) ==> r == FilterStreamStatus::Continue
                && final(self)@ == old(self)@,
            old(self)@.streams.contains_key(context_id) ==> old(self)@.stream_handled(
                final(self)@,
                context_id,
            ),
            old(self)@.streams.contains_key(context_id)
                ==> exists|target: &mut T::Stream, view: DownstreamData|
                *target == old(self)@.streams[context_id].data
                    && *final(target) == final(self)@.streams[context_id].data
                    && view.spec_data_size() == data_size
                    && view.spec_end_of_stream() == end_of_stream
                    && #[trigger] call_ensures(
                    <T::Stream as StreamContext>::on_downstream_data,
                    (target, &view),
                    r,
                ),
    {
        match self.enter_stream(context_id) {
            Some(mut stream) => {
                let view = DownstreamData::new(data_size, end_of_stream);
                let r = stream.data.on_downstream_data(&view);
                self.put_stream(context_id, stream, Ghost(old(self)@));
                r
            },
            None => FilterStreamStatus::Continue,
        }
    }

    /// The downstream closed: the connection context `context_id` becomes
    /// current and handles it. An unknown context is passed over.
    pub fn on_downstream_close(&mut self, context_id: u32, close_type: CloseType)
        ensures
            !old(self)@.streams.contains_key(context_id) ==> final(self)@ == old(self)@,
            old(self)@.streams.contains_key(context_id) ==> old(self)@.stream_handled(
                final(self)@,
                context_id,
            ),
            old(self)@.streams.contains_key(context_id)
                ==> exists|target: &mut T::Stream, view: StreamClose|
                *target == old(self)@.streams[context_id].data
                    && *final(target) == final(self)@.streams[context_id].data
                    && view.spec_close_type() == close_type
                    && #[trigger] call_ensures(
                    <T::Stream as StreamContext>::on_downstream_close,
                    (target, &view),
                    (),
                ),
    {
        match self.enter_stream(context_id) {
            Some(mut stream) => {
                let view = StreamClose::new(close_type);
                stream.data.on_downstream_close(&view);
                self.put_stream(context_id, stream, Ghost(old(self)@));
            },
            None => {},
        }
    }

    /// Upstream data: the connection context `context_id` becomes current
    /// and handles it. For an unknown context processing continues.
    pub fn on_upstream_data(&mut self, context_id: u32, data_size: usize,
        end_of_stream: bool) -> (r:
        FilterStreamStatus)
        ensures
            !old(self)@.streams.contains_key(context_id) ==> r == FilterStreamStatus::Continue
                && final(self)@ == old(self)@,
            old(self)@.streams.contains_key(context_id) ==> old(self)@.stream_handled(
                final(self)@,
                context_id,
            ),
            old(self)@.streams.contains_key(context_id)
                ==> exists|target: &mut T::Stream, view: UpstreamData|
                *target == old(self)@.streams[context_id].data
                    && *final(target) == final(self)@.streams[context_id].data
                    && view.spec_data_size() == data_size
                    && view.spec_end_of_stream() == end_of_stream
                    && #[trigger] call_ensures(
                    <T::Stream as StreamContext>::on_upstream_data,
                    (target, &view),
                    r,
                ),
    {
        match self.enter_stream(context_id) {
            Some(mut stream) => {
                let view = UpstreamData::new(data_size, end_of_stream);
                let r = stream.data.on_upstream_data(&view);
                self.put_stream(context_id, stream, Ghost(old(self)@));
                r
            },
            None => FilterStreamStatus::Continue,
        }
    }

    /// The upstream closed: the connection context `context_id` becomes
    /// current and handles it. An unknown context is passed over.
    pub fn on_upstream_close(&mut self, context_id: u32, close_type: CloseType)
        ensures
            !old(self)@.streams.contains_key(context_id) ==> final(self)@ == old(self)@,
            old(self)@.streams.contains_key(context_id) ==> old(self)@.stream_handled(
                final(self)@,
                context_id,
            ),
            old(self)@.streams.contains_key(context_id)
                ==> exists|target: &mut T::Stream, view: StreamClose|
                *target == old(self)@.streams[context_id].data
                    && *final(target) == final(self)@.streams[context_id].data
                    && view.spec_close_type() == close_type
                    && #[trigger] call_ensures(
                    <T::Stream as StreamContext>::on_upstream_close,
                    (target, &view),
                    (),
                ),
    {
        match self.enter_stream(context_id) {
            Some(mut stream) => {
                let view = StreamClose::new(close_type);
                stream.data.on_upstream_close(&view);
                self.put_stream(context_id, stream, Ghost(old(self)@));
            },
            None => {},
        }
    }

    /// Request headers: the HTTP context `context_id` becomes current and
    /// handles them. For an unknown context processing continues.
    pub fn on_http_request_headers(
        &mut self,
        context_id: u32,
        header_count: usize,
        end_of_stream: bool,
    ) -> (r: FilterHeadersStatus)
        ensures
            !old(self)@.http_streams.contains_key(context_id) ==> r
                == FilterHeadersStatus::Continue && final(self)@ == old(self)@,
            old(self)@.http_streams.contains_key(context_id) ==> old(self)@.http_stream_handled(
                final(self)@,
                context_id,
            ),
            old(self)@.http_streams.contains_key(context_id)
                ==> exists|target: &mut T::Http, view: RequestHeaders|
                *target == old(self)@.http_streams[context_id].data
                    && *final(target) == final(self)@.http_streams[context_id].data
                    && view.spec_header_count() == header_count
                    && view.spec_end_of_stream() == end_of_stream
                    && #[trigger] call_ensures(
                    <T::Http as HttpContext>::on_http_request_headers,
                    (target, &view),
                    r,
                ),
    {
        match self.enter_http_stream(context_id) {
            Some(mut context) => {
                let view = RequestHeaders::new(header_count, end_of_stream);
                let r = context.data.on_http_request_headers(&view);
                self.put_http_stream(context_id, context, Ghost(old(self)@));
                r
            },
            None => FilterHeadersStatus::Continue,
        }
    }

    /// A block of the request body: the HTTP context `context_id` becomes
    /// current and handles it. For an unknown context processing
    /// continues.
    pub fn on_http_request_body(&mut self, context_id: u32, body_size: usize,
        end_of_stream: bool) -> (r:
        FilterDataStatus)
        ensures
            !old(self)@.http_streams.contains_key(context_id) ==> r == FilterDataStatus::Continue
                && final(self)@ == old(self)@,
            old(self)@.http_streams.contains_key(context_id) ==> old(self)@.http_stream_handled(
                final(self)@,
                context_id,
            ),
            old(self)@.http_streams.contains_key(context_id)
                ==> exists|target: &mut T::Http, view: RequestBody|
                *target == old(self)@.http_streams[context_id].data
                    && *final(target) == final(self)@.http_streams[context_id].data
                    && view.spec_body_size() == body_size
                    && view.spec_end_of_stream() == end_of_stream
                    && #[trigger] call_ensures(
                    <T::Http as HttpContext>::on_http_request_body,
                    (target, &view),
                    r,
                ),
    {
        match self.enter_http_stream(context_id) {
            Some(mut context) => {
                let view = RequestBody::new(body_size, end_of_stream);
                let r = context.data.on_http_request_body(&view);
                self.put_http_stream(context_id, context, Ghost(old(self)@));
                r
            },
            None => FilterDataStatus::Continue,
        }
    }

    /// Request trailers: the HTTP context `context_id` becomes current and
    /// handles them. For an unknown context processing continues.
    pub fn on_http_request_trailers(&mut self, context_id: u32, trailer_count: usize) -> (r:
        FilterTrailersStatus)
        ensures
            !old(self)@.http_streams.contains_key(context_id) ==> r
                == FilterTrailersStatus::Continue && final(self)@ == old(self)@,
            old(self)@.http_streams.contains_key(context_id) ==> old(self)@.http_stream_handled(
                final(self)@,
                context_id,
            ),
            old(self)@.http_streams.contains_key(context_id)
                ==> exists|target: &mut T::Http, view: RequestTrailers|
                *target == old(self)@.http_streams[context_id].data
                    && *final(target) == final(self)@.http_streams[context_id].data
                    && view.spec_header_count() == trailer_count
                    && #[trigger] call_ensures(
                    <T::Http as HttpContext>::on_http_request_trailers,
                    (target, &view),
                    r,
                ),
    {
        match self.enter_http_stream(context_id) {
            Some(mut context) => {
                let view = RequestTrailers::new(trailer_count);
                let r = context.data.on_http_request_trailers(&view);
                self.put_http_stream(context_id, context, Ghost(old(self)@));
                r
            },
            None => FilterTrailersStatus::Continue,
        }
    }

    /// Response headers: the HTTP context `context_id` becomes current and
    /// handles them. For an unknown context processing continues.
    pub fn on_http_response_headers(
        &mut self,
        context_id: u32,
        header_count: usize,
        end_of_stream: bool,
    ) -> (r: FilterHeadersStatus)
        ensures
            !old(self)@.http_streams.contains_key(context_id) ==> r
                == FilterHeadersStatus::Continue && final(self)@ == old(self)@,
            old(self)@.http_streams.contains_key(context_id) ==> old(self)@.http_stream_handled(
                final(self)@,
                context_id,
            ),
            old(self)@.http_streams.contains_key(context_id)
                ==> exists|target: &mut T::Http, view: ResponseHeaders|
                *target == old(self)@.http_streams[context_id].data
                    && *final(target) == final(self)@.http_streams[context_id].data
                    && view.spec_header_count() == header_count
                    && view.spec_end_of_stream() == end_of_stream
                    && #[trigger] call_ensures(
                    <T::Http as HttpContext>::on_http_response_headers,
                    (target, &view),
                    r,
                ),
    {
        match self.enter_http_stream(context_id) {
            Some(mut context) => {
                let view = ResponseHeaders::new(header_count, end_of_stream);
                let r = context.data.on_http_response_headers(&view);
                self.put_http_stream(context_id, context, Ghost(old(self)@));
                r
            },
            None => FilterHeadersStatus::Continue,
        }
    }

    /// A block of the response body: the HTTP context `context_id` becomes
    /// current and handles it. For an unknown context processing
    /// continues.
    pub fn on_http_response_body(&mut self, context_id: u32, body_size: usize,
        end_of_stream: bool) -> (r:
        FilterDataStatus)
        ensures
            !old(self)@.http_streams.contains_key(context_id) ==> r == FilterDataStatus::Continue
                && final(self)@ == old(self)@,
            old(self)@.http_streams.contains_key(context_id) ==> old(self)@.http_stream_handled(
                final(self)@,
                context_id,
            ),
            old(self)@.http_streams.contains_key(context_id)
                ==> exists|target: &mut T::Http, view: ResponseBody|
                *target == old(self)@.http_streams[context_id].data
                    && *final(target) == final(self)@.http_streams[context_id].data
                    && view.spec_body_size() == body_size
                    && view.spec_end_of_stream() == end_of_stream
                    && #[trigger] call_ensures(
                    <T::Http as HttpContext>::on_http_response_body,
                    (target, &view),
                    r,
                ),
    {
        match self.enter_http_stream(context_id) {
            Some(mut context) => {
                let view = ResponseBody::new(body_size, end_of_stream);
                let r = context.data.on_http_response_body(&view);
                self.put_http_stream(context_id, context, Ghost(old(self)@));
                r
            },
            None => FilterDataStatus::Continue,
        }
    }

    /// Response trailers: the HTTP context `context_id` becomes current
    /// and handles them. For an unknown context processing continues.
    pub fn on_http_response_trailers(&mut self, context_id: u32, trailer_count: usize) -> (r:
        FilterTrailersStatus)
        ensures
            !old(self)@.http_streams.contains_key(context_id) ==> r
                == FilterTrailersStatus::Continue && final(self)@ == old(self)@,
            old(self)@.http_streams.contains_key(context_id) ==> old(self)@.http_stream_handled(
                final(self)@,
                context_id,
            ),
            old(self)@.http_streams.contains_key(context_id)
                ==> exists|target: &mut T::Http, view: ResponseTrailers|
                *target == old(self)@.http_streams[context_id].data
                    && *final(target) == final(self)@.http_streams[context_id].data
                    && view.spec_header_count() == trailer_count
                    && #[trigger] call_ensures(
                    <T::Http as HttpContext>::on_http_response_trailers,
                    (target, &view),
                    r,
                ),
    {
        match self.enter_http_stream(context_id) {
            Some(mut context) => {
                let view = ResponseTrailers::new(trailer_count);
                let r = context.data.on_http_response_trailers(&view);
                self.put_http_stream(context_id, context, Ghost(old(self)@));
                r
            },
            None => FilterTrailersStatus::Continue,
        }
    }
}

impl<T: RootContext + ?Sized, K: Callbacks> Dispatcher<T, K> {
    /// The response of the HTTP call `token_id` has arrived. The record of
    /// the call is consumed. If the root of the context that made the call
    /// is alive and the host, asked through `set_context`, makes that
    /// context current, the result is what to call, with the scope of that
    /// context open; else nothing is to be called.
    pub fn on_http_call_response<C: Fn(u32) -> Result<(), Status>>(
        &mut self,
        token_id: u32,
        num_headers: usize,
        body_size: usize,
        num_trailers: usize,
        set_context: &C,
    ) -> (r: Option<Delivery<K::Http, HttpCallResponse>>)
        requires
            forall|id: u32| call_requires(*set_context, (id,)),
        ensures
            match old(self)@.http_call_target(token_id) {
                None => r is None && final(self)@ == old(self)@.without_http_callback(token_id),
                Some(entry) => exists|answer: Result<(), Status>|
                    #[trigger] call_ensures(*set_context, (entry.context_id,), answer)
                        && EffectiveContext::opened(
                        old(self)@.without_http_callback(token_id),
                        entry.context_id,
                        entry.root_context_id,
                        "http callback",
                        answer,
                        final(self)@,
                        Delivery::scope_of(r),
                    ),
            },
            r matches Some(d) ==> {
                &&& d.root_context_id == old(self)@.http_callbacks[token_id].root_context_id
                &&& d.callback == old(self)@.http_callbacks[token_id].callback
                &&& d.response.spec_num_headers() == num_headers
                &&& d.response.spec_body_size() == body_size
                &&& d.response.spec_num_trailers() == num_trailers
            },
    {
        proof {
            lemma_remove_insert(
                old(self)@.http_callbacks,
                token_id,
                old(self)@.http_callbacks[token_id],
            );
        }
        let callback = match self.http_callbacks.remove(&token_id) {
            Some(callback) => callback,
            None => {
                return None;
            },
        };
        if !self.roots.contains_key(&callback.root_context_id) {
            return None;
        }
        let scope = match EffectiveContext::enter(
            self,
            callback.context_id,
            callback.root_context_id,
            "http callback",
            set_context,
        ) {
            Some(scope) => scope,
            None => {
                return None;
            },
        };
        Some(
            Delivery {
                scope,
                root_context_id: callback.root_context_id,
                callback: callback.callback,
                response: HttpCallResponse::new(num_headers, body_size, num_trailers),
            },
        )
    }
}

/// Whether the host was asked, through `set_context`, to make the context
/// `prior` current again.
pub open spec fn restored<C: Fn(u32) -> Result<(), Status>>(set_context: C, prior: u32) -> bool {
    exists|answer: Result<(), Status>| #[trigger] call_ensures(set_context, (prior,), answer)
}

impl<K: Callbacks> GrpcClose<K> {
    /// Whether `self` is what a close for the GRPC token `token` delivers
    /// from the dispatcher `pre`, where the host gave `status_code` with
    /// the event and `code` with `message` when asked: the callback of the
    /// pending call or of the stream, with a response that carries the
    /// status that the host gave when asked.
    pub open spec fn delivers<T: RootContext + ?Sized>(
        self,
        pre: DispatcherView<T, K>,
        token: u32,
        status_code: u32,
        code: u32,
        message: Option<String>,
    ) -> bool {
        match self {
            GrpcClose::Call { delivery, status_mismatch } => {
                &&& pre.grpc_callbacks.contains_key(token)
                &&& delivery.root_context_id == pre.grpc_callbacks[token].root_context_id
                &&& delivery.callback == pre.grpc_callbacks[token].callback
                &&& delivery.response.spec_handle_id() == token
                &&& delivery.response.spec_status_code() == GrpcCode::of(code)
                &&& delivery.response.spec_status_message() == message
                &&& delivery.response.spec_body_size() == 0
                &&& status_mismatch == (code != status_code)
            },
            GrpcClose::Stream(delivery) => {
                &&& !pre.grpc_callbacks.contains_key(token)
                &&& pre.grpc_streams.contains_key(token)
                &&& delivery.root_context_id == pre.grpc_streams[token].root_context_id
                &&& Some(delivery.callback) == pre.grpc_streams[token].close
                &&& delivery.response.spec_handle_id() == token
                &&& delivery.response.spec_status_code() == GrpcCode::of(code)
                &&& delivery.response.spec_status_message() == message
            },
            GrpcClose::Nothing => false,
        }
    }

    /// Whether `self` and `post` are what a close for the GRPC token
    /// `token` gives from the dispatcher `pre`, where the record consumed
    /// was made by the context and root `origin`, the host answered
    /// `entered` to being asked to make that context current and, if it
    /// did so, `status` to being asked for the status of the close.
    pub open spec fn outcome<T: RootContext + ?Sized>(
        self,
        pre: DispatcherView<T, K>,
        token: u32,
        status_code: u32,
        origin: (u32, u32),
        entered: Result<(), Status>,
        status: Result<(u32, Option<String>), Status>,
        post: DispatcherView<T, K>,
    ) -> bool {
        match (entered, status) {
            (Ok(_), Ok(given)) => {
                &&& self.delivers(pre, token, status_code, given.0, given.1)
                &&& EffectiveContext::opened(
                    pre.without_grpc_token(token),
                    origin.0,
                    origin.1,
                    if pre.grpc_callbacks.contains_key(token) {
                        "grpc callback"
                    } else {
                        "grpc stream"
                    },
                    entered,
                    post,
                    self.scope(),
                )
            },
            _ => self is Nothing && post == pre.without_grpc_token(token),
        }
    }

    /// Whether `self` and `post` are what a close for the GRPC token
    /// `token` gives from the dispatcher `pre`, where the record consumed
    /// was made by the context and root `origin`, for some answers of the
    /// host: one to being asked, through `set_context`, to make that
    /// context current and, if it did so, one to being asked, through
    /// `get_status`, for the status of the close. Where the host gave no
    /// status, it was asked, through `set_context` again, to make the
    /// context current that was so before.
    pub open spec fn closes<
        T: RootContext + ?Sized,
        C: Fn(u32) -> Result<(), Status>,
        G: FnOnce() -> Result<(u32, Option<String>), Status>,
    >(
        self,
        pre: DispatcherView<T, K>,
        token: u32,
        status_code: u32,
        origin: (u32, u32),
        set_context: C,
        get_status: G,
        post: DispatcherView<T, K>,
    ) -> bool {
        exists|entered: Result<(), Status>, status: Result<(u32, Option<String>), Status>|
            {
                &&& call_ensures(set_context, (origin.0,), entered)
                &&& entered is Ok ==> call_ensures(get_status, (), status)
                &&& entered is Ok && status is Err ==> restored(set_context, pre.active_id)
                &&& #[trigger] self.outcome(
                    pre,
                    token,
                    status_code,
                    origin,
                    entered,
                    status,
                    post,
                )
            }
    }
}

impl<T: RootContext + ?Sized, K: Callbacks> Dispatcher<T, K> {
    /// Initial metadata of the GRPC stream `token_id` has arrived. If a
    /// callback is registered for it, the root of the context that opened
    /// the stream is alive and the host, asked through `set_context`,
    /// makes that context current, the result is what to call, with the
    /// scope of that context open; else nothing is to be called. The
    /// record of the stream stays as it is.
    pub fn on_grpc_receive_initial_metadata<C: Fn(u32) -> Result<(), Status>>(
        &mut self,
        token_id: u32,
        num_headers: u32,
        set_context: &C,
    ) -> (r: Option<StreamDelivery<K::StreamInitialMetadata, GrpcStreamInitialMetadata>>)
        requires
            forall|id: u32| call_requires(*set_context, (id,)),
        ensures
            match old(self)@.initial_metadata_target(token_id) {
                None => r is None && final(self)@ == old(self)@,
                Some(entry) => exists|answer: Result<(), Status>|
                    #[trigger] call_ensures(*set_context, (entry.context_id,), answer)
                        && EffectiveContext::opened(
                        old(self)@,
                        entry.context_id,
                        entry.root_context_id,
                        "grpc stream",
                        answer,
                        final(self)@,
                        StreamDelivery::scope_of(r),
                    ),
            },
            r matches Some(d) ==> {
                &&& d.root_context_id == old(self)@.grpc_streams[token_id].root_context_id
                &&& d.handle == GrpcStreamHandle(token_id)
                &&& cloned(old(self)@.grpc_streams[token_id].initial_meta->0, d.callback)
                &&& d.response.spec_num_elements() == num_headers
            },
    {
        let (context_id, root_context_id, function) = match self.grpc_streams.get(&token_id) {
            Some(callback) => match &callback.initial_meta {
                Some(function) => (
                    callback.context_id,
                    callback.root_context_id,
                    function.clone(),
                ),
                None => {
                    return None;
                },
            },
            None => {
                return None;
            },
        };
        if !self.roots.contains_key(&root_context_id) {
            return None;
        }
        let scope = match EffectiveContext::enter(
            self,
            context_id,
            root_context_id,
            "grpc stream",
            set_context,
        ) {
            Some(scope) => scope,
            None => {
                return None;
            },
        };
        Some(
            StreamDelivery {
                scope,
                root_context_id,
                handle: GrpcStreamHandle(token_id),
                callback: function,
                response: GrpcStreamInitialMetadata::new(num_headers as usize),
            },
        )
    }

    /// A GRPC message for `token_id` has arrived. If a call is pending
    /// under the token, its record is consumed and its callback is what to
    /// call. Else, if a stream is open under the token and has a message
    /// callback, that is what to call, and the record of the stream stays
    /// as it is. Either is delivered only if the root of the context that
    /// made the call or opened the stream is alive and the host, asked
    /// through `set_context`, makes that context current; its scope is
    /// then open.
    pub fn on_grpc_receive<C: Fn(u32) -> Result<(), Status>>(
        &mut self,
        token_id: u32,
        response_size: usize,
        set_context: &C,
    ) -> (r: GrpcReceive<K>)
        requires
            forall|id: u32| call_requires(*set_context, (id,)),
        ensures
            old(self)@.grpc_callbacks.contains_key(token_id) ==> !(r is Stream)
                && match old(self)@.grpc_call_target(token_id) {
                None => r is Nothing && final(self)@ == old(self)@.without_grpc_callback(
                    token_id,
                ),
                Some(entry) => exists|answer: Result<(), Status>|
                    #[trigger] call_ensures(*set_context, (entry.context_id,), answer)
                        && EffectiveContext::opened(
                        old(self)@.without_grpc_callback(token_id),
                        entry.context_id,
                        entry.root_context_id,
                        "grpc callback",
                        answer,
                        final(self)@,
                        r.scope(),
                    ),
            },
            !old(self)@.grpc_callbacks.contains_key(token_id) ==> !(r is Call)
                && match old(self)@.message_target(token_id) {
                None => r is Nothing && final(self)@ == old(self)@,
                Some(entry) => exists|answer: Result<(), Status>|
                    #[trigger] call_ensures(*set_context, (entry.context_id,), answer)
                        && EffectiveContext::opened(
                        old(self)@,
                        entry.context_id,
                        entry.root_context_id,
                        "grpc stream",
                        answer,
                        final(self)@,
                        r.scope(),
                    ),
            },
            r matches GrpcReceive::Call(d) ==> {
                &&& d.root_context_id == old(self)@.grpc_callbacks[token_id].root_context_id
                &&& d.callback == old(self)@.grpc_callbacks[token_id].callback
                &&& d.response.spec_handle_id() == token_id
                &&& d.response.spec_status_code() == GrpcCode::Success
                &&& d.response.spec_status_message() is None
                &&& d.response.spec_body_size() == response_size
            },
            r matches GrpcReceive::Stream(d) ==> {
                &&& d.root_context_id == old(self)@.grpc_streams[token_id].root_context_id
                &&& d.handle == GrpcStreamHandle(token_id)
                &&& cloned(old(self)@.grpc_streams[token_id].message->0, d.callback)
                &&& d.response.spec_status_code() == GrpcCode::Success
                &&& d.response.spec_status_message() is None
                &&& d.response.spec_body_size() == response_size
            },
    {
        proof {
            lemma_remove_insert(
                old(self)@.grpc_callbacks,
                token_id,
                old(self)@.grpc_callbacks[token_id],
            );
        }
        if let Some(callback) = self.grpc_callbacks.remove(&token_id) {
            if !self.roots.contains_key(&callback.root_context_id) {
                return GrpcReceive::Nothing;
            }
            let scope = match EffectiveContext::enter(
                self,
                callback.context_id,
                callback.root_context_id,
                "grpc callback",
                set_context,
            ) {
                Some(scope) => scope,
                None => {
                    return GrpcReceive::Nothing;
                },
            };
            GrpcReceive::Call(
                Delivery {
                    scope,
                    root_context_id: callback.root_context_id,
                    callback: callback.callback,
                    response: GrpcCallResponse::new(
                        token_id,
                        GrpcCode::Success,
                        None,
                        response_size,
                    ),
                },
            )
        } else {
            let (context_id, root_context_id, function) = match self.grpc_streams.get(&token_id) {
                Some(callback) => match &callback.message {
                    Some(function) => (
                        callback.context_id,
                        callback.root_context_id,
                        function.clone(),
                    ),
                    None => {
                        return GrpcReceive::Nothing;
                    },
                },
                None => {
                    return GrpcReceive::Nothing;
                },
            };
            if !self.roots.contains_key(&root_context_id) {
                return GrpcReceive::Nothing;
            }
            let scope = match EffectiveContext::enter(
                self,
                context_id,
                root_context_id,
                "grpc stream",
                set_context,
            ) {
                Some(scope) => scope,
                None => {
                    return GrpcReceive::Nothing;
                },
            };
            GrpcReceive::Stream(
                StreamDelivery {
                    scope,
                    root_context_id,
                    handle: GrpcStreamHandle(token_id),
                    callback: function,
                    response: GrpcStreamMessage::new(GrpcCode::Success, None, response_size),
                },
            )
        }
    }

    /// Trailing metadata of the GRPC stream `token_id` has arrived. If a
    /// callback is registered for it, the root of the context that opened
    /// the stream is alive and the host, asked through `set_context`,
    /// makes that context current, the result is what to call, with the
    /// scope of that context open; else nothing is to be called. The
    /// record of the stream stays as it is.
    pub fn on_grpc_receive_trailing_metadata<C: Fn(u32) -> Result<(), Status>>(
        &mut self,
        token_id: u32,
        num_headers: u32,
        set_context: &C,
    ) -> (r: Option<StreamDelivery<K::StreamTrailingMetadata, GrpcStreamTrailingMetadata>>)
        requires
            forall|id: u32| call_requires(*set_context, (id,)),
        ensures
            match old(self)@.trailing_metadata_target(token_id) {
                None => r is None && final(self)@ == old(self)@,
                Some(entry) => exists|answer: Result<(), Status>|
                    #[trigger] call_ensures(*set_context, (entry.context_id,), answer)
                        && EffectiveContext::opened(
                        old(self)@,
                        entry.context_id,
                        entry.root_context_id,
                        "grpc stream",
                        answer,
                        final(self)@,
                        StreamDelivery::scope_of(r),
                    ),
            },
            r matches Some(d) ==> {
                &&& d.root_context_id == old(self)@.grpc_streams[token_id].root_context_id
                &&& d.handle == GrpcStreamHandle(token_id)
                &&& cloned(old(self)@.grpc_streams[token_id].trailer_meta->0, d.callback)
                &&& d.response.spec_num_elements() == num_headers
            },
    {
        let (context_id, root_context_id, function) = match self.grpc_streams.get(&token_id) {
            Some(callback) => match &callback.trailer_meta {
                Some(function) => (
                    callback.context_id,
                    callback.root_context_id,
                    function.clone(),
                ),
                None => {
                    return None;
                },
            },
            None => {
                return None;
            },
        };
        if !self.roots.contains_key(&root_context_id) {
            return None;
        }
        let scope = match EffectiveContext::enter(
            self,
            context_id,
            root_context_id,
            "grpc stream",
            set_context,
        ) {
            Some(scope) => scope,
            None => {
                return None;
            },
        };
        Some(
            StreamDelivery {
                scope,
                root_context_id,
                handle: GrpcStreamHandle(token_id),
                callback: function,
                response: GrpcStreamTrailingMetadata::new(num_headers as usize),
            },
        )
    }

    /// The GRPC call or stream `token_id` has closed. The record of the
    /// call, or else of the stream, is consumed. Its callback (the close
    /// callback, for a stream) is delivered if the root of the context
    /// that made the call or opened the stream is alive, the host, asked
    /// through `set_context`, makes that context current, and the host,
    /// asked through `get_status`, gives the status of the close. The
    /// response carries the status that the host gave when asked, not
    /// `status_code`. With a delivery, the scope of the context is open;
    /// without one, the context that was current before still is.
    pub fn on_grpc_close<
        C: Fn(u32) -> Result<(), Status>,
        G: FnOnce() -> Result<(u32, Option<String>), Status>,
    >(&mut self, token_id: u32, status_code: u32, set_context: &C, get_status: G) -> (r:
        GrpcClose<K>)
        requires
            forall|id: u32| call_requires(*set_context, (id,)),
            call_requires(get_status, ()),
        ensures
            match old(self)@.close_target(token_id) {
                None => r is Nothing && final(self)@ == old(self)@.without_grpc_token(token_id),
                Some(origin) => r.closes(
                    old(self)@,
                    token_id,
                    status_code,
                    origin,
                    *set_context,
                    get_status,
                    final(self)@,
                ),
            },
    {
        proof {
            lemma_remove_insert(
                old(self)@.grpc_callbacks,
                token_id,
                old(self)@.grpc_callbacks[token_id],
            );
            lemma_remove_insert(
                old(self)@.grpc_streams,
                token_id,
                old(self)@.grpc_streams[token_id],
            );
        }
        let ghost pre = old(self)@;
        if let Some(callback) = self.grpc_callbacks.remove(&token_id) {
            if !self.roots.contains_key(&callback.root_context_id) {
                return GrpcClose::Nothing;
            }
            let ghost origin = (callback.context_id, callback.root_context_id);
            let ghost removed = self@;
            assert(pre.close_target(token_id) == Some(origin));
            assert(removed == pre.without_grpc_token(token_id));
            let entered_scope = EffectiveContext::enter(
                self,
                callback.context_id,
                callback.root_context_id,
                "grpc callback",
                set_context,
            );
            let ghost entered = choose|answer: Result<(), Status>|
                #[trigger] call_ensures(*set_context, (origin.0,), answer)
                    && EffectiveContext::opened(
                    removed,
                    origin.0,
                    origin.1,
                    "grpc callback",
                    answer,
                    self@,
                    entered_scope,
                );
            let scope = match entered_scope {
                Some(scope) => scope,
                None => {
                    let r = GrpcClose::Nothing;
                    assert(r.outcome(
                        pre,
                        token_id,
                        status_code,
                        origin,
                        entered,
                        Err(Status::Success),
                        self@,
                    ));
                    assert(r.closes(pre, token_id, status_code, origin, *set_context, get_status,
                        self@));
                    return r;
                },
            };
            let given = get_status();
            let ghost status = given;
            let (status_given, message) = match given {
                Ok(given) => given,
                Err(_) => {
                    scope.exit(self, set_context);
                    let r = GrpcClose::Nothing;
                    assert(restored(*set_context, pre.active_id));
                    assert(r.outcome(pre, token_id, status_code, origin, entered, status, self@));
                    assert(r.closes(pre, token_id, status_code, origin, *set_context, get_status,
                        self@));
                    return r;
                },
            };
            let r = GrpcClose::Call {
                delivery: Delivery {
                    scope,
                    root_context_id: callback.root_context_id,
                    callback: callback.callback,
                    response: GrpcCallResponse::new(
                        token_id,
                        GrpcCode::from(status_given),
                        message,
                        0,
                    ),
                },
                status_mismatch: status_given != status_code,
            };
            assert(r.outcome(pre, token_id, status_code, origin, entered, status, self@));
            assert(r.closes(pre, token_id, status_code, origin, *set_context, get_status, self@));
            r
        } else if let Some(callback) = self.grpc_streams.remove(&token_id) {
            let function = match callback.close {
                Some(function) => function,
                None => {
                    return GrpcClose::Nothing;
                },
            };
            if !self.roots.contains_key(&callback.root_context_id) {
                return GrpcClose::Nothing;
            }
            let ghost origin = (callback.context_id, callback.root_context_id);
            let ghost removed = self@;
            assert(pre.close_target(token_id) == Some(origin));
            assert(removed == pre.without_grpc_token(token_id));
            let entered_scope = EffectiveContext::enter(
                self,
                callback.context_id,
                callback.root_context_id,
                "grpc stream",
                set_context,
            );
            let ghost entered = choose|answer: Result<(), Status>|
                #[trigger] call_ensures(*set_context, (origin.0,), answer)
                    && EffectiveContext::opened(
                    removed,
                    origin.0,
                    origin.1,
                    "grpc stream",
                    answer,
                    self@,
                    entered_scope,
                );
            let scope = match entered_scope {
                Some(scope) => scope,
                None => {
                    let r = GrpcClose::Nothing;
                    assert(r.outcome(
                        pre,
                        token_id,
                        status_code,
                        origin,
                        entered,
                        Err(Status::Success),
                        self@,
                    ));
                    assert(r.closes(pre, token_id, status_code, origin, *set_context, get_status,
                        self@));
                    return r;
                },
            };
            let given = get_status();
            let ghost status = given;
            let (status_given, message) = match given {
                Ok(given) => given,
                Err(_) => {
                    scope.exit(self, set_context);
                    let r = GrpcClose::Nothing;
                    assert(restored(*set_context, pre.active_id));
                    assert(r.outcome(pre, token_id, status_code, origin, entered, status, self@));
                    assert(r.closes(pre, token_id, status_code, origin, *set_context, get_status,
                        self@));
                    return r;
                },
            };
            let r = GrpcClose::Stream(
                Delivery {
                    scope,
                    root_context_id: callback.root_context_id,
                    callback: function,
                    response: GrpcStreamClose::new(
                        token_id,
                        GrpcCode::from(status_given),
                        message,
                    ),
                },
            );
            assert(r.outcome(pre, token_id, status_code, origin, entered, status, self@));
            assert(r.closes(pre, token_id, status_code, origin, *set_context, get_status, self@));
            r
        } else {
            GrpcClose::Nothing
        }
    }
}

/// A registered HTTP call is delivered once: after the current context has
/// registered `callback` for `token`, a response for the token is
/// delivered to that callback, under the context that registered it,
/// provided the root of that context is alive; and once the record is
/// consumed, whichever context is current by then, a further response for
/// the token is delivered to nothing.
pub proof fn law_http_call_delivered_once<T: RootContext + ?Sized, K: Callbacks>(
    pre: DispatcherView<T, K>,
    token: u32,
    callback: K::Http,
)
    ensures
        ({
            let registered = pre.with_http_callback(token, callback);
            let consumed = registered.without_http_callback(token);
            &&& pre.roots.contains_key(pre.active_root_id) ==> registered.http_call_target(token)
                == Some(
                HttpCallback {
                    context_id: pre.active_id,
                    root_context_id: pre.active_root_id,
                    callback,
                },
            )
            &&& consumed.http_call_target(token) is None
            &&& forall|id: u32, root_id: u32|
                (#[trigger] consumed.with_active(id, root_id)).http_call_target(token) is None
            &&& consumed.without_http_callback(token) == consumed
        }),
{
    let registered = pre.with_http_callback(token, callback);
    let consumed = registered.without_http_callback(token);
    assert(consumed.http_callbacks.remove(token) =~= consumed.http_callbacks);
}

/// A registered GRPC call is delivered once: after the current context has
/// registered `callback` for `token`, a message or a close for the token
/// is delivered to that callback, under the context that registered it,
/// provided the root of that context is alive; and once the record is
/// consumed, whichever context is current by then, the token stands for no
/// pending call any more.
pub proof fn law_grpc_call_delivered_once<T: RootContext + ?Sized, K: Callbacks>(
    pre: DispatcherView<T, K>,
    token: u32,
    callback: K::Grpc,
)
    ensures
        ({
            let registered = pre.with_grpc_callback(token, callback);
            let consumed = registered.without_grpc_callback(token);
            &&& registered.grpc_callbacks.contains_key(token)
            &&& registered.without_grpc_token(token) == consumed
            &&& pre.roots.contains_key(pre.active_root_id) ==> registered.grpc_call_target(token)
                == Some(
                GrpcCallback {
                    context_id: pre.active_id,
                    root_context_id: pre.active_root_id,
                    callback,
                },
            )
            &&& pre.roots.contains_key(pre.active_root_id) ==> registered.close_target(token)
                == Some((pre.active_id, pre.active_root_id))
            &&& !consumed.grpc_callbacks.contains_key(token)
            &&& forall|id: u32, root_id: u32|
                (#[trigger] consumed.with_active(id, root_id)).grpc_call_target(token) is None
        }),
{
}

/// A stream with only a message callback: after the current context has
/// registered `callback` as the message callback of the new stream
/// `token`, metadata for the token is delivered to nothing; a message is
/// delivered to the stream, provided the token stands for no pending call
/// and the root of the context is alive; the record is still there after
/// a message, whichever context is current by then; and it is gone after
/// a close.
pub proof fn law_stream_with_message_callback<T: RootContext + ?Sized, K: Callbacks>(
    pre: DispatcherView<T, K>,
    token: u32,
    callback: K::StreamMessage,
)
    requires
        !pre.grpc_streams.contains_key(token),
    ensures
        ({
            let entry = GrpcStreamCallback::<K> {
                message: Some(callback),
                ..pre.stream_entry(token)
            };
            let registered = pre.with_stream_entry(token, entry);
            &&& registered.grpc_streams.contains_key(token)
            &&& registered.grpc_streams[token] == entry
            &&& entry.context_id == pre.active_id
            &&& entry.root_context_id == pre.active_root_id
            &&& entry.close is None
            &&& registered.initial_metadata_target(token) is None
            &&& registered.trailing_metadata_target(token) is None
            &&& !pre.grpc_callbacks.contains_key(token) && pre.roots.contains_key(
                pre.active_root_id,
            ) ==> registered.message_target(token) == Some(entry)
            &&& forall|id: u32, root_id: u32|
                (#[trigger] registered.with_active(id, root_id)).grpc_streams.contains_key(token)
                    && registered.with_active(id, root_id).grpc_streams[token] == entry
            &&& !pre.grpc_callbacks.contains_key(token) ==> !registered.without_grpc_token(
                token,
            ).grpc_streams.contains_key(token)
        }),
{
}

/// A stream belongs to the context that opened it: where the stream
/// `token` was opened by another context than the current one, registering
/// any callback for it changes nothing, so what is delivered for the token
/// is what was before.
pub proof fn law_foreign_stream_registration_ignored<T: RootContext + ?Sized, K: Callbacks>(
    pre: DispatcherView<T, K>,
    token: u32,
    entry: GrpcStreamCallback<K>,
)
    requires
        pre.grpc_streams.contains_key(token),
        pre.grpc_streams[token].context_id != pre.active_id,
    ensures
        pre.with_stream_entry(token, entry) == pre,
        pre.with_stream_entry(token, entry).grpc_streams[token] == pre.grpc_streams[token],
{
}

/// A new generation wipes the dispatcher: made ready under another
/// generation than the one it was last used under, the dispatcher knows no
/// context and no pending call, nothing is current, and each root is to be
/// made anew by the factory when it is next referred to.
pub proof fn law_new_generation_wipes<T: RootContext + ?Sized, K: Callbacks>(
    pre: DispatcherView<T, K>,
    current: usize,
)
    requires
        pre.generation != current,
    ensures
        pre.synced(current) == DispatcherView::<T, K>::empty(current),
        pre.synced(current).synced(current) == pre.synced(current),
        pre.synced(current).active_id == 0 && pre.synced(current).active_root_id == 0,
        forall|id: u32|
            !(#[trigger] pre.synced(current).knows(id)) && !pre.synced(current).roots.contains_key(
                id,
            ),
        forall|token: u32|
            {
                &&& (#[trigger] pre.synced(current).http_call_target(token)) is None
                &&& !pre.synced(current).http_callbacks.contains_key(token)
                &&& !pre.synced(current).grpc_callbacks.contains_key(token)
                &&& !pre.synced(current).grpc_streams.contains_key(token)
                &&& !pre.synced(current).queue_callbacks.contains_key(token)
            },
{
}

/// A scope restores what was current: whatever became of the dispatcher
/// between the opening of a scope and its closing, after the closing the
/// context and the root are current that were so before the opening.
pub proof fn law_scope_restores_active<T: RootContext + ?Sized, K: Callbacks>(
    pre: DispatcherView<T, K>,
    id: u32,
    root_id: u32,
    name: &'static str,
    opened: DispatcherView<T, K>,
    scope: EffectiveContext,
    during: DispatcherView<T, K>,
)
    requires
        EffectiveContext::opened(pre, id, root_id, name, Ok(()), opened, Some(scope)),
    ensures
        opened.active_id == id && opened.active_root_id == root_id,
        during.with_active(scope.prior(), scope.prior_root()).active_id == pre.active_id,
        during.with_active(scope.prior(), scope.prior_root()).active_root_id
            == pre.active_root_id,
        opened.with_active(scope.prior(), scope.prior_root()) == pre,
{
}

} // verus!
