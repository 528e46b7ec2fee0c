use crate::context::RootContext;
use crate::dispatcher::{Callbacks, Dispatcher, QueueCallback};
use crate::status::Status;
use vstd::prelude::*;

verus! {

/// A shared queue of the host: first in, first out, with many producers
/// and many consumers, and no message handed out twice.
#[derive(Clone, Copy, PartialEq, Eq, Structural)]
pub struct Queue(pub u32);

impl Queue {
    /// What a registration or a lookup that gave `answer` stands for.
    pub open spec fn registered(answer: Result<u32, Status>) -> Result<Queue, Status> {
        match answer {
            Ok(id) => Ok(Queue(id)),
            Err(e) => Err(e),
        }
    }

    /// What a lookup that gave `answer` stands for.
    pub open spec fn resolved(answer: Result<Option<u32>, Status>) -> Result<
        Option<Queue>,
        Status,
    > {
        match answer {
            Ok(Some(id)) => Ok(Some(Queue(id))),
            Ok(None) => Ok(None),
            Err(e) => Err(e),
        }
    }

    /// The item that a dequeue with the answer `answer` hands out: none
    /// where the queue is empty or the host refused.
    pub open spec fn received(answer: Result<Option<Vec<u8>>, Status>) -> Option<Vec<u8>> {
        match answer {
            Ok(Some(item)) => Some(item),
            _ => None,
        }
    }

    /// Registers a new queue under a given name, through
    /// `register_queue`. Names are unique within one VM ID.
    pub fn register<F: FnOnce(&str) -> Result<u32, Status>>(name: &str, register_queue: F) -> (r:
        Result<Self, Status>)
        requires
            call_requires(register_queue, (name,)),
        ensures
            exists|answer: Result<u32, Status>|
                #[trigger] call_ensures(register_queue, (name,), answer) && r == Self::registered(
                    answer,
                ),
    {
        match register_queue(name) {
            Ok(id) => Ok(Queue(id)),
            Err(e) => Err(e),
        }
    }

    /// Resolves an existing queue for a given name in the given VM ID,
    /// through `resolve_queue`.
    pub fn resolve<F: FnOnce(&str, &str) -> Result<Option<u32>, Status>>(
        vm_id: &str,
        name: &str,
        resolve_queue: F,
    ) -> (r: Result<Option<Self>, Status>)
        requires
            call_requires(resolve_queue, (vm_id, name)),
        ensures
            exists|answer: Result<Option<u32>, Status>|
                #[trigger] call_ensures(resolve_queue, (vm_id, name), answer) && r
                    == Self::resolved(answer),
    {
        match resolve_queue(vm_id, name) {
            Ok(Some(id)) => Ok(Some(Queue(id))),
            Ok(None) => Ok(None),
            Err(e) => Err(e),
        }
    }

    /// Remove an item from this queue, if any is present, through
    /// `dequeue_queue`. `Ok(None)` says that no data is enqueued.
    pub fn dequeue<F: FnOnce(u32) -> Result<Option<Vec<u8>>, Status>>(
        &self,
        dequeue_queue: F,
    ) -> (r: Result<Option<Vec<u8>>, Status>)
        requires
            call_requires(dequeue_queue, (self.0,)),
        ensures
            call_ensures(dequeue_queue, (self.0,), r),
    {
        dequeue_queue(self.0)
    }

    /// Enqueues a new item into this queue, through `enqueue_queue`.
    pub fn enqueue<F: FnOnce(u32, &[u8]) -> Result<(), Status>>(
        &self,
        value: &[u8],
        enqueue_queue: F,
    ) -> (r: Result<(), Status>)
        requires
            call_requires(enqueue_queue, (self.0, value)),
        ensures
            call_ensures(enqueue_queue, (self.0, value), r),
    {
        enqueue_queue(self.0, value)
    }

    /// Registers a callback that is called whenever data is available in
    /// the queue to be dequeued. It takes the place of what was registered
    /// for the queue before.
    pub fn on_enqueue<T: RootContext + ?Sized, K: Callbacks>(
        self,
        dispatcher: &mut Dispatcher<T, K>,
        callback: K::Queue,
    ) -> (r: Self)
        ensures
            r == self,
            final(dispatcher)@ == old(dispatcher)@.with_queue_callback(
                self.0,
                QueueCallback::Enqueue(callback),
            ),
    {
        dispatcher.register_queue_callback(self.0, QueueCallback::Enqueue(callback));
        self
    }

    /// Registers a callback that is called with each item of the queue
    /// whenever data is available: the queue is emptied with `receive`,
    /// and the callback gets each item. It takes the place of what was
    /// registered for the queue before.
    pub fn on_receive<T: RootContext + ?Sized, K: Callbacks>(
        self,
        dispatcher: &mut Dispatcher<T, K>,
        callback: K::QueueReceive,
    ) -> (r: Self)
        ensures
            r == self,
            final(dispatcher)@ == old(dispatcher)@.with_queue_callback(
                self.0,
                QueueCallback::Receive(callback),
            ),
    {
        dispatcher.register_queue_callback(self.0, QueueCallback::Receive(callback));
        self
    }

    /// The next item for a callback registered with `on_receive`: what the
    /// host, asked through `dequeue_queue`, hands out. With no item, the
    /// queue is empty or the host refused, and the callback is not to be
    /// called again for this notice.
    pub fn receive<F: FnOnce(u32) -> Result<Option<Vec<u8>>, Status>>(&self,
        dequeue_queue: F) -> (r:
        Option<Vec<u8>>)
        requires
            call_requires(dequeue_queue, (self.0,)),
        ensures
            exists|answer: Result<Option<Vec<u8>>, Status>|
                #[trigger] call_ensures(dequeue_queue, (self.0,), answer) && r == Self::received(
                    answer,
                ),
    {
        match self.dequeue(dequeue_queue) {
            Ok(Some(item)) => Some(item),
            _ => None,
        }
    }

    /// Whether this queue is the one with the id `other`.
    pub fn eq_id(&self, other: u32) -> (r: bool)
        ensures
            r == (self.0 == other),
    {
        self.0 == other
    }
}

} // verus!
