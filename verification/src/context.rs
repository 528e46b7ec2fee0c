use crate::downcast_box::Reflect;
use crate::http::HttpContext;
use crate::stream::StreamContext;
use vstd::prelude::*;

verus! {

/// A context that a root made for one request or one connection. The kind
/// is the root's choice.
pub enum Context<H, S> {
    /// A context for one HTTP request.
    Http(H),
    /// A context for one connection.
    Stream(S),
}

/// What every context answers, whatever its kind.
pub trait BaseContext {
    /// Called for access log plugins.
    fn on_log(&mut self) {
    }

    /// Called when all processing is complete in the proxy for this context.
    /// If returns true, the context is deleted immediately (i.e. dropped).
    /// If returns false, then the drop is deferred.
    fn on_done(&mut self) -> bool {
        true
    }
}

/// The plugin instance of one configuration: it lives as long as the
/// configuration and makes the contexts of its requests and connections.
pub trait RootContext: BaseContext + Reflect {
    /// The contexts that this root makes for HTTP requests.
    type Http: HttpContext;

    /// The contexts that this root makes for connections.
    type Stream: StreamContext;

    /// If returns true, VM startup is successful (and shall continue).
    /// If returns false, VM startup is a failure and will be aborted.
    fn on_vm_start(&mut self, configuration: Option<Vec<u8>>) -> bool {
        true
    }

    /// If returns true, VM startup is successful (and shall continue).
    /// If returns false, VM startup is a failure and will be aborted.
    fn on_configure(&mut self, configuration: Option<Vec<u8>>) -> bool {
        true
    }

    /// Called every tick period.
    fn on_tick(&mut self) {
    }

    /// Called to initiate a new HTTP or Stream context.
    fn create_context(&mut self) -> Context<Self::Http, Self::Stream>;
}

} // verus!
