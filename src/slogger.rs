//! The server's logging state: its logger and the callbacks registered for
//! the request and the response phases, in registration order.
use crate::chain::CallbackChain;
use vstd::prelude::*;

verus! {

/// A server's logger `L` with its request-phase callbacks `Q` and its
/// response-phase callbacks `S`.
#[derive(Clone)]
pub struct Slogger<L, Q, S> {
    logger: L,
    request_handlers: Vec<Q>,
    response_handlers: Vec<S>,
}

impl<L, Q, S> Slogger<L, Q, S> {
    pub closed spec fn logger(&self) -> L {
        self.logger
    }

    pub closed spec fn request_handlers(&self) -> Seq<Q> {
        self.request_handlers@
    }

    pub closed spec fn response_handlers(&self) -> Seq<S> {
        self.response_handlers@
    }

    /// State around `logger`, with no callbacks.
    pub fn from_logger(logger: L) -> (r: Slogger<L, Q, S>)
        ensures
            r.logger() == logger,
            r.request_handlers() == Seq::<Q>::empty(),
            r.response_handlers() == Seq::<S>::empty(),
    {
        Slogger { logger, request_handlers: Vec::new(), response_handlers: Vec::new() }
    }

    /// The server's logger.
    pub fn get(&self) -> (r: &L)
        ensures
            *r == self.logger(),
    {
        &self.logger
    }

    /// Registers a request-phase callback after those already registered.
    pub fn on_request(self, handler: Q) -> (r: Slogger<L, Q, S>)
        ensures
            r.logger() == self.logger(),
            r.request_handlers() == self.request_handlers().push(handler),
            r.response_handlers() == self.response_handlers(),
    {
        let mut state = self;
        state.request_handlers.push(handler);
        state
    }

    /// Registers a response-phase callback after those already registered.
    pub fn on_response(self, handler: S) -> (r: Slogger<L, Q, S>)
        ensures
            r.logger() == self.logger(),
            r.request_handlers() == self.request_handlers(),
            r.response_handlers() == self.response_handlers().push(handler),
    {
        let mut state = self;
        state.response_handlers.push(handler);
        state
    }

    /// The `i`-th request-phase callback, in registration order.
    pub fn request_handler(&self, i: usize) -> (r: &Q)
        requires
            i < self.request_handlers().len(),
        ensures
            *r == self.request_handlers()[i as int],
    {
        &self.request_handlers[i]
    }

    /// The `i`-th response-phase callback, in registration order.
    pub fn response_handler(&self, i: usize) -> (r: &S)
        requires
            i < self.response_handlers().len(),
        ensures
            *r == self.response_handlers()[i as int],
    {
        &self.response_handlers[i]
    }

    /// A run of the request-phase callbacks, starting from `logger`.
    pub fn request_chain(&self, logger: L) -> (r: CallbackChain<L>)
        ensures
            r.wf(),
            r.initial() == logger,
            r.outcomes() == Seq::<Option<L>>::empty(),
            r.count() == self.request_handlers().len(),
    {
        CallbackChain::start(logger, self.request_handlers.len())
    }

    /// A run of the response-phase callbacks, starting from `logger`.
    pub fn response_chain(&self, logger: L) -> (r: CallbackChain<L>)
        ensures
            r.wf(),
            r.initial() == logger,
            r.outcomes() == Seq::<Option<L>>::empty(),
            r.count() == self.response_handlers().len(),
    {
        CallbackChain::start(logger, self.response_handlers.len())
    }
}

} // verus!
