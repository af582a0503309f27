//! The throttling decorator: a handler wrapped so that every call through it
//! first waits on the shared rate gate.

use crate::call::{wait_on, Call, Wait};
use crate::gate::RateGate;
use crate::layer::ThrottleLayer;
use governor::Jitter;
use std::sync::Arc;
use vstd::prelude::*;

verus! {

/// A handler together with the rate gate that paces the calls through it.
#[derive(Debug)]
pub struct ThrottleService<S> {
    /// The inner handler.
    inner: S,
    /// The service's own handle to the rate gate and the jitter policy of the
    /// layer that made it.
    pace: ThrottleLayer,
}

impl<S> ThrottleService<S> {
    /// The inner handler.
    pub closed spec fn inner(self) -> S {
        self.inner
    }

    /// The rate gate that the service shares with its layer.
    pub closed spec fn gate(self) -> Arc<RateGate> {
        self.pace.gate()
    }

    /// The jitter policy, if the service has one.
    pub closed spec fn jitter(self) -> Option<Jitter> {
        self.pace.jitter()
    }

    /// Wraps `inner` behind the rate gate of `pace`.
    pub(crate) fn new(inner: S, pace: ThrottleLayer) -> (service: Self)
        ensures
            service.inner() == inner,
            service.gate() == pace.gate(),
            service.jitter() == pace.jitter(),
    {
        ThrottleService { inner, pace }
    }

    /// Whether the service is ready: `poll` asks the inner handler, and what it
    /// answers is reported as it is. The rate gate is not consulted, and
    /// nothing of the service but the inner handler can change.
    pub fn poll_ready<R, F: FnOnce(&mut S) -> R>(&mut self, poll: F) -> (ready: R)
        requires
            forall|inner: &mut S| *inner == old(self).inner() ==> call_requires(poll, (inner,)),
        ensures
            exists|inner: &mut S|
                {
                    &&& *inner == old(self).inner()
                    &&& *final(inner) == final(self).inner()
                    &&& call_ensures(poll, (inner,), ready)
                },
            final(self).gate() == old(self).gate(),
            final(self).jitter() == old(self).jitter(),
    {
        poll(&mut self.inner)
    }
}

impl<S: Clone> ThrottleService<S> {
    /// Begins a call with `request`. The call starts in its admission phase,
    /// with a handle of its own to the inner handler, and the driver is to
    /// make the wait on the service's rate gate before it reports admission.
    pub fn call<Req>(&self, request: Req) -> (begun: (Call<S, Req>, Wait))
        ensures
            begun.0 matches Call::Admission { inner, request: held } && held == request && cloned(
                self.inner(),
                inner,
            ),
            begun.1 == wait_on(self.gate(), self.jitter()),
            begun.1.gate().is_per_second(),
    {
        let wait = self.pace.admission();
        let inner = self.inner.clone();
        (Call::Admission { inner, request }, wait)
    }

    /// A clone of a service waits as the service does, on the same rate gate:
    /// the calls through the two draw on one quota, not on one each.
    pub proof fn law_clone_shares_quota(self, twin: Self)
        requires
            cloned(self, twin),
        ensures
            twin.gate() == self.gate(),
            twin.jitter() == self.jitter(),
            wait_on(twin.gate(), twin.jitter()) == wait_on(self.gate(), self.jitter()),
    {
    }
}

impl<S: Clone> Clone for ThrottleService<S> {
    /// A second service on the same rate gate, with a clone of the inner
    /// handler.
    fn clone(&self) -> (twin: Self)
        ensures
            cloned(self.inner(), twin.inner()),
            twin.gate() == self.gate(),
            twin.jitter() == self.jitter(),
    {
        ThrottleService { inner: self.inner.clone(), pace: self.pace.handle() }
    }
}

} // verus!
