//! The layer: the factory that owns one rate gate and wraps handlers behind it.

use crate::call::{wait_on, Wait};
use crate::error::ThrottleError;
use crate::gate::{direct, lemma_per_second_fits, per_second, share, RateGate};
use crate::service::ThrottleService;
use governor::Jitter;
use std::sync::Arc;
use vstd::prelude::*;

verus! {

/// One rate gate and a jitter policy, for any number of services to share.
#[derive(Debug)]
pub struct ThrottleLayer {
    throttle: Arc<RateGate>,
    jitter: Option<Jitter>,
}

impl ThrottleLayer {
    /// Every layer has a rate gate with a quota of requests per second.
    #[verifier::type_invariant]
    spec fn inv(self) -> bool {
        self.throttle.is_per_second()
    }

    /// The rate gate of the layer.
    pub closed spec fn gate(self) -> Arc<RateGate> {
        self.throttle
    }

    /// The jitter policy, if the layer has one.
    pub closed spec fn jitter(self) -> Option<Jitter> {
        self.jitter
    }

    /// A layer with a new rate gate for `requests_per_second`, which must not
    /// be zero.
    pub fn new(requests_per_second: u32, jitter: Option<Jitter>) -> (made: Result<Self, ThrottleError>)
        ensures
            requests_per_second == 0 ==> made == Err::<Self, ThrottleError>(
                ThrottleError::InvalidRequestsPerSecond,
            ),
            requests_per_second != 0 ==> made is Ok,
            made matches Ok(layer) ==> {
                &&& layer.gate().requests_per_second() == requests_per_second
                &&& layer.gate().is_per_second()
                &&& layer.jitter() == jitter
            },
    {
        if requests_per_second == 0 {
            return Err(ThrottleError::InvalidRequestsPerSecond);
        }
        let quota = per_second(requests_per_second);
        proof {
            lemma_per_second_fits(quota, requests_per_second);
        }
        let throttle = Arc::new(direct(quota));
        Ok(ThrottleLayer { throttle, jitter })
    }

    /// Wraps `inner` behind the layer's rate gate.
    pub fn layer<S>(&self, inner: S) -> (service: ThrottleService<S>)
        ensures
            service.inner() == inner,
            service.gate() == self.gate(),
            service.jitter() == self.jitter(),
    {
        ThrottleService::new(inner, self.handle())
    }

    /// A second handle to the layer's rate gate, with the layer's jitter
    /// policy.
    pub(crate) fn handle(&self) -> (twin: Self)
        ensures
            twin.gate() == self.gate(),
            twin.jitter() == self.jitter(),
    {
        proof {
            use_type_invariant(self);
        }
        ThrottleLayer { throttle: share(&self.throttle), jitter: self.jitter }
    }

    /// How a call through the layer's rate gate waits for admission.
    pub(crate) fn admission(&self) -> (wait: Wait)
        ensures
            wait == wait_on(self.gate(), self.jitter()),
            wait.gate().is_per_second(),
    {
        proof {
            use_type_invariant(self);
        }
        let gate = share(&self.throttle);
        match self.jitter {
            Some(jitter) => Wait::UntilReadyWithJitter { gate, jitter },
            None => Wait::UntilReady { gate },
        }
    }
}

impl ThrottleLayer {
    /// Whatever a layer wraps, and however often, the services that it makes
    /// wait on its one rate gate: they draw on one quota together.
    pub proof fn law_services_share_quota<S, T>(
        self,
        first_inner: S,
        first: ThrottleService<S>,
        second_inner: T,
        second: ThrottleService<T>,
    )
        requires
            call_ensures(ThrottleLayer::layer::<S>, (&self, first_inner), first),
            call_ensures(ThrottleLayer::layer::<T>, (&self, second_inner), second),
        ensures
            first.gate() == self.gate(),
            second.gate() == self.gate(),
            first.gate() == second.gate(),
    {
    }
}

} // verus!
