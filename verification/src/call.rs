//! One call through the decorator, as a machine of three phases.
//!
//! The machine decides; it neither waits nor calls. Whoever drives it performs
//! what it asks for and reports what came of it: first the [`Wait`] that
//! [`ThrottleService::call`](crate::ThrottleService::call) hands out with the
//! new call, then each [`Action`] that [`Call::step`] gives in answer to an
//! [`Event`].

use crate::gate::RateGate;
use governor::Jitter;
use std::sync::Arc;
use vstd::prelude::*;

verus! {

/// How a call waits for admission.
#[derive(Debug)]
pub enum Wait {
    /// Wait until the rate gate has a token, and take it.
    UntilReady { gate: Arc<RateGate> },
    /// The same, with a random extra delay drawn from `jitter`.
    UntilReadyWithJitter { gate: Arc<RateGate>, jitter: Jitter },
}

/// The wait that a call makes on `gate` under the jitter policy `jitter`.
pub open spec fn wait_on(gate: Arc<RateGate>, jitter: Option<Jitter>) -> Wait {
    match jitter {
        Some(jitter) => Wait::UntilReadyWithJitter { gate, jitter },
        None => Wait::UntilReady { gate },
    }
}

impl Wait {
    /// The rate gate that is waited on.
    pub open spec fn gate(self) -> Arc<RateGate> {
        match self {
            Wait::UntilReady { gate } => gate,
            Wait::UntilReadyWithJitter { gate, .. } => gate,
        }
    }
}

/// How far a call has come.
#[derive(Debug)]
pub enum Call<S, Req> {
    /// The call waits on the rate gate. It keeps the handler and the request for
    /// the moment of admission.
    Admission { inner: S, request: Req },
    /// The request is with the inner handler.
    Delegation,
    /// The call is over.
    Completion,
}

/// What the driver reports to the machine.
#[derive(Debug)]
pub enum Event<Res> {
    /// The wait on the rate gate has ended: the call holds a token.
    Admitted,
    /// The inner handler has answered the request with this result.
    Returned(Res),
    /// The caller has given the call up.
    Cancelled,
}

/// What the machine asks of the driver.
#[derive(Debug)]
pub enum Action<S, Req, Res> {
    /// Call `inner` with `request`, and report its result.
    Forward { inner: S, request: Req },
    /// Give this result to the caller: the call is over.
    Return(Res),
    /// The call is over without a result.
    Cancel,
}

impl<S, Req> Call<S, Req> {
    /// The phase that follows `self` on `event`, and the action to take.
    ///
    /// Admission leads to delegation, and delegation to completion with the
    /// handler's result. A cancelled call is over at once. So is a call
    /// that is told of something its phase does not wait for: it ends without a
    /// result and asks for nothing more.
    pub open spec fn next<Res>(self, event: Event<Res>) -> (Call<S, Req>, Action<S, Req, Res>) {
        match (self, event) {
            (Call::Admission { inner, request }, Event::Admitted) => (
                Call::Delegation,
                Action::Forward { inner, request },
            ),
            (Call::Delegation, Event::Returned(result)) => (Call::Completion, Action::Return(result)),
            _ => (Call::Completion, Action::Cancel),
        }
    }

    /// Takes the call one step further: see [`Call::next`].
    pub fn step<Res>(self, event: Event<Res>) -> (out: (Call<S, Req>, Action<S, Req, Res>))
        ensures
            out == self.next(event),
    {
        match self {
            Call::Admission { inner, request } => match event {
                Event::Admitted => (Call::Delegation, Action::Forward { inner, request }),
                _ => (Call::Completion, Action::Cancel),
            },
            Call::Delegation => match event {
                Event::Returned(result) => (Call::Completion, Action::Return(result)),
                _ => (Call::Completion, Action::Cancel),
            },
            Call::Completion => (Call::Completion, Action::Cancel),
        }
    }
}

impl<S, Req> Call<S, Req> {
    /// The actions that the machine asks for, one for each of `events` in
    /// turn, when it starts from `self`.
    pub open spec fn run<Res>(self, events: Seq<Event<Res>>) -> Seq<Action<S, Req, Res>>
        decreases events.len(),
    {
        if events.len() == 0 {
            Seq::empty()
        } else {
            let (after, action) = self.next(events[0]);
            seq![action] + after.run(events.skip(1))
        }
    }

    /// A run asks for one action per event.
    pub proof fn lemma_run_len<Res>(self, events: Seq<Event<Res>>)
        ensures
            self.run(events).len() == events.len(),
        decreases events.len(),
    {
        if events.len() != 0 {
            self.next(events[0]).0.lemma_run_len(events.skip(1));
        }
    }
}

impl<S, Req> Call<S, Req> {
    /// A request reaches the inner handler on admission and at no other time,
    /// and it is the request that the call was made with, for the handler that
    /// the call held.
    pub proof fn law_forward_on_admission_only<Res>(self, event: Event<Res>)
        ensures
            self.next(event).1 is Forward <==> self is Admission && event is Admitted,
            self.next(event).1 matches Action::Forward { inner, request } ==> self
                == (Call::Admission { inner, request }),
    {
    }

    /// The caller gets a result when the inner handler has returned one and at
    /// no other time, and it is the handler's result, error or not, as it was
    /// reported.
    pub proof fn law_result_unchanged<Res>(self, event: Event<Res>)
        ensures
            self.next(event).1 is Return <==> self is Delegation && event is Returned,
            self.next(event).1 matches Action::Return(result) ==> event == Event::Returned::<Res>(
                result,
            ),
    {
    }

    /// A finished call stays finished: whatever is reported to it, it asks for
    /// nothing but to stop.
    pub proof fn law_completion_is_final<Res>(events: Seq<Event<Res>>, i: int)
        requires
            0 <= i < events.len(),
        ensures
            Call::<S, Req>::Completion.run(events)[i] == Action::<S, Req, Res>::Cancel,
        decreases events.len(),
    {
        let done = Call::<S, Req>::Completion;
        done.lemma_run_len(events);
        done.lemma_run_len(events.skip(1));
        if i > 0 {
            Self::law_completion_is_final(events.skip(1), i - 1);
        }
    }

    /// Once a call is cancelled, in whatever phase, nothing is forwarded and
    /// nothing is returned: a call that is cancelled while it waits for
    /// admission never reaches the inner handler.
    pub proof fn law_cancelled_call_is_over<Res>(self, events: Seq<Event<Res>>, i: int, j: int)
        requires
            0 <= i <= j < events.len(),
            events[i] is Cancelled,
        ensures
            self.run(events)[j] == Action::<S, Req, Res>::Cancel,
        decreases events.len(),
    {
        let after = self.next(events[0]).0;
        self.lemma_run_len(events);
        after.lemma_run_len(events.skip(1));
        if i > 0 {
            after.law_cancelled_call_is_over(events.skip(1), i - 1, j - 1);
        } else if j > 0 {
            Self::law_completion_is_final(events.skip(1), j - 1);
        }
    }

    /// A call forwards at most once, and only as the answer to the admission
    /// that it began with: one delegation costs one token of the rate gate.
    pub proof fn law_one_delegation_per_admission<Res>(self, events: Seq<Event<Res>>, i: int)
        requires
            0 <= i < events.len(),
            self.run(events)[i] is Forward,
        ensures
            i == 0,
            events[0] is Admitted,
            self.run(events)[0] == self.next(events[0]).1,
            self.next(events[0]).1 matches Action::Forward { inner, request } && self
                == (Call::Admission { inner, request }),
        decreases events.len(),
    {
        let after = self.next(events[0]).0;
        self.lemma_run_len(events);
        after.lemma_run_len(events.skip(1));
        if i > 0 {
            // The first step takes the call past admission for good, so the
            // rest of the run cannot forward: there is no such `i`.
            assert(after.run(events.skip(1))[i - 1] is Forward);
            after.law_one_delegation_per_admission(events.skip(1), i - 1);
        }
    }

    /// The course of a call that nobody cancels: on admission the request goes
    /// to the inner handler unchanged, and the handler's result goes to the
    /// caller unchanged.
    pub proof fn law_call_passes_through<Res>(inner: S, request: Req, result: Res)
        ensures
            (Call::Admission { inner, request }).run(
                seq![Event::<Res>::Admitted, Event::Returned(result)],
            ) == seq![Action::Forward { inner, request }, Action::Return(result)],
    {
        let events = seq![Event::<Res>::Admitted, Event::Returned(result)];
        let rest = events.skip(1);
        assert(Call::<S, Req>::Completion.run(rest.skip(1)).len() == 0);
        assert(Call::<S, Req>::Delegation.run(rest) == seq![Action::<S, Req, Res>::Return(result)]);
    }
}

} // verus!
