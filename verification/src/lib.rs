//! Request throttling for an RPC pipeline.
//!
//! A [`ThrottleLayer`] owns one rate gate, a token bucket with a quota of
//! requests per second. Every [`ThrottleService`] that the layer builds shares
//! that gate, so the quota bounds the calls of all of them together. A call
//! through a service first waits on the rate gate, then hands the unchanged
//! request to the inner handler and gives the handler's result back unchanged.
//!
//! The library decides and does not wait: a [`Call`] is a small machine that
//! an async pipeline drives, and the laws of that machine are proved here.

pub mod call;
pub mod error;
pub mod gate;
pub mod layer;
pub mod service;

pub use call::{Action, Call, Event, Wait};
pub use error::ThrottleError;
pub use gate::{RateGate, Throttle};
pub use layer::ThrottleLayer;
pub use service::ThrottleService;
