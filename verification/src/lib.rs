//! Call metrics for gRPC servers and clients.
//!
//! Every call that passes through the layer is tracked once: a "started"
//! observation when the call is first driven, and a "handled" observation,
//! labelled with the gRPC status code and the latency, when it resolves.
//! Which observations a call gives, with which labels and in which order, is
//! decided here and proved; driving the wrapped call, reading the clock and
//! keeping the instruments for the whole process are left to the program
//! that embeds the layer.

use vstd::prelude::*;

pub mod client;
pub mod code;
pub mod identity;
pub mod laws;
pub mod metrics;
pub mod observation;
pub mod tracker;

pub use client::{MetricsChannel, MetricsChannelFuture};

use code::CallOutcome;
use identity::{identity_of, position, service_method_separator, split_identity};
use observation::Observation;
use tracker::{Phase, SideModel, Tracker, TrackerModel};

verus! {

/// Wraps services in [`MetricsService`].
#[derive(Clone)]
pub struct MetricsLayer {}

impl MetricsLayer {
    /// The layer. It holds nothing: all layers are alike.
    pub fn new() -> (layer: MetricsLayer)
        ensures
            layer == (MetricsLayer {  }),
    {
        MetricsLayer {  }
    }

    /// Wraps `inner`.
    pub fn layer<S>(&self, inner: S) -> (service: MetricsService<S>)
        ensures
            service.inner() == inner,
    {
        MetricsService { service: inner }
    }
}

impl Default for MetricsLayer {
    fn default() -> (layer: MetricsLayer)
        ensures
            layer == (MetricsLayer {  }),
    {
        MetricsLayer {  }
    }
}

/// A service whose calls are tracked.
#[derive(Clone)]
pub struct MetricsService<S> {
    service: S,
}

impl<S> MetricsService<S> {
    /// The service that is wrapped.
    pub closed spec fn inner(self) -> S {
        self.service
    }

    /// The service that is wrapped.
    pub fn get_ref(&self) -> (service: &S)
        ensures
            *service == self.inner(),
    {
        &self.service
    }

    /// The service that is wrapped, to call it.
    pub fn get_mut(&mut self) -> (service: &mut S)
        ensures
            *service == old(self).inner(),
            final(self).inner() == *final(service),
    {
        &mut self.service
    }

    /// Gives the wrapped service back.
    pub fn into_inner(self) -> (service: S)
        ensures
            service == self.inner(),
    {
        self.service
    }

    /// Takes up a call: `method` and `path` are those of the request, and
    /// `response` is what the wrapped service gave for it. The call is
    /// tracked under the service and the method that `path` names.
    pub fn call<F>(&self, method: String, path: String, response: F) -> (future: MetricsFuture<F>)
        ensures
            future@ == (TrackerModel {
                side: SideModel::Server { method: method@, path: path@ },
                identity: identity_of(path@),
                phase: Phase::NotStarted,
            }),
            future.inner() == response,
    {
        let separator = service_method_separator(path.as_str());
        MetricsFuture::new(method, path, separator, response)
    }
}

/// A call that a server is answering, together with its tracker.
pub struct MetricsFuture<F> {
    tracker: Tracker,
    inner: F,
}

impl<F> View for MetricsFuture<F> {
    type V = TrackerModel;

    closed spec fn view(&self) -> TrackerModel {
        self.tracker@
    }
}

impl<F> MetricsFuture<F> {
    /// The call that is wrapped.
    pub closed spec fn inner(self) -> F {
        self.inner
    }

    /// Wraps `inner`, the call for a request with the given HTTP method and
    /// path. `service_method_separator` is the position in `path`, counted
    /// in characters, of the `/` between service and method; with `None`, or
    /// with a position outside the path, the whole path is the method.
    pub fn new(
        method: String,
        path: String,
        service_method_separator: Option<usize>,
        inner: F,
    ) -> (future: MetricsFuture<F>)
        ensures
            future@ == (TrackerModel {
                side: SideModel::Server { method: method@, path: path@ },
                identity: split_identity(path@, position(service_method_separator)),
                phase: Phase::NotStarted,
            }),
            future.inner() == inner,
    {
        MetricsFuture { tracker: Tracker::server(method, path, service_method_separator), inner }
    }

    /// Where the call stands.
    pub fn phase(&self) -> (phase: Phase)
        ensures
            phase == self@.phase,
    {
        self.tracker.phase()
    }

    /// The wrapped call, to drive it.
    pub fn get_mut(&mut self) -> (inner: &mut F)
        ensures
            *inner == old(self).inner(),
            final(self).inner() == *final(inner),
            final(self)@ == old(self)@,
    {
        &mut self.inner
    }

    /// Tells the tracker that the call is being driven, at `now`; to be
    /// called each time before the wrapped call is driven.
    pub fn on_poll(&mut self, now: u64) -> (observations: Vec<Observation>)
        ensures
            (final(self)@, observations.deep_view()) == old(self)@.progress(now),
            final(self).inner() == old(self).inner(),
    {
        self.tracker.on_poll(now)
    }

    /// Tells the tracker that the wrapped call was found resolved, at `now`.
    pub fn on_ready(&mut self, now: u64, outcome: &CallOutcome) -> (observations: Vec<Observation>)
        ensures
            (final(self)@, observations.deep_view()) == old(self)@.resolve(now, outcome@),
            final(self).inner() == old(self).inner(),
    {
        self.tracker.on_ready(now, outcome)
    }

    /// Parts the tracker from the call, for a driver that has to pin the
    /// call.
    pub fn into_parts(self) -> (parts: (Tracker, F))
        ensures
            parts.0@ == self@,
            parts.1 == self.inner(),
    {
        (self.tracker, self.inner)
    }
}

} // verus!
