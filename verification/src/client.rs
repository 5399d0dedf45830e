//! Tracking the calls that a client makes.

use vstd::prelude::*;
use crate::code::CallOutcome;
use crate::identity::{metadata_identity, CallIdentity, IdentityModel};
use crate::observation::Observation;
use crate::tracker::{Phase, SideModel, Tracker, TrackerModel};

verus! {

/// A call that a client has made, together with its tracker.
pub struct MetricsChannelFuture<F> {
    tracker: Tracker,
    inner: F,
}

impl<F> View for MetricsChannelFuture<F> {
    type V = TrackerModel;

    closed spec fn view(&self) -> TrackerModel {
        self.tracker@
    }
}

impl<F> MetricsChannelFuture<F> {
    /// The call that is wrapped.
    pub closed spec fn inner(self) -> F {
        self.inner
    }

    /// Wraps `inner`, a call to `method` of `service`.
    pub fn new(service: String, method: String, inner: F) -> (future: MetricsChannelFuture<F>)
        ensures
            future@ == (TrackerModel {
                side: SideModel::Client,
                identity: IdentityModel { service: service@, method: method@ },
                phase: Phase::NotStarted,
            }),
            future.inner() == inner,
    {
        MetricsChannelFuture { tracker: Tracker::client(CallIdentity::new(service, method)), inner }
    }

    /// Where the call stands.
    pub fn phase(&self) -> (phase: Phase)
        ensures
            phase == self@.phase,
    {
        self.tracker.phase()
    }

    /// The wrapped call, to drive it.
    pub fn get_mut(&mut self) -> (inner: &mut F)
        ensures
            *inner == old(self).inner(),
            final(self).inner() == *final(inner),
            final(self)@ == old(self)@,
    {
        &mut self.inner
    }

    /// Tells the tracker that the call is being driven, at `now`; to be
    /// called each time before the wrapped call is driven.
    pub fn on_poll(&mut self, now: u64) -> (observations: Vec<Observation>)
        ensures
            (final(self)@, observations.deep_view()) == old(self)@.progress(now),
            final(self).inner() == old(self).inner(),
    {
        self.tracker.on_poll(now)
    }

    /// Tells the tracker that the wrapped call was found resolved, at `now`.
    pub fn on_ready(&mut self, now: u64, outcome: &CallOutcome) -> (observations: Vec<Observation>)
        ensures
            (final(self)@, observations.deep_view()) == old(self)@.resolve(now, outcome@),
            final(self).inner() == old(self).inner(),
    {
        self.tracker.on_ready(now, outcome)
    }

    /// Parts the tracker from the call, for a driver that has to pin the
    /// call.
    pub fn into_parts(self) -> (parts: (Tracker, F))
        ensures
            parts.0@ == self@,
            parts.1 == self.inner(),
    {
        (self.tracker, self.inner)
    }
}

/// A client channel whose calls are tracked.
pub struct MetricsChannel<T> {
    inner: T,
}

impl<T> MetricsChannel<T> {
    /// The channel that is wrapped.
    pub closed spec fn inner(self) -> T {
        self.inner
    }

    /// Wraps a channel, so that the calls sent over it are counted.
    pub fn new(inner: T) -> (channel: MetricsChannel<T>)
        ensures
            channel.inner() == inner,
    {
        MetricsChannel { inner }
    }

    /// The channel that is wrapped.
    pub fn get_ref(&self) -> (inner: &T)
        ensures
            *inner == self.inner(),
    {
        &self.inner
    }

    /// The channel that is wrapped, to send a call over it.
    pub fn get_mut(&mut self) -> (inner: &mut T)
        ensures
            *inner == old(self).inner(),
            final(self).inner() == *final(inner),
    {
        &mut self.inner
    }

    /// Takes up a call: `grpc_method` is the service and the method that the
    /// request names in its metadata, if it does, and `response` is what
    /// the wrapped channel gave for it. Without metadata the call is
    /// tracked under an empty service and an empty method.
    pub fn call<F>(&self, grpc_method: Option<(String, String)>, response: F) -> (future:
        MetricsChannelFuture<F>)
        ensures
            future@ == (TrackerModel {
                side: SideModel::Client,
                identity: metadata_identity(grpc_method),
                phase: Phase::NotStarted,
            }),
            future.inner() == response,
    {
        let identity = CallIdentity::from_metadata(grpc_method);
        MetricsChannelFuture { tracker: Tracker::client(identity), inner: response }
    }
}

} // verus!
