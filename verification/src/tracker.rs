//! The life of one call, and the observations it gives.
//!
//! A call is tracked from the first time it is driven until it resolves. It
//! is counted as started when it is first driven, never when it is merely
//! created, and as handled when it resolves. A call that is dropped on the
//! way stays counted as started only.
//!
//! The tracker does not drive the call and does not read a clock. Whoever
//! drives the call tells the tracker what happened and when, and records the
//! observations that the tracker hands back, in their order. Times are
//! readings of one monotonic clock, in nanoseconds.

use vstd::prelude::*;
use crate::code::{classify, status_of, CallOutcome, Code, OutcomeModel};
use crate::identity::{position, split_identity, CallIdentity, IdentityModel};
use crate::observation::{label_pair, label_triple, Action, Instrument, Observation, Sample};

verus! {

/// Where a call stands.
#[derive(Clone, Copy, Debug, PartialEq, Eq, Structural)]
pub enum Phase {
    /// Created, never driven.
    NotStarted,
    /// Driven for the first time at `started_at`, not resolved yet.
    InFlight { started_at: u64 },
    /// Resolved.
    Completed,
}

/// The side of the wire that a call is tracked on. A server also keys its
/// calls by the HTTP method and the path of the request.
#[derive(Debug)]
pub enum Side {
    Server { method: String, path: String },
    Client,
}

/// What a [`Side`] holds, as a value of specifications.
pub enum SideModel {
    Server { method: Seq<char>, path: Seq<char> },
    Client,
}

impl View for Side {
    type V = SideModel;

    open spec fn view(&self) -> SideModel {
        match self {
            Side::Server { method, path } => SideModel::Server { method: method@, path: path@ },
            Side::Client => SideModel::Client,
        }
    }
}

/// The tracker of one call. Its labels are fixed when it is made.
#[derive(Debug)]
pub struct Tracker {
    side: Side,
    identity: CallIdentity,
    phase: Phase,
}

/// What a [`Tracker`] holds, as a value of specifications.
pub struct TrackerModel {
    pub side: SideModel,
    pub identity: IdentityModel,
    pub phase: Phase,
}

impl View for Tracker {
    type V = TrackerModel;

    closed spec fn view(&self) -> TrackerModel {
        TrackerModel { side: self.side@, identity: self.identity@, phase: self.phase }
    }
}

/// The time from `started_at` to `now`; nothing where the clock reads less
/// at `now` than it did at `started_at`.
pub open spec fn elapsed_nanos(started_at: u64, now: u64) -> u64 {
    if now >= started_at {
        (now - started_at) as u64
    } else {
        0
    }
}

/// What happens to a tracked call.
pub enum Event {
    /// The call was driven at `now`.
    Progress { now: u64 },
    /// The call was found resolved at `now`, with `outcome`.
    Resolved { now: u64, outcome: OutcomeModel },
}

impl TrackerModel {
    /// The counter of started calls on the side of this call.
    pub open spec fn started_instrument(self) -> Instrument {
        match self.side {
            SideModel::Server { .. } => Instrument::ServerStarted,
            SideModel::Client => Instrument::ClientStarted,
        }
    }

    /// The counter of handled calls on the side of this call.
    pub open spec fn handled_instrument(self) -> Instrument {
        match self.side {
            SideModel::Server { .. } => Instrument::ServerHandled,
            SideModel::Client => Instrument::ClientHandled,
        }
    }

    /// The histogram of latencies on the side of this call.
    pub open spec fn latency_instrument(self) -> Instrument {
        match self.side {
            SideModel::Server { .. } => Instrument::ServerHandling,
            SideModel::Client => Instrument::ClientHandling,
        }
    }

    /// The observation that counts this call as started.
    pub open spec fn started_sample(self) -> Sample {
        Sample {
            instrument: self.started_instrument(),
            labels: seq![self.identity.service, self.identity.method],
            action: Action::Increment,
        }
    }

    /// The observation that counts this call as handled with `code`.
    pub open spec fn handled_sample(self, code: Code) -> Sample {
        Sample {
            instrument: self.handled_instrument(),
            labels: seq![self.identity.service, self.identity.method, code.label()],
            action: Action::Increment,
        }
    }

    /// The observation that records the latency of this call.
    pub open spec fn latency_sample(self, code: Code, nanos: u64) -> Sample {
        Sample {
            instrument: self.latency_instrument(),
            labels: seq![self.identity.service, self.identity.method, code.label()],
            action: Action::Record { nanos },
        }
    }

    /// The label values of the instruments that are keyed by HTTP method and
    /// path. Only a server has those.
    pub open spec fn route(self) -> Seq<Seq<char>> {
        match self.side {
            SideModel::Server { method, path } => seq![method, path],
            SideModel::Client => Seq::empty(),
        }
    }

    /// The observation that counts this call into those a server is working
    /// on, with `Increment`, or out of them, with `Decrement`.
    pub open spec fn concurrent_sample(self, action: Action) -> Sample {
        Sample { instrument: Instrument::CallsConcurrent, labels: self.route(), action }
    }

    /// The observations of a call that is driven for the first time. A
    /// server first counts the call among those it is working on.
    pub open spec fn started_samples(self) -> Seq<Sample> {
        match self.side {
            SideModel::Server { .. } => seq![
                self.concurrent_sample(Action::Increment),
                self.started_sample(),
            ],
            SideModel::Client => seq![self.started_sample()],
        }
    }

    /// The observations of a call that resolves with `code` after `nanos`
    /// nanoseconds: it is counted as handled, then its latency is recorded.
    /// A server does both under method and path too, and at the end counts
    /// the call out of those it is working on.
    pub open spec fn handled_samples(self, code: Code, nanos: u64) -> Seq<Sample> {
        match self.side {
            SideModel::Server { .. } => seq![
                Sample {
                    instrument: Instrument::CallsTotal,
                    labels: self.route(),
                    action: Action::Increment,
                },
                self.handled_sample(code),
                Sample {
                    instrument: Instrument::CallsDuration,
                    labels: self.route(),
                    action: Action::Record { nanos },
                },
                self.latency_sample(code, nanos),
                self.concurrent_sample(Action::Decrement),
            ],
            SideModel::Client => seq![self.handled_sample(code), self.latency_sample(code, nanos)],
        }
    }

    /// This tracker in another phase.
    pub open spec fn in_phase(self, phase: Phase) -> TrackerModel {
        TrackerModel { side: self.side, identity: self.identity, phase }
    }

    /// The call is driven at `now`. The first time, it begins its flight and
    /// gives the observations of a started call. Later, nothing changes and
    /// nothing is observed.
    pub open spec fn progress(self, now: u64) -> (TrackerModel, Seq<Sample>) {
        match self.phase {
            Phase::NotStarted => (
                self.in_phase(Phase::InFlight { started_at: now }),
                self.started_samples(),
            ),
            _ => (self, Seq::empty()),
        }
    }

    /// The call is found resolved at `now`. If it is in flight, it completes
    /// and gives the observations of a handled call, with the status of
    /// `outcome` and the time since it was first driven. A call that was
    /// never driven, or has completed before, gives nothing.
    pub open spec fn resolve(self, now: u64, outcome: OutcomeModel) -> (TrackerModel, Seq<Sample>) {
        match self.phase {
            Phase::InFlight { started_at } => (
                self.in_phase(Phase::Completed),
                self.handled_samples(status_of(outcome), elapsed_nanos(started_at, now)),
            ),
            _ => (self, Seq::empty()),
        }
    }

    /// What `event` does to this call, and what is observed.
    pub open spec fn step(self, event: Event) -> (TrackerModel, Seq<Sample>) {
        match event {
            Event::Progress { now } => self.progress(now),
            Event::Resolved { now, outcome } => self.resolve(now, outcome),
        }
    }

    /// What a run of events does to this call, and all that is observed on
    /// the way, in order.
    pub open spec fn run(self, events: Seq<Event>) -> (TrackerModel, Seq<Sample>)
        decreases events.len(),
    {
        if events.len() == 0 {
            (self, Seq::empty())
        } else {
            let (before, earlier) = self.run(events.drop_last());
            let (after, latest) = before.step(events.last());
            (after, earlier + latest)
        }
    }
}

impl Tracker {
    /// The tracker of a call that a server has received, with the HTTP
    /// method and the path of its request. The path is cut at `separator`
    /// into service and method.
    pub fn server(method: String, path: String, separator: Option<usize>) -> (tracker: Tracker)
        ensures
            tracker@ == (TrackerModel {
                side: SideModel::Server { method: method@, path: path@ },
                identity: split_identity(path@, position(separator)),
                phase: Phase::NotStarted,
            }),
    {
        let identity = CallIdentity::split(path.as_str(), separator);
        Tracker { side: Side::Server { method, path }, identity, phase: Phase::NotStarted }
    }

    /// The tracker of a call that a client is about to make.
    pub fn client(identity: CallIdentity) -> (tracker: Tracker)
        ensures
            tracker@ == (TrackerModel {
                side: SideModel::Client,
                identity: identity@,
                phase: Phase::NotStarted,
            }),
    {
        Tracker { side: Side::Client, identity, phase: Phase::NotStarted }
    }

    /// Where the call stands.
    pub fn phase(&self) -> (phase: Phase)
        ensures
            phase == self@.phase,
    {
        self.phase
    }

    /// The service and the method that the call is counted under.
    pub fn identity(&self) -> (identity: &CallIdentity)
        ensures
            identity@ == self@.identity,
    {
        &self.identity
    }

    fn started_observations(&self) -> (observations: Vec<Observation>)
        ensures
            observations.deep_view() == self@.started_samples(),
    {
        let mut observations: Vec<Observation> = Vec::new();
        let service = self.identity.service.as_str();
        let rpc_method = self.identity.method.as_str();
        match &self.side {
            Side::Server { method, path } => {
                observations.push(
                    Observation::new(
                        Instrument::CallsConcurrent,
                        label_pair(method.as_str(), path.as_str()),
                        Action::Increment,
                    ),
                );
                observations.push(
                    Observation::new(
                        Instrument::ServerStarted,
                        label_pair(service, rpc_method),
                        Action::Increment,
                    ),
                );
            },
            Side::Client => {
                observations.push(
                    Observation::new(
                        Instrument::ClientStarted,
                        label_pair(service, rpc_method),
                        Action::Increment,
                    ),
                );
            },
        }
        assert(observations.deep_view() =~= self@.started_samples());
        observations
    }

    fn handled_observations(&self, code: Code, nanos: u64) -> (observations: Vec<Observation>)
        ensures
            observations.deep_view() == self@.handled_samples(code, nanos),
    {
        let mut observations: Vec<Observation> = Vec::new();
        let service = self.identity.service.as_str();
        let rpc_method = self.identity.method.as_str();
        let status = code.name();
        match &self.side {
            Side::Server { method, path } => {
                observations.push(
                    Observation::new(
                        Instrument::CallsTotal,
                        label_pair(method.as_str(), path.as_str()),
                        Action::Increment,
                    ),
                );
                observations.push(
                    Observation::new(
                        Instrument::ServerHandled,
                        label_triple(service, rpc_method, status),
                        Action::Increment,
                    ),
                );
                observations.push(
                    Observation::new(
                        Instrument::CallsDuration,
                        label_pair(method.as_str(), path.as_str()),
                        Action::Record { nanos },
                    ),
                );
                observations.push(
                    Observation::new(
                        Instrument::ServerHandling,
                        label_triple(service, rpc_method, status),
                        Action::Record { nanos },
                    ),
                );
                observations.push(
                    Observation::new(
                        Instrument::CallsConcurrent,
                        label_pair(method.as_str(), path.as_str()),
                        Action::Decrement,
                    ),
                );
            },
            Side::Client => {
                observations.push(
                    Observation::new(
                        Instrument::ClientHandled,
                        label_triple(service, rpc_method, status),
                        Action::Increment,
                    ),
                );
                observations.push(
                    Observation::new(
                        Instrument::ClientHandling,
                        label_triple(service, rpc_method, status),
                        Action::Record { nanos },
                    ),
                );
            },
        }
        assert(observations.deep_view() =~= self@.handled_samples(code, nanos));
        observations
    }

    /// Tells the tracker that the call is being driven, at `now`. Call this
    /// each time, before the call itself is driven.
    pub fn on_poll(&mut self, now: u64) -> (observations: Vec<Observation>)
        ensures
            (final(self)@, observations.deep_view()) == old(self)@.progress(now),
    {
        match self.phase {
            Phase::NotStarted => {
                let observations = self.started_observations();
                self.phase = Phase::InFlight { started_at: now };
                observations
            },
            _ => {
                let observations: Vec<Observation> = Vec::new();
                assert(observations.deep_view() =~= Seq::<Sample>::empty());
                observations
            },
        }
    }

    /// Tells the tracker that the call was found resolved, at `now`.
    pub fn on_ready(&mut self, now: u64, outcome: &CallOutcome) -> (observations: Vec<Observation>)
        ensures
            (final(self)@, observations.deep_view()) == old(self)@.resolve(now, outcome@),
    {
        match self.phase {
            Phase::InFlight { started_at } => {
                let nanos: u64 = if now >= started_at {
                    now - started_at
                } else {
                    0
                };
                let observations = self.handled_observations(classify(outcome), nanos);
                self.phase = Phase::Completed;
                observations
            },
            _ => {
                let observations: Vec<Observation> = Vec::new();
                assert(observations.deep_view() =~= Seq::<Sample>::empty());
                observations
            },
        }
    }
}

} // verus!
