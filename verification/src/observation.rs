//! The instruments of the layer and the observations that calls give them.
//!
//! An [`Observation`] says what is to be done to one time series: which
//! instrument, which label values, and whether to count up, count down or
//! record a latency. Latencies are whole nanoseconds.

use vstd::prelude::*;

verus! {

/// The kinds of instrument.
#[derive(Clone, Copy, Debug, PartialEq, Eq, Structural)]
pub enum Kind {
    /// Only ever counts up.
    Counter,
    /// Counts up and down.
    Gauge,
    /// Sorts latencies into buckets.
    Histogram,
}

/// The named instruments. The first three are keyed by HTTP method and path,
/// the others by gRPC service and method, and by status code where they
/// describe calls that have ended.
#[derive(Clone, Copy, Debug, PartialEq, Eq, Structural)]
pub enum Instrument {
    /// `function_calls_total`: calls that a server has completed.
    CallsTotal,
    /// `function_calls_duration_seconds`: how long a server took for them.
    CallsDuration,
    /// `function_calls_concurrent`: calls that a server is working on.
    CallsConcurrent,
    /// `grpc_server_started_total`: calls that a server has begun.
    ServerStarted,
    /// `grpc_server_handled_total`: calls that a server has completed.
    ServerHandled,
    /// `grpc_server_handling_seconds`: how long a server took for them.
    ServerHandling,
    /// `grpc_client_started_total`: calls that a client has begun.
    ClientStarted,
    /// `grpc_client_handled_total`: calls that a client has seen completed.
    ClientHandled,
    /// `grpc_client_handling_seconds`: how long a client waited for them.
    ClientHandling,
}

impl Instrument {
    /// The kind of this instrument.
    pub open spec fn spec_kind(self) -> Kind {
        match self {
            Instrument::CallsTotal => Kind::Counter,
            Instrument::CallsDuration => Kind::Histogram,
            Instrument::CallsConcurrent => Kind::Gauge,
            Instrument::ServerStarted => Kind::Counter,
            Instrument::ServerHandled => Kind::Counter,
            Instrument::ServerHandling => Kind::Histogram,
            Instrument::ClientStarted => Kind::Counter,
            Instrument::ClientHandled => Kind::Counter,
            Instrument::ClientHandling => Kind::Histogram,
        }
    }

    /// The name under which this instrument is exposed.
    pub open spec fn spec_name(self) -> Seq<char> {
        match self {
            Instrument::CallsTotal => "function_calls_total"@,
            Instrument::CallsDuration => "function_calls_duration_seconds"@,
            Instrument::CallsConcurrent => "function_calls_concurrent"@,
            Instrument::ServerStarted => "grpc_server_started_total"@,
            Instrument::ServerHandled => "grpc_server_handled_total"@,
            Instrument::ServerHandling => "grpc_server_handling_seconds"@,
            Instrument::ClientStarted => "grpc_client_started_total"@,
            Instrument::ClientHandled => "grpc_client_handled_total"@,
            Instrument::ClientHandling => "grpc_client_handling_seconds"@,
        }
    }

    /// The names of the labels of this instrument, in the order in which
    /// their values are given.
    pub open spec fn schema(self) -> Seq<Seq<char>> {
        match self {
            Instrument::CallsTotal | Instrument::CallsDuration | Instrument::CallsConcurrent => seq![
                "method"@,
                "path"@,
            ],
            Instrument::ServerStarted | Instrument::ClientStarted => seq![
                "grpc_service"@,
                "grpc_method"@,
            ],
            Instrument::ServerHandled | Instrument::ServerHandling | Instrument::ClientHandled
            | Instrument::ClientHandling => seq!["grpc_service"@, "grpc_method"@, "grpc_code"@],
        }
    }

    /// The help text under which this instrument is exposed.
    pub open spec fn spec_help(self) -> Seq<char> {
        match self {
            Instrument::CallsTotal | Instrument::ServerHandled =>
                "Total number of RPCs completed on the server, regardless of success or failure."@,
            Instrument::ServerStarted => "Total number of RPCs started on the server."@,
            Instrument::CallsDuration | Instrument::ServerHandling =>
                "Histogram for tracking function call duration"@,
            Instrument::CallsConcurrent => "Gauge for tracking concurrent function calls"@,
            Instrument::ClientStarted => "Total number of RPCs started on the client."@,
            Instrument::ClientHandled =>
                "Total number of RPCs completed on the client, regardless of success or failure."@,
            Instrument::ClientHandling =>
                "Histogram for tracking the duration of calls made by the client"@,
        }
    }

    /// How many label values a series of this instrument has.
    pub open spec fn arity(self) -> nat {
        self.schema().len()
    }

    /// The kind of this instrument.
    #[verifier::when_used_as_spec(spec_kind)]
    pub fn kind(self) -> (kind: Kind)
        ensures
            kind == self.spec_kind(),
    {
        match self {
            Instrument::CallsTotal => Kind::Counter,
            Instrument::CallsDuration => Kind::Histogram,
            Instrument::CallsConcurrent => Kind::Gauge,
            Instrument::ServerStarted => Kind::Counter,
            Instrument::ServerHandled => Kind::Counter,
            Instrument::ServerHandling => Kind::Histogram,
            Instrument::ClientStarted => Kind::Counter,
            Instrument::ClientHandled => Kind::Counter,
            Instrument::ClientHandling => Kind::Histogram,
        }
    }

    /// The name under which this instrument is exposed.
    pub fn name(self) -> (name: &'static str)
        ensures
            name@ == self.spec_name(),
    {
        match self {
            Instrument::CallsTotal => "function_calls_total",
            Instrument::CallsDuration => "function_calls_duration_seconds",
            Instrument::CallsConcurrent => "function_calls_concurrent",
            Instrument::ServerStarted => "grpc_server_started_total",
            Instrument::ServerHandled => "grpc_server_handled_total",
            Instrument::ServerHandling => "grpc_server_handling_seconds",
            Instrument::ClientStarted => "grpc_client_started_total",
            Instrument::ClientHandled => "grpc_client_handled_total",
            Instrument::ClientHandling => "grpc_client_handling_seconds",
        }
    }

    /// The help text of this instrument.
    pub fn help(self) -> (help: &'static str)
        ensures
            help@ == self.spec_help(),
    {
        match self {
            Instrument::CallsTotal | Instrument::ServerHandled =>
                "Total number of RPCs completed on the server, regardless of success or failure.",
            Instrument::ServerStarted => "Total number of RPCs started on the server.",
            Instrument::CallsDuration | Instrument::ServerHandling =>
                "Histogram for tracking function call duration",
            Instrument::CallsConcurrent => "Gauge for tracking concurrent function calls",
            Instrument::ClientStarted => "Total number of RPCs started on the client.",
            Instrument::ClientHandled =>
                "Total number of RPCs completed on the client, regardless of success or failure.",
            Instrument::ClientHandling =>
                "Histogram for tracking the duration of calls made by the client",
        }
    }

    /// The names of the labels of this instrument, in order.
    pub fn label_names(self) -> (names: Vec<&'static str>)
        ensures
            names.deep_view() == self.schema(),
            names.len() == self.arity(),
    {
        let mut names: Vec<&'static str> = Vec::new();
        match self {
            Instrument::CallsTotal | Instrument::CallsDuration | Instrument::CallsConcurrent => {
                names.push("method");
                names.push("path");
            },
            Instrument::ServerStarted | Instrument::ClientStarted => {
                names.push("grpc_service");
                names.push("grpc_method");
            },
            Instrument::ServerHandled | Instrument::ServerHandling | Instrument::ClientHandled
            | Instrument::ClientHandling => {
                names.push("grpc_service");
                names.push("grpc_method");
                names.push("grpc_code");
            },
        }
        assert(names.deep_view() =~= self.schema());
        names
    }
}

/// What an observation does to its series.
#[derive(Clone, Copy, Debug, PartialEq, Eq, Structural)]
pub enum Action {
    /// Count up by one.
    Increment,
    /// Count down by one.
    Decrement,
    /// Record a latency of `nanos` nanoseconds.
    Record { nanos: u64 },
}

/// One observation: an action on the series of `instrument` that has the
/// label values `labels`.
#[derive(Clone, Debug, PartialEq, Eq)]
pub struct Observation {
    pub instrument: Instrument,
    pub labels: Vec<String>,
    pub action: Action,
}

/// What an [`Observation`] holds, as a value of specifications.
pub struct Sample {
    pub instrument: Instrument,
    pub labels: Seq<Seq<char>>,
    pub action: Action,
}

impl DeepView for Observation {
    type V = Sample;

    open spec fn deep_view(&self) -> Sample {
        Sample {
            instrument: self.instrument,
            labels: self.labels.deep_view(),
            action: self.action,
        }
    }
}

impl Sample {
    /// An observation is well formed when it has as many label values as its
    /// instrument has labels, and its action is one of the instrument's kind:
    /// a counter only counts up, a gauge counts up and down, a histogram
    /// records.
    pub open spec fn well_formed(self) -> bool {
        &&& self.labels.len() == self.instrument.arity()
        &&& match self.instrument.spec_kind() {
            Kind::Counter => self.action is Increment,
            Kind::Gauge => self.action is Increment || self.action is Decrement,
            Kind::Histogram => self.action is Record,
        }
    }
}

/// Label values for an instrument with two labels.
pub fn label_pair(first: &str, second: &str) -> (labels: Vec<String>)
    ensures
        labels.deep_view() == seq![first@, second@],
{
    let mut labels: Vec<String> = Vec::new();
    labels.push(first.to_owned());
    labels.push(second.to_owned());
    assert(labels.deep_view() =~= seq![first@, second@]);
    labels
}

/// Label values for an instrument with three labels.
pub fn label_triple(first: &str, second: &str, third: &str) -> (labels: Vec<String>)
    ensures
        labels.deep_view() == seq![first@, second@, third@],
{
    let mut labels: Vec<String> = Vec::new();
    labels.push(first.to_owned());
    labels.push(second.to_owned());
    labels.push(third.to_owned());
    assert(labels.deep_view() =~= seq![first@, second@, third@]);
    labels
}

impl Observation {
    /// The observation with the given parts.
    pub fn new(instrument: Instrument, labels: Vec<String>, action: Action) -> (observation:
        Observation)
        ensures
            observation.deep_view() == (Sample {
                instrument,
                labels: labels.deep_view(),
                action,
            }),
    {
        Observation { instrument, labels, action }
    }

    /// Whether this observation fits its instrument.
    pub fn is_well_formed(&self) -> (fits: bool)
        ensures
            fits == self.deep_view().well_formed(),
    {
        let arity: usize = match self.instrument {
            Instrument::CallsTotal | Instrument::CallsDuration | Instrument::CallsConcurrent
            | Instrument::ServerStarted | Instrument::ClientStarted => 2,
            Instrument::ServerHandled | Instrument::ServerHandling | Instrument::ClientHandled
            | Instrument::ClientHandling => 3,
        };
        let fits_kind = match self.instrument.kind() {
            Kind::Counter => match self.action {
                Action::Increment => true,
                _ => false,
            },
            Kind::Gauge => match self.action {
                Action::Increment | Action::Decrement => true,
                _ => false,
            },
            Kind::Histogram => match self.action {
                Action::Record { .. } => true,
                _ => false,
            },
        };
        self.labels.len() == arity && fits_kind
    }
}

} // verus!
