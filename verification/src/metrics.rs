//! The settings of the layer and its instruments in a Prometheus registry.
//!
//! The counters and the gauge are kept here, behind the `prometheus` crate.
//! Nothing is claimed about the values they hold: they are shared with every
//! other call in the process. What is proved is that each is made with the
//! name, the help text and the labels of its instrument, and is only ever
//! given as many label values as it has labels.
//!
//! A registry can hold more than the instruments of the layer. Before it is
//! written as text, what was gathered from it is looked through for families
//! that the text format has no form for.
//!
//! Histograms take their buckets and their observations in floating-point
//! seconds, so creating and feeding them is left to the embedding program;
//! [`Instrument`] tells it their names and labels.

use vstd::prelude::*;
use vstd::std_specs::convert::FromSpecImpl;
use crate::observation::{Action, Instrument, Observation, Sample};

verus! {

/// `prometheus::Registry`, the place where instruments are registered and
/// from which they are gathered. Nothing is known of what one holds.
#[verifier::external_type_specification]
#[verifier::external_body]
pub struct ExRegistry(prometheus::Registry);

/// `prometheus::Error`, the error of the `prometheus` crate. It is carried
/// through as it came.
#[verifier::external_type_specification]
#[verifier::external_body]
pub struct ExPrometheusError(prometheus::Error);

/// `prometheus::proto::MetricFamily`, what a registry gives when it is
/// gathered: the series of one name, with their values. It is carried from
/// the registry to the encoder.
#[verifier::external_type_specification]
#[verifier::external_body]
pub struct ExMetricFamily(prometheus::proto::MetricFamily);

/// The types that a metric family can have.
#[derive(Clone, Copy, Debug, PartialEq, Eq, Structural)]
pub enum FamilyType {
    Counter,
    Gauge,
    Summary,
    /// No type. The text encoder has no form for the series of such a family.
    Untyped,
    Histogram,
}

/// A `prometheus::CounterVec`: the counters of one name, one for each
/// combination of label values. The parameters of that type are private to
/// `prometheus`, so it is held here and not declared.
#[verifier::external_body]
pub struct CounterFamily {
    inner: prometheus::CounterVec,
}

/// A `prometheus::GaugeVec`: the gauges of one name, one for each
/// combination of label values. The parameters of that type are private to
/// `prometheus`, so it is held here and not declared.
#[verifier::external_body]
pub struct GaugeFamily {
    inner: prometheus::GaugeVec,
}

/// The name that a counter family was made with.
pub uninterp spec fn counter_name(family: CounterFamily) -> Seq<char>;

/// The help text that a counter family was made with.
pub uninterp spec fn counter_help(family: CounterFamily) -> Seq<char>;

/// The label names that a counter family was made with, in their order.
pub uninterp spec fn counter_labels(family: CounterFamily) -> Seq<Seq<char>>;

/// The name that a gauge family was made with.
pub uninterp spec fn gauge_name(family: GaugeFamily) -> Seq<char>;

/// The help text that a gauge family was made with.
pub uninterp spec fn gauge_help(family: GaugeFamily) -> Seq<char>;

/// The label names that a gauge family was made with, in their order.
pub uninterp spec fn gauge_labels(family: GaugeFamily) -> Seq<Seq<char>>;

/// The type of a metric family: what kind of instrument its series belong
/// to.
pub uninterp spec fn family_type(family: prometheus::proto::MetricFamily) -> FamilyType;

/// What the text encoder of `prometheus` writes for `families`; `None`
/// where it refuses them.
pub uninterp spec fn encoded(families: Seq<prometheus::proto::MetricFamily>) -> Option<Seq<char>>;

/// Whether `family` was made with the name, the help text and the labels of
/// `instrument`.
pub open spec fn counter_made_for(family: CounterFamily, instrument: Instrument) -> bool {
    &&& counter_name(family) == instrument.spec_name()
    &&& counter_help(family) == instrument.spec_help()
    &&& counter_labels(family) == instrument.schema()
}

/// Whether `family` was made with the name, the help text and the labels of
/// `instrument`.
pub open spec fn gauge_made_for(family: GaugeFamily, instrument: Instrument) -> bool {
    &&& gauge_name(family) == instrument.spec_name()
    &&& gauge_help(family) == instrument.spec_help()
    &&& gauge_labels(family) == instrument.schema()
}

/// Whether a name may begin with `c`: a letter of the alphabet of ASCII or an
/// underscore, and for the name of a family a colon too.
pub open spec fn begins_name(c: char, colon: bool) -> bool {
    ('a' <= c && c <= 'z') || ('A' <= c && c <= 'Z') || c == '_' || (colon && c == ':')
}

/// Whether `text` is a name as `prometheus` takes them: not empty, begun as
/// a name begins, and going on with such characters and digits.
pub open spec fn is_name(text: Seq<char>, colon: bool) -> bool {
    &&& text.len() > 0
    &&& begins_name(text[0], colon)
    &&& forall|i: int|
        0 < i < text.len() ==> begins_name(#[trigger] text[i], colon) || ('0' <= text[i] && text[i]
            <= '9')
}

/// Whether `prometheus` makes a family of this name, help text and these
/// label names: the help text is not empty, the name is a name, and so is
/// each label name, without a colon, and no label name comes twice.
pub open spec fn family_accepted(name: Seq<char>, help: Seq<char>, labels: Seq<Seq<char>>) -> bool {
    &&& help.len() > 0
    &&& is_name(name, true)
    &&& forall|i: int| 0 <= i < labels.len() ==> is_name(#[trigger] labels[i], false)
    &&& forall|i: int, j: int|
        0 <= i < j < labels.len() ==> #[trigger] labels[i] != #[trigger] labels[j]
}

/// Whether the text encoder can be given `families`: it has no text form
/// for a family without a type.
pub open spec fn renderable(families: Seq<prometheus::proto::MetricFamily>) -> bool {
    forall|i: int| 0 <= i < families.len() ==> family_type(#[trigger] families[i]) != FamilyType::Untyped
}

/// Makes a counter family with `prometheus::CounterVec::new`, from the
/// options that `prometheus::Opts::new` makes of `name` and `help`.
///
/// Trusted: that a family is made exactly where `family_accepted` holds, as
/// the descriptor of `prometheus` checks it, and that the family which comes
/// back has the name `name`, the help text `help` and the labels
/// `label_names`, in their order.
#[verifier::external_body]
fn counter_family(name: &str, help: &str, label_names: &Vec<&str>) -> (made: Result<
    CounterFamily,
    prometheus::Error,
>)
    ensures
        made is Ok <==> family_accepted(name@, help@, label_names.deep_view()),
        made matches Ok(family) ==> counter_name(family) == name@ && counter_help(family) == help@
            && counter_labels(family) == label_names.deep_view(),
{
    let inner = prometheus::CounterVec::new(prometheus::Opts::new(name, help), label_names)?;
    Ok(CounterFamily { inner })
}

/// Makes a gauge family with `prometheus::GaugeVec::new`, from the options
/// that `prometheus::Opts::new` makes of `name` and `help`.
///
/// Trusted: that a family is made exactly where `family_accepted` holds, as
/// the descriptor of `prometheus` checks it, and that the family which comes
/// back has the name `name`, the help text `help` and the labels
/// `label_names`, in their order.
#[verifier::external_body]
fn gauge_family(name: &str, help: &str, label_names: &Vec<&str>) -> (made: Result<
    GaugeFamily,
    prometheus::Error,
>)
    ensures
        made is Ok <==> family_accepted(name@, help@, label_names.deep_view()),
        made matches Ok(family) ==> gauge_name(family) == name@ && gauge_help(family) == help@
            && gauge_labels(family) == label_names.deep_view(),
{
    let inner = prometheus::GaugeVec::new(prometheus::Opts::new(name, help), label_names)?;
    Ok(GaugeFamily { inner })
}

/// Registers a clone of `family`, which shares its counters, in `registry`
/// with `prometheus::Registry::register`. Whether the registry takes it
/// depends on what it holds already: nothing is claimed of the answer.
#[verifier::external_body]
fn register_counter_family(registry: &prometheus::Registry, family: &CounterFamily) -> (taken:
    Result<(), prometheus::Error>) {
    registry.register(Box::new(family.inner.clone()))
}

/// Registers a clone of `family`, which shares its gauges, in `registry`
/// with `prometheus::Registry::register`. Whether the registry takes it
/// depends on what it holds already: nothing is claimed of the answer.
#[verifier::external_body]
fn register_gauge_family(registry: &prometheus::Registry, family: &GaugeFamily) -> (taken: Result<
    (),
    prometheus::Error,
>) {
    registry.register(Box::new(family.inner.clone()))
}

/// Counts up the counter that `prometheus::CounterVec::with_label_values`
/// gives for `label_values`, with `inc`.
///
/// `with_label_values` panics unless it is given as many values as the
/// family has labels. Nothing is claimed of the counter afterwards: other
/// calls count in it at the same time.
#[verifier::external_body]
fn counter_increment(family: &CounterFamily, label_values: &Vec<String>)
    requires
        label_values.len() == counter_labels(*family).len(),
{
    let values: Vec<&str> = label_values.iter().map(|value| value.as_str()).collect();
    family.inner.with_label_values(&values).inc();
}

/// Counts up the gauge that `prometheus::GaugeVec::with_label_values` gives
/// for `label_values`, with `inc`.
///
/// `with_label_values` panics unless it is given as many values as the
/// family has labels. Nothing is claimed of the gauge afterwards: other
/// calls count in it at the same time.
#[verifier::external_body]
fn gauge_increment(family: &GaugeFamily, label_values: &Vec<String>)
    requires
        label_values.len() == gauge_labels(*family).len(),
{
    let values: Vec<&str> = label_values.iter().map(|value| value.as_str()).collect();
    family.inner.with_label_values(&values).inc();
}

/// Counts down the gauge that `prometheus::GaugeVec::with_label_values`
/// gives for `label_values`, with `dec`.
///
/// `with_label_values` panics unless it is given as many values as the
/// family has labels. Nothing is claimed of the gauge afterwards: other
/// calls count in it at the same time.
#[verifier::external_body]
fn gauge_decrement(family: &GaugeFamily, label_values: &Vec<String>)
    requires
        label_values.len() == gauge_labels(*family).len(),
{
    let values: Vec<&str> = label_values.iter().map(|value| value.as_str()).collect();
    family.inner.with_label_values(&values).dec();
}

/// Gathers what `registry` holds, with `prometheus::Registry::gather`. What
/// comes back is all that was recorded so far, by anyone: nothing is
/// claimed of it.
#[verifier::external_body]
fn gather(registry: &prometheus::Registry) -> (families: Vec<prometheus::proto::MetricFamily>) {
    registry.gather()
}

/// Reads the type of `family`, with `MetricFamily::get_field_type`.
#[verifier::external_body]
fn type_of_family(family: &prometheus::proto::MetricFamily) -> (read: FamilyType)
    ensures
        read == family_type(*family),
{
    match family.get_field_type() {
        prometheus::proto::MetricType::COUNTER => FamilyType::Counter,
        prometheus::proto::MetricType::GAUGE => FamilyType::Gauge,
        prometheus::proto::MetricType::SUMMARY => FamilyType::Summary,
        prometheus::proto::MetricType::UNTYPED => FamilyType::Untyped,
        prometheus::proto::MetricType::HISTOGRAM => FamilyType::Histogram,
    }
}

/// The text that `prometheus` gives for one of its errors, with the
/// `to_string` of its `Display`. Nothing is claimed of the text.
#[verifier::external_body]
fn error_text(error: &prometheus::Error) -> (text: String) {
    error.to_string()
}

/// Writes `families` in the text format, with `encode_utf8` of a
/// `prometheus::TextEncoder`.
///
/// The encoder panics on a series of a family without a type, so such
/// families are left out by `requires`. Trusted: that the text, or the
/// refusal, depends on `families` alone. What the text holds is not said
/// here.
#[verifier::external_body]
fn encode_text(families: &Vec<prometheus::proto::MetricFamily>) -> (text: Result<
    String,
    prometheus::Error,
>)
    requires
        renderable(families@),
    ensures
        match text {
            Ok(written) => encoded(families@) == Some(written@),
            Err(_) => encoded(families@) is None,
        },
{
    let mut output = String::new();
    prometheus::TextEncoder::new().encode_utf8(families, &mut output)?;
    Ok(output)
}

/// What can go wrong with the settings and with the exposition.
#[derive(Debug)]
pub enum MetricsError {
    /// The settings have been initialized before.
    AlreadyInitialized,
    /// The registry could not be written as text.
    PrometheusEncoding(prometheus::Error),
    /// The registry holds a family without a type, which has no text form.
    UntypedFamily,
}

impl MetricsError {
    /// What this error says of itself. An error of `prometheus` speaks for
    /// itself, in its own words.
    pub fn message(&self) -> (text: String)
        ensures
            self is AlreadyInitialized ==> text@ == "Settings have already been initialized"@,
            self is UntypedFamily ==> text@
                == "A metric family without a type cannot be written as text"@,
    {
        match self {
            MetricsError::AlreadyInitialized => "Settings have already been initialized".to_owned(),
            MetricsError::PrometheusEncoding(error) => error_text(error),
            MetricsError::UntypedFamily =>
                "A metric family without a type cannot be written as text".to_owned(),
        }
    }
}

impl From<prometheus::Error> for MetricsError {
    fn from(error: prometheus::Error) -> (converted: MetricsError) {
        MetricsError::PrometheusEncoding(error)
    }
}

impl FromSpecImpl<prometheus::Error> for MetricsError {
    open spec fn obeys_from_spec() -> bool {
        true
    }

    open spec fn from_spec(error: prometheus::Error) -> MetricsError {
        MetricsError::PrometheusEncoding(error)
    }
}

/// The settings of the layer: the registry that its instruments live in,
/// and the bucket boundaries of its histograms, in whatever form the
/// embedding program keeps them.
pub struct GlobalSettings<B> {
    pub registry: prometheus::Registry,
    pub histogram_buckets: B,
}

/// What became of the text that was gathered from a registry: the text
/// itself, or the error under `PrometheusEncoding`.
pub fn encoding_outcome(gathered: Result<String, prometheus::Error>) -> (outcome: Result<
    String,
    MetricsError,
>)
    ensures
        match gathered {
            Ok(text) => outcome == Ok::<String, MetricsError>(text),
            Err(error) => outcome == Err::<String, MetricsError>(
                MetricsError::PrometheusEncoding(error),
            ),
        },
{
    match gathered {
        Ok(text) => Ok(text),
        Err(error) => Err(MetricsError::from(error)),
    }
}

/// Whether `outcome` is what becomes of `encoding`: the text where there is
/// one, and `PrometheusEncoding` where the encoder refused.
pub open spec fn outcome_of_encoding(
    outcome: Result<String, MetricsError>,
    encoding: Option<Seq<char>>,
) -> bool {
    match outcome {
        Ok(text) => encoding == Some(text@),
        Err(error) => error is PrometheusEncoding && encoding is None,
    }
}

/// Whether `outcome` is what becomes of writing `families` as text:
/// `UntypedFamily` where one of them has no type, and else what becomes of
/// the encoder's answer.
pub open spec fn outcome_of_families(
    outcome: Result<String, MetricsError>,
    families: Seq<prometheus::proto::MetricFamily>,
) -> bool {
    if renderable(families) {
        outcome_of_encoding(outcome, encoded(families))
    } else {
        outcome matches Err(error) && error is UntypedFamily
    }
}

/// Whether every one of `families` has a type.
pub fn all_typed(families: &Vec<prometheus::proto::MetricFamily>) -> (typed: bool)
    ensures
        typed == renderable(families@),
{
    let mut at: usize = 0;
    while at < families.len()
        invariant
            at <= families.len(),
            forall|i: int| 0 <= i < at ==> family_type(#[trigger] families@[i]) != FamilyType::Untyped,
        decreases families.len() - at,
    {
        match type_of_family(&families[at]) {
            FamilyType::Untyped => {
                return false;
            },
            _ => {},
        }
        at = at + 1;
    }
    true
}

/// Writes `families` in the Prometheus text format. Families that the text
/// format has no form for are not left out in silence: where one of
/// `families` has no type, the answer is `UntypedFamily`, and nothing is
/// written.
pub fn encode_families(families: &Vec<prometheus::proto::MetricFamily>) -> (outcome: Result<
    String,
    MetricsError,
>)
    ensures
        outcome_of_families(outcome, families@),
{
    if all_typed(families) {
        encoding_outcome(encode_text(families))
    } else {
        Err(MetricsError::UntypedFamily)
    }
}

impl<B> GlobalSettings<B> {
    fn encode_metrics(&self) -> (outcome: Result<String, MetricsError>)
        ensures
            exists|families: Seq<prometheus::proto::MetricFamily>| #[trigger]
                outcome_of_families(outcome, families),
    {
        let families = gather(&self.registry);
        let outcome = encode_families(&families);
        assert(outcome_of_families(outcome, families@));
        outcome
    }
}

/// Gathers what the registry of `settings` holds and writes it in the
/// Prometheus text format: the outcome is what [`encode_families`] makes of
/// the metric families that were gathered. Which families are gathered
/// depends on all that was recorded in the registry so far.
pub fn encode_to_string<B>(settings: &GlobalSettings<B>) -> (outcome: Result<String, MetricsError>)
    ensures
        exists|families: Seq<prometheus::proto::MetricFamily>| #[trigger]
            outcome_of_families(outcome, families),
{
    settings.encode_metrics()
}

/// The place where the settings of a process are kept. They can be put
/// there once; from then on they stay.
pub struct SettingsCell<B> {
    current: Option<GlobalSettings<B>>,
}

impl<B> View for SettingsCell<B> {
    type V = Option<GlobalSettings<B>>;

    closed spec fn view(&self) -> Option<GlobalSettings<B>> {
        self.current
    }
}

/// What initializing with `settings` makes of a cell that holds `current`,
/// and what it answers: an empty cell takes the settings, a full one keeps
/// its own and answers `AlreadyInitialized`.
pub open spec fn initialized<B>(current: Option<GlobalSettings<B>>, settings: GlobalSettings<B>) -> (
    Option<GlobalSettings<B>>,
    Result<(), MetricsError>,
) {
    match current {
        None => (Some(settings), Ok(())),
        Some(_) => (current, Err(MetricsError::AlreadyInitialized)),
    }
}

/// The settings that are in effect for a cell that holds `current`, where
/// `default` would be used if nothing has been put there.
pub open spec fn in_effect<B>(
    current: Option<GlobalSettings<B>>,
    default: GlobalSettings<B>,
) -> GlobalSettings<B> {
    match current {
        Some(settings) => settings,
        None => default,
    }
}

impl<B> SettingsCell<B> {
    /// An empty cell.
    pub fn new() -> (cell: SettingsCell<B>)
        ensures
            cell@ is None,
    {
        SettingsCell { current: None }
    }

    /// Whether settings have been put into the cell.
    pub fn is_initialized(&self) -> (set: bool)
        ensures
            set == self@ is Some,
    {
        self.current.is_some()
    }
}

/// Puts `settings` into `cell`. This works once, and only before the
/// settings have been read: afterwards the cell keeps what it has, and the
/// answer is `AlreadyInitialized`.
pub fn try_init_settings<B>(cell: &mut SettingsCell<B>, settings: GlobalSettings<B>) -> (outcome:
    Result<(), MetricsError>)
    ensures
        (final(cell)@, outcome) == initialized(old(cell)@, settings),
{
    if cell.current.is_some() {
        Err(MetricsError::AlreadyInitialized)
    } else {
        cell.current = Some(settings);
        Ok(())
    }
}

/// Reads the settings of `cell`. If none have been put there, `default`
/// is put there first, and stays.
pub fn get_settings<B>(cell: &mut SettingsCell<B>, default: GlobalSettings<B>) -> (settings:
    &GlobalSettings<B>)
    ensures
        *settings == in_effect(old(cell)@, default),
        final(cell)@ == Some(in_effect(old(cell)@, default)),
{
    if cell.current.is_none() {
        cell.current = Some(default);
    }
    cell.current.as_ref().unwrap()
}

/// The counters and the gauge of a server, registered in one registry.
pub struct ServerInstruments {
    calls_total: CounterFamily,
    calls_concurrent: GaugeFamily,
    started: CounterFamily,
    handled: CounterFamily,
}

/// The counters of a client, registered in one registry.
pub struct ClientInstruments {
    started: CounterFamily,
    handled: CounterFamily,
}

/// Whether `sample` is an observation that the instruments of a server
/// record: a well-formed one for one of its counters or for its gauge.
pub open spec fn server_records(sample: Sample) -> bool {
    &&& sample.well_formed()
    &&& (sample.instrument == Instrument::CallsTotal || sample.instrument
        == Instrument::CallsConcurrent || sample.instrument == Instrument::ServerStarted
        || sample.instrument == Instrument::ServerHandled)
}

/// Whether `sample` is an observation that the instruments of a client
/// record: a well-formed one for one of its counters.
pub open spec fn client_records(sample: Sample) -> bool {
    &&& sample.well_formed()
    &&& (sample.instrument == Instrument::ClientStarted || sample.instrument
        == Instrument::ClientHandled)
}

/// What becomes of a family once the registry has answered: it is kept
/// where the registry took it, and given up for the registry's error where
/// it did not.
pub fn kept_if_taken<F>(family: F, taken: Result<(), prometheus::Error>) -> (kept: Result<
    F,
    prometheus::Error,
>)
    ensures
        match taken {
            Ok(_) => kept == Ok::<F, prometheus::Error>(family),
            Err(error) => kept == Err::<F, prometheus::Error>(error),
        },
{
    match taken {
        Ok(_) => Ok(family),
        Err(error) => Err(error),
    }
}

/// `prometheus` makes a family for every instrument of the layer: each has
/// a help text, a name that is a name, and label names that are names and
/// differ.
pub proof fn lemma_every_instrument_is_accepted(instrument: Instrument)
    ensures
        family_accepted(instrument.spec_name(), instrument.spec_help(), instrument.schema()),
{
    reveal_strlit("function_calls_total");
    reveal_strlit("function_calls_duration_seconds");
    reveal_strlit("function_calls_concurrent");
    reveal_strlit("grpc_server_started_total");
    reveal_strlit("grpc_server_handled_total");
    reveal_strlit("grpc_server_handling_seconds");
    reveal_strlit("grpc_client_started_total");
    reveal_strlit("grpc_client_handled_total");
    reveal_strlit("grpc_client_handling_seconds");
    reveal_strlit("Total number of RPCs completed on the server, regardless of success or failure.");
    reveal_strlit("Total number of RPCs started on the server.");
    reveal_strlit("Histogram for tracking function call duration");
    reveal_strlit("Gauge for tracking concurrent function calls");
    reveal_strlit("Total number of RPCs started on the client.");
    reveal_strlit("Total number of RPCs completed on the client, regardless of success or failure.");
    reveal_strlit("Histogram for tracking the duration of calls made by the client");
    reveal_strlit("method");
    reveal_strlit("path");
    reveal_strlit("grpc_service");
    reveal_strlit("grpc_method");
    reveal_strlit("grpc_code");
    let labels = instrument.schema();
    assert(is_name("method"@, false));
    assert(is_name("path"@, false));
    assert(is_name("grpc_service"@, false));
    assert(is_name("grpc_method"@, false));
    assert(is_name("grpc_code"@, false));
    assert("method"@.len() != "path"@.len());
    assert("grpc_service"@[5] != "grpc_method"@[5]);
    assert("grpc_service"@.len() != "grpc_code"@.len());
    assert("grpc_method"@.len() != "grpc_code"@.len());
}

fn register_counter(registry: &prometheus::Registry, instrument: Instrument) -> (made: Result<
    CounterFamily,
    prometheus::Error,
>)
    ensures
        made matches Ok(family) ==> counter_made_for(family, instrument),
{
    let label_names = instrument.label_names();
    proof {
        lemma_every_instrument_is_accepted(instrument);
    }
    let family = counter_family(instrument.name(), instrument.help(), &label_names).unwrap();
    let taken = register_counter_family(registry, &family);
    kept_if_taken(family, taken)
}

fn register_gauge(registry: &prometheus::Registry, instrument: Instrument) -> (made: Result<
    GaugeFamily,
    prometheus::Error,
>)
    ensures
        made matches Ok(family) ==> gauge_made_for(family, instrument),
{
    let label_names = instrument.label_names();
    proof {
        lemma_every_instrument_is_accepted(instrument);
    }
    let family = gauge_family(instrument.name(), instrument.help(), &label_names).unwrap();
    let taken = register_gauge_family(registry, &family);
    kept_if_taken(family, taken)
}

impl ServerInstruments {
    #[verifier::type_invariant]
    spec fn well_made(self) -> bool {
        self.made_for_a_server()
    }

    /// The family kept for `function_calls_total`.
    pub closed spec fn calls_total(self) -> CounterFamily {
        self.calls_total
    }

    /// The family kept for `function_calls_concurrent`.
    pub closed spec fn calls_concurrent(self) -> GaugeFamily {
        self.calls_concurrent
    }

    /// The family kept for `grpc_server_started_total`.
    pub closed spec fn started(self) -> CounterFamily {
        self.started
    }

    /// The family kept for `grpc_server_handled_total`.
    pub closed spec fn handled(self) -> CounterFamily {
        self.handled
    }

    /// Whether each family was made with the name, the help text and the
    /// labels of the instrument it is kept for.
    pub open spec fn made_for_a_server(self) -> bool {
        &&& counter_made_for(self.calls_total(), Instrument::CallsTotal)
        &&& gauge_made_for(self.calls_concurrent(), Instrument::CallsConcurrent)
        &&& counter_made_for(self.started(), Instrument::ServerStarted)
        &&& counter_made_for(self.handled(), Instrument::ServerHandled)
    }

    /// Makes the counters and the gauge of a server, each with the name, the
    /// help text and the labels of its instrument, and registers them in
    /// `registry`. Making them cannot fail. Whether the registry takes them
    /// depends on what it holds already; this fails with the registry's
    /// error at the first instrument that is refused, and those that were
    /// taken before stay registered.
    pub fn register(registry: &prometheus::Registry) -> (made: Result<
        ServerInstruments,
        prometheus::Error,
    >)
        ensures
            made matches Ok(instruments) ==> instruments.made_for_a_server(),
    {
        let calls_total = match register_counter(registry, Instrument::CallsTotal) {
            Ok(family) => family,
            Err(error) => {
                return Err(error);
            },
        };
        let calls_concurrent = match register_gauge(registry, Instrument::CallsConcurrent) {
            Ok(family) => family,
            Err(error) => {
                return Err(error);
            },
        };
        let started = match register_counter(registry, Instrument::ServerStarted) {
            Ok(family) => family,
            Err(error) => {
                return Err(error);
            },
        };
        let handled = match register_counter(registry, Instrument::ServerHandled) {
            Ok(family) => family,
            Err(error) => {
                return Err(error);
            },
        };
        Ok(ServerInstruments { calls_total, calls_concurrent, started, handled })
    }

    /// Records `observation` in the instrument it names, if that is one of
    /// these and the observation fits it. Says whether it did: a latency,
    /// an observation for another instrument and an ill-formed one are left
    /// alone.
    pub fn record(&self, observation: &Observation) -> (recorded: bool)
        ensures
            recorded == server_records(observation.deep_view()),
    {
        proof {
            use_type_invariant(self);
        }
        if !observation.is_well_formed() {
            return false;
        }
        match observation.instrument {
            Instrument::CallsTotal => {
                counter_increment(&self.calls_total, &observation.labels);
                true
            },
            Instrument::ServerStarted => {
                counter_increment(&self.started, &observation.labels);
                true
            },
            Instrument::ServerHandled => {
                counter_increment(&self.handled, &observation.labels);
                true
            },
            Instrument::CallsConcurrent => {
                match observation.action {
                    Action::Decrement => gauge_decrement(
                        &self.calls_concurrent,
                        &observation.labels,
                    ),
                    _ => gauge_increment(&self.calls_concurrent, &observation.labels),
                }
                true
            },
            _ => false,
        }
    }
}

impl ClientInstruments {
    #[verifier::type_invariant]
    spec fn well_made(self) -> bool {
        self.made_for_a_client()
    }

    /// The family kept for `grpc_client_started_total`.
    pub closed spec fn started(self) -> CounterFamily {
        self.started
    }

    /// The family kept for `grpc_client_handled_total`.
    pub closed spec fn handled(self) -> CounterFamily {
        self.handled
    }

    /// Whether each family was made with the name, the help text and the
    /// labels of the instrument it is kept for.
    pub open spec fn made_for_a_client(self) -> bool {
        &&& counter_made_for(self.started(), Instrument::ClientStarted)
        &&& counter_made_for(self.handled(), Instrument::ClientHandled)
    }

    /// Makes the counters of a client, each with the name, the help text and
    /// the labels of its instrument, and registers them in `registry`.
    /// Making them cannot fail. Whether the registry takes them depends on
    /// what it holds already; this fails with the registry's error at the
    /// first instrument that is refused, and one that was taken before stays
    /// registered.
    pub fn register(registry: &prometheus::Registry) -> (made: Result<
        ClientInstruments,
        prometheus::Error,
    >)
        ensures
            made matches Ok(instruments) ==> instruments.made_for_a_client(),
    {
        let started = match register_counter(registry, Instrument::ClientStarted) {
            Ok(family) => family,
            Err(error) => {
                return Err(error);
            },
        };
        let handled = match register_counter(registry, Instrument::ClientHandled) {
            Ok(family) => family,
            Err(error) => {
                return Err(error);
            },
        };
        Ok(ClientInstruments { started, handled })
    }

    /// Records `observation` in the counter it names, if that is one of
    /// these and the observation fits it. Says whether it did: a latency,
    /// an observation for another instrument and an ill-formed one are left
    /// alone.
    pub fn record(&self, observation: &Observation) -> (recorded: bool)
        ensures
            recorded == client_records(observation.deep_view()),
    {
        proof {
            use_type_invariant(self);
        }
        if !observation.is_well_formed() {
            return false;
        }
        match observation.instrument {
            Instrument::ClientStarted => {
                counter_increment(&self.started, &observation.labels);
                true
            },
            Instrument::ClientHandled => {
                counter_increment(&self.handled, &observation.labels);
                true
            },
            _ => false,
        }
    }
}

} // verus!
