//! What holds of every tracked call, whatever drives it.
//!
//! The laws speak of the observations that trackers hand back. Recorded in
//! their order, each `Increment` raises its series by one and each
//! `Decrement` lowers it by one: the number of times an observation occurs
//! is the amount by which its series moves.

use vstd::prelude::*;
use crate::code::{code_of_number, status_of, Code, OutcomeModel};
use crate::identity::{identity_of, lemma_separator_of, separator_of, IdentityModel};
use crate::metrics::{in_effect, initialized, GlobalSettings, MetricsError};
use crate::observation::{Action, Instrument, Sample};
use crate::tracker::{elapsed_nanos, Event, Phase, TrackerModel};

verus! {

/// How many of `samples` are counted by `counted`.
pub open spec fn tally(samples: Seq<Sample>, counted: spec_fn(Sample) -> bool) -> nat
    decreases samples.len(),
{
    if samples.len() == 0 {
        0
    } else {
        tally(samples.drop_last(), counted) + one_if(counted(samples.last()))
    }
}

/// One where `counted` holds, nothing where it does not.
pub open spec fn one_if(counted: bool) -> nat {
    if counted {
        1
    } else {
        0
    }
}

/// Counts the observations that are equal to `sample`.
pub open spec fn same_as(sample: Sample) -> spec_fn(Sample) -> bool {
    |other: Sample| other == sample
}

/// Whether `sample` counts a call of `call`'s side, service and method as
/// handled, with whatever status code.
pub open spec fn handles(call: TrackerModel, sample: Sample) -> bool {
    &&& sample.instrument == call.handled_instrument()
    &&& sample.action == Action::Increment
    &&& sample.labels.len() == 3
    &&& sample.labels[0] == call.identity.service
    &&& sample.labels[1] == call.identity.method
}

/// Counts the observations that count a call like `call` as handled.
pub open spec fn handled_like(call: TrackerModel) -> spec_fn(Sample) -> bool {
    |sample: Sample| handles(call, sample)
}

/// Counts the observations that count a call like `call` as started.
pub open spec fn started_like(call: TrackerModel) -> spec_fn(Sample) -> bool {
    same_as(call.started_sample())
}

/// Whether every observation among `samples` that counts a call like `call`
/// as handled stands behind one that counts it as started.
pub open spec fn started_before_handled(call: TrackerModel, samples: Seq<Sample>) -> bool {
    forall|j: int|
        0 <= j < samples.len() && handles(call, #[trigger] samples[j]) ==> exists|i: int|
            0 <= i < j && #[trigger] samples[i] == call.started_sample()
}

/// Whether `merged` holds the items of `first` and of `second`, each of the
/// two in its own order, and nothing else.
pub open spec fn interleaves(merged: Seq<Sample>, first: Seq<Sample>, second: Seq<Sample>) -> bool
    decreases merged.len(),
{
    if merged.len() == 0 {
        first.len() == 0 && second.len() == 0
    } else {
        ||| first.len() > 0 && first.last() == merged.last() && interleaves(
            merged.drop_last(),
            first.drop_last(),
            second,
        )
        ||| second.len() > 0 && second.last() == merged.last() && interleaves(
            merged.drop_last(),
            first,
            second.drop_last(),
        )
    }
}

/// Whether every one of `events` is a `Progress`.
pub open spec fn only_progress(events: Seq<Event>) -> bool {
    forall|i: int| 0 <= i < events.len() ==> events[i] is Progress
}

/// A tally over two runs of observations is the sum of the two tallies.
pub proof fn lemma_tally_concat(
    first: Seq<Sample>,
    second: Seq<Sample>,
    counted: spec_fn(Sample) -> bool,
)
    ensures
        tally(first + second, counted) == tally(first, counted) + tally(second, counted),
    decreases second.len(),
{
    if second.len() == 0 {
        assert(first + second =~= first);
    } else {
        assert((first + second).drop_last() =~= first + second.drop_last());
        lemma_tally_concat(first, second.drop_last(), counted);
    }
}

/// One more observation adds one to the tally if it is counted.
proof fn lemma_tally_push(samples: Seq<Sample>, latest: Sample, counted: spec_fn(Sample) -> bool)
    ensures
        tally(samples.push(latest), counted) == tally(samples, counted) + one_if(counted(latest)),
{
    assert(samples.push(latest).drop_last() =~= samples);
}

/// Where something is counted, it is there.
proof fn lemma_tally_witness(samples: Seq<Sample>, counted: spec_fn(Sample) -> bool)
    requires
        tally(samples, counted) > 0,
    ensures
        exists|i: int| 0 <= i < samples.len() && counted(samples[i]),
    decreases samples.len(),
{
    if counted(samples.last()) {
        assert(counted(samples[samples.len() - 1]));
    } else {
        lemma_tally_witness(samples.drop_last(), counted);
        let i = choose|i: int| 0 <= i < samples.drop_last().len() && counted(samples.drop_last()[i]);
        assert(counted(samples[i]));
    }
}

/// Where nothing is counted, nothing is there to count.
proof fn lemma_tally_none(samples: Seq<Sample>, counted: spec_fn(Sample) -> bool, at: int)
    requires
        tally(samples, counted) == 0,
        0 <= at < samples.len(),
    ensures
        !counted(samples[at]),
    decreases samples.len(),
{
    if at < samples.len() - 1 {
        lemma_tally_none(samples.drop_last(), counted, at);
    }
}

/// The tally of the observations of a started call, one by one.
proof fn lemma_tally_started(call: TrackerModel, counted: spec_fn(Sample) -> bool)
    ensures
        tally(call.started_samples(), counted) == if call.side is Server {
            one_if(counted(call.concurrent_sample(Action::Increment))) + one_if(
                counted(call.started_sample()),
            )
        } else {
            one_if(counted(call.started_sample()))
        },
{
    let none = Seq::<Sample>::empty();
    if call.side is Server {
        let first = call.concurrent_sample(Action::Increment);
        lemma_tally_push(none, first, counted);
        lemma_tally_push(none.push(first), call.started_sample(), counted);
        assert(call.started_samples() =~= none.push(first).push(call.started_sample()));
    } else {
        lemma_tally_push(none, call.started_sample(), counted);
        assert(call.started_samples() =~= none.push(call.started_sample()));
    }
}

/// The tally of the observations of a handled call, one by one.
proof fn lemma_tally_handled(
    call: TrackerModel,
    code: Code,
    nanos: u64,
    counted: spec_fn(Sample) -> bool,
)
    ensures
        tally(call.handled_samples(code, nanos), counted) == if call.side is Server {
            one_if(counted(call.handled_samples(code, nanos)[0])) + one_if(
                counted(call.handled_sample(code)),
            ) + one_if(counted(call.handled_samples(code, nanos)[2])) + one_if(
                counted(call.latency_sample(code, nanos)),
            ) + one_if(counted(call.concurrent_sample(Action::Decrement)))
        } else {
            one_if(counted(call.handled_sample(code))) + one_if(
                counted(call.latency_sample(code, nanos)),
            )
        },
{
    let all = call.handled_samples(code, nanos);
    let none = Seq::<Sample>::empty();
    if call.side is Server {
        let one = none.push(all[0]);
        let two = one.push(all[1]);
        let three = two.push(all[2]);
        let four = three.push(all[3]);
        lemma_tally_push(none, all[0], counted);
        lemma_tally_push(one, all[1], counted);
        lemma_tally_push(two, all[2], counted);
        lemma_tally_push(three, all[3], counted);
        lemma_tally_push(four, all[4], counted);
        assert(all =~= four.push(all[4]));
    } else {
        let one = none.push(all[0]);
        lemma_tally_push(none, all[0], counted);
        lemma_tally_push(one, all[1], counted);
        assert(all =~= one.push(all[1]));
    }
}

/// What `latest` counts for a call like `call`: as started, as handled, into
/// the calls in flight and out of them.
spec fn counts_of_step(call: TrackerModel, latest: Seq<Sample>) -> (nat, nat, nat, nat) {
    (
        tally(latest, started_like(call)),
        tally(latest, handled_like(call)),
        tally(latest, same_as(call.concurrent_sample(Action::Increment))),
        tally(latest, same_as(call.concurrent_sample(Action::Decrement))),
    )
}

/// What one event does to a call like `call`: to its phase, and to what is
/// counted as started, as handled, and into and out of the calls in flight.
proof fn lemma_step(call: TrackerModel, now_at: TrackerModel, event: Event)
    requires
        now_at.side == call.side,
        now_at.identity == call.identity,
    ensures
        ({
            let (after, latest) = now_at.step(event);
            let starts = now_at.phase is NotStarted && event is Progress;
            let completes = now_at.phase is InFlight && event is Resolved;
            &&& after.side == call.side
            &&& after.identity == call.identity
            &&& after.phase == if starts {
                Phase::InFlight { started_at: event->Progress_now }
            } else if completes {
                Phase::Completed
            } else {
                now_at.phase
            }
            &&& counts_of_step(call, latest) == (
                one_if(starts),
                one_if(completes),
                one_if(starts && call.side is Server),
                one_if(completes && call.side is Server),
            )
        }),
{
    let (after, latest) = now_at.step(event);
    let started = started_like(call);
    let handled = handled_like(call);
    let counted_in = same_as(call.concurrent_sample(Action::Increment));
    let counted_out = same_as(call.concurrent_sample(Action::Decrement));
    assert(now_at.started_sample() == call.started_sample());
    assert(now_at.concurrent_sample(Action::Increment) == call.concurrent_sample(
        Action::Increment,
    ));
    assert(now_at.concurrent_sample(Action::Decrement) == call.concurrent_sample(
        Action::Decrement,
    ));
    if now_at.phase is NotStarted && event is Progress {
        lemma_tally_started(now_at, started);
        lemma_tally_started(now_at, handled);
        lemma_tally_started(now_at, counted_in);
        lemma_tally_started(now_at, counted_out);
    } else if now_at.phase is InFlight && event is Resolved {
        let code = status_of(event->Resolved_outcome);
        let nanos = elapsed_nanos(now_at.phase->InFlight_started_at, event->Resolved_now);
        lemma_tally_handled(now_at, code, nanos, started);
        lemma_tally_handled(now_at, code, nanos, handled);
        lemma_tally_handled(now_at, code, nanos, counted_in);
        lemma_tally_handled(now_at, code, nanos, counted_out);
        assert(now_at.handled_sample(code).labels.len() == 3);
    } else {
        assert(latest =~= Seq::<Sample>::empty());
    }
}

/// Observations that keep the order stay in order when more are added
/// behind them, as long as those count the call as handled only where it
/// has been counted as started.
proof fn lemma_order_extends(call: TrackerModel, earlier: Seq<Sample>, latest: Seq<Sample>)
    requires
        started_before_handled(call, earlier),
        tally(latest, handled_like(call)) > 0 ==> tally(earlier, started_like(call)) > 0,
    ensures
        started_before_handled(call, earlier + latest),
{
    let samples = earlier + latest;
    assert forall|j: int|
        0 <= j < samples.len() && handles(call, #[trigger] samples[j]) implies exists|i: int|
        0 <= i < j && #[trigger] samples[i] == call.started_sample() by {
        if j < earlier.len() {
            assert(samples[j] == earlier[j]);
            let i = choose|i: int| 0 <= i < j && #[trigger] earlier[i] == call.started_sample();
            assert(samples[i] == earlier[i]);
        } else {
            let k = j - earlier.len();
            assert(samples[j] == latest[k]);
            if tally(latest, handled_like(call)) == 0 {
                lemma_tally_none(latest, handled_like(call), k);
            }
            lemma_tally_witness(earlier, started_like(call));
            let i = choose|i: int| 0 <= i < earlier.len() && started_like(call)(earlier[i]);
            assert(samples[i] == earlier[i]);
        }
    }
}

/// What a run of events has counted, by the phase in which it ends.
proof fn lemma_run(call: TrackerModel, events: Seq<Event>)
    requires
        call.phase is NotStarted,
    ensures
        ({
            let (end, samples) = call.run(events);
            &&& end.side == call.side
            &&& end.identity == call.identity
            &&& counts_of_step(call, samples) == (
                one_if(!(end.phase is NotStarted)),
                one_if(end.phase is Completed),
                one_if(!(end.phase is NotStarted) && call.side is Server),
                one_if(end.phase is Completed && call.side is Server),
            )
            &&& started_before_handled(call, samples)
        }),
    decreases events.len(),
{
    if events.len() > 0 {
        let (before, earlier) = call.run(events.drop_last());
        let (after, latest) = before.step(events.last());
        lemma_run(call, events.drop_last());
        lemma_step(call, before, events.last());
        lemma_tally_concat(earlier, latest, started_like(call));
        lemma_tally_concat(earlier, latest, handled_like(call));
        lemma_tally_concat(earlier, latest, same_as(call.concurrent_sample(Action::Increment)));
        lemma_tally_concat(earlier, latest, same_as(call.concurrent_sample(Action::Decrement)));
        lemma_order_extends(call, earlier, latest);
    }
}

/// Whatever drives a call, and however often: the call is counted as
/// started exactly once from the moment it is first driven, as handled
/// exactly once from the moment it completes, and never as handled before
/// it was counted as started. Its labels stay what they were.
pub proof fn law_counted_once_started_before_handled(call: TrackerModel, events: Seq<Event>)
    requires
        call.phase is NotStarted,
    ensures
        ({
            let (end, samples) = call.run(events);
            &&& end.side == call.side
            &&& end.identity == call.identity
            &&& tally(samples, started_like(call)) == if end.phase is NotStarted {
                0nat
            } else {
                1nat
            }
            &&& tally(samples, handled_like(call)) == if end.phase is Completed {
                1nat
            } else {
                0nat
            }
            &&& started_before_handled(call, samples)
        }),
{
    lemma_run(call, events);
}

/// The gauge of a server counts the calls in flight: whatever drives a
/// call, it is counted in once when it is first driven and out once when it
/// completes, so that it weighs one while it is in flight and nothing
/// before and after.
pub proof fn law_gauge_counts_calls_in_flight(call: TrackerModel, events: Seq<Event>)
    requires
        call.phase is NotStarted,
        call.side is Server,
    ensures
        ({
            let (end, samples) = call.run(events);
            let counted_in = tally(samples, same_as(call.concurrent_sample(Action::Increment)));
            let counted_out = tally(samples, same_as(call.concurrent_sample(Action::Decrement)));
            &&& counted_in == if end.phase is NotStarted {
                0nat
            } else {
                1nat
            }
            &&& counted_out == if end.phase is Completed {
                1nat
            } else {
                0nat
            }
            &&& counted_in - counted_out == if end.phase is InFlight {
                1int
            } else {
                0int
            }
        }),
{
    lemma_run(call, events);
}

/// Every observation that a call gives fits its instrument: it has as many
/// label values as the instrument has labels, and does what an instrument
/// of that kind can do.
pub proof fn law_observations_fit_their_instruments(call: TrackerModel, events: Seq<Event>)
    ensures
        forall|i: int|
            0 <= i < call.run(events).1.len() ==> (#[trigger] call.run(events).1[i]).well_formed(),
    decreases events.len(),
{
    if events.len() > 0 {
        let (before, earlier) = call.run(events.drop_last());
        let (after, latest) = before.step(events.last());
        law_observations_fit_their_instruments(call, events.drop_last());
        assert forall|k: int| 0 <= k < latest.len() implies (#[trigger] latest[k]).well_formed() by {
            lemma_step_fits(before, events.last(), k);
        }
        assert forall|i: int| 0 <= i < (earlier + latest).len() implies (#[trigger] (earlier
            + latest)[i]).well_formed() by {
            if i < earlier.len() {
                assert((earlier + latest)[i] == earlier[i]);
            } else {
                assert((earlier + latest)[i] == latest[i - earlier.len()]);
            }
        }
    }
}

/// Every observation of one event fits its instrument.
proof fn lemma_step_fits(call: TrackerModel, event: Event, at: int)
    requires
        0 <= at < call.step(event).1.len(),
    ensures
        call.step(event).1[at].well_formed(),
{
}

/// A call that is driven, perhaps many times, and then dropped before it
/// resolves is counted as started, once, and never as handled: all that is
/// observed of it is what its first progress gave.
pub proof fn law_abandoned_call_counts_as_started_only(call: TrackerModel, events: Seq<Event>)
    requires
        call.phase is NotStarted,
        events.len() > 0,
        only_progress(events),
    ensures
        call.run(events) == (
            call.in_phase(Phase::InFlight { started_at: events[0]->Progress_now }),
            call.started_samples(),
        ),
        tally(call.started_samples(), started_like(call)) == 1,
        tally(call.started_samples(), handled_like(call)) == 0,
    decreases events.len(),
{
    let first = Event::Progress { now: events[0]->Progress_now };
    lemma_step(call, call, first);
    if events.len() == 1 {
        assert(events.drop_last().len() == 0);
        assert(call.run(events.drop_last()) == (call, Seq::<Sample>::empty()));
        assert(Seq::<Sample>::empty() + call.started_samples() =~= call.started_samples());
    } else {
        law_abandoned_call_counts_as_started_only(call, events.drop_last());
        assert(call.started_samples() + Seq::<Sample>::empty() =~= call.started_samples());
    }
}

/// A call that is driven until it resolves gives the observations of a
/// started call and then those of a handled call, each once: it is counted
/// as started before it is counted as handled, under the same service and
/// method, with the status of its outcome and the time since it was first
/// driven.
pub proof fn law_completed_call(
    call: TrackerModel,
    polls: Seq<Event>,
    now: u64,
    outcome: OutcomeModel,
)
    requires
        call.phase is NotStarted,
        polls.len() > 0,
        only_progress(polls),
    ensures
        call.run(polls.push(Event::Resolved { now, outcome })) == (
            call.in_phase(Phase::Completed),
            call.started_samples() + call.handled_samples(
                status_of(outcome),
                elapsed_nanos(polls[0]->Progress_now, now),
            ),
        ),
{
    let events = polls.push(Event::Resolved { now, outcome });
    assert(events.drop_last() =~= polls);
    law_abandoned_call_counts_as_started_only(call, polls);
}

/// Observations of two calls, recorded in any order that keeps each call's
/// own order, count what the two calls count together: nothing is lost.
pub proof fn law_interleaving_loses_no_count(
    merged: Seq<Sample>,
    first: Seq<Sample>,
    second: Seq<Sample>,
    counted: spec_fn(Sample) -> bool,
)
    requires
        interleaves(merged, first, second),
    ensures
        tally(merged, counted) == tally(first, counted) + tally(second, counted),
    decreases merged.len(),
{
    if merged.len() > 0 {
        if first.len() > 0 && first.last() == merged.last() && interleaves(
            merged.drop_last(),
            first.drop_last(),
            second,
        ) {
            law_interleaving_loses_no_count(merged.drop_last(), first.drop_last(), second, counted);
        } else {
            law_interleaving_loses_no_count(merged.drop_last(), first, second.drop_last(), counted);
        }
    }
}

/// Two calls with the same labels, driven side by side: however their
/// observations fall among each other, each call that was driven raises the
/// started count by one, and each that completed raises the handled count
/// by one. Two completed calls leave both counts at two.
pub proof fn law_concurrent_calls_are_both_counted(
    first: TrackerModel,
    second: TrackerModel,
    first_events: Seq<Event>,
    second_events: Seq<Event>,
    merged: Seq<Sample>,
)
    requires
        first.phase is NotStarted,
        second.phase is NotStarted,
        first.side == second.side,
        first.identity == second.identity,
        interleaves(merged, first.run(first_events).1, second.run(second_events).1),
    ensures
        ({
            let first_end = first.run(first_events).0.phase;
            let second_end = second.run(second_events).0.phase;
            &&& tally(merged, started_like(first)) == one_if(!(first_end is NotStarted)) + one_if(
                !(second_end is NotStarted),
            )
            &&& tally(merged, handled_like(first)) == one_if(first_end is Completed) + one_if(
                second_end is Completed,
            )
            &&& first_end is Completed && second_end is Completed ==> tally(
                merged,
                started_like(first),
            ) == 2 && tally(merged, handled_like(first)) == 2
        }),
{
    assert(first == second);
    lemma_run(first, first_events);
    lemma_run(second, second_events);
    let first_samples = first.run(first_events).1;
    let second_samples = second.run(second_events).1;
    law_interleaving_loses_no_count(merged, first_samples, second_samples, started_like(first));
    law_interleaving_loses_no_count(merged, first_samples, second_samples, handled_like(first));
}

/// Service and method are the two parts of the path: a path with a
/// separator is a `/`, the service, a `/` and the method, and the service
/// holds no `/`. A path without one is the method, whole, of no service.
pub proof fn law_identity_keeps_the_path(path: Seq<char>)
    ensures
        ({
            let identity = identity_of(path);
            match separator_of(path) {
                Some(at) => {
                    &&& path == seq!['/'] + identity.service + seq!['/'] + identity.method
                    &&& identity.service.len() == at - 1
                    &&& forall|i: int| 0 <= i < identity.service.len() ==> identity.service[i] != '/'
                },
                None => identity == (IdentityModel { service: Seq::empty(), method: path }),
            }
        }),
{
    lemma_separator_of(path);
    let identity = identity_of(path);
    match separator_of(path) {
        Some(at) => {
            assert(path =~= seq!['/'] + identity.service + seq!['/'] + identity.method);
            assert forall|i: int| 0 <= i < identity.service.len() implies identity.service[i]
                != '/' by {
                assert(identity.service[i] == path[i + 1]);
            }
        },
        None => {},
    }
}

/// Settings are set once. Whatever a cell holds, after one initialization
/// a second one is refused with `AlreadyInitialized` and changes nothing:
/// the settings in effect, and with them the bucket boundaries of every
/// histogram made from then on, are those they were before. In a cell that
/// was empty they are the first ones.
pub proof fn law_settings_are_set_once<B>(
    current: Option<GlobalSettings<B>>,
    first: GlobalSettings<B>,
    second: GlobalSettings<B>,
    default: GlobalSettings<B>,
)
    ensures
        ({
            let (after_first, first_answer) = initialized(current, first);
            let (after_second, second_answer) = initialized(after_first, second);
            &&& second_answer == Err::<(), MetricsError>(MetricsError::AlreadyInitialized)
            &&& after_second == after_first
            &&& in_effect(after_second, default) == in_effect(after_first, default)
            &&& current is None ==> first_answer == Ok::<(), MetricsError>(()) && in_effect(
                after_second,
                default,
            ) == first && in_effect(after_second, default).histogram_buckets
                == first.histogram_buckets
        }),
{
}

/// Settings that have been read stay. Once the settings in effect have been
/// put into the cell, as reading does, every initialization is refused and
/// the same settings stay in effect.
pub proof fn law_settings_stay_once_read<B>(
    current: Option<GlobalSettings<B>>,
    default: GlobalSettings<B>,
    later: GlobalSettings<B>,
    later_default: GlobalSettings<B>,
)
    ensures
        ({
            let read = in_effect(current, default);
            let (after, answer) = initialized(Some(read), later);
            &&& answer == Err::<(), MetricsError>(MetricsError::AlreadyInitialized)
            &&& in_effect(after, later_default) == read
        }),
{
}

/// Every status code is the code of its number, and the numbers run from 0
/// to 16.
pub proof fn law_every_code_has_its_number(code: Code)
    ensures
        0 <= code.number() <= 16,
        code_of_number(code.number()) == code,
{
}

/// No two status codes share a label: calls that ended differently are
/// never counted in the same series.
pub proof fn law_code_labels_are_distinct(first: Code, second: Code)
    ensures
        first.label() == second.label() ==> first == second,
{
    reveal_strlit("Ok");
    reveal_strlit("Cancelled");
    reveal_strlit("Unknown");
    reveal_strlit("InvalidArgument");
    reveal_strlit("DeadlineExceeded");
    reveal_strlit("NotFound");
    reveal_strlit("AlreadyExists");
    reveal_strlit("PermissionDenied");
    reveal_strlit("ResourceExhausted");
    reveal_strlit("FailedPrecondition");
    reveal_strlit("Aborted");
    reveal_strlit("OutOfRange");
    reveal_strlit("Unimplemented");
    reveal_strlit("Internal");
    reveal_strlit("Unavailable");
    reveal_strlit("DataLoss");
    reveal_strlit("Unauthenticated");
    if first.label() == second.label() {
        assert(first.label().len() == second.label().len());
        assert(first.label()[0] == second.label()[0]);
    }
}

/// No two instruments share a name.
pub proof fn law_instrument_names_are_distinct(first: Instrument, second: Instrument)
    ensures
        first.spec_name() == second.spec_name() ==> first == second,
{
    reveal_strlit("function_calls_total");
    reveal_strlit("function_calls_duration_seconds");
    reveal_strlit("function_calls_concurrent");
    reveal_strlit("grpc_server_started_total");
    reveal_strlit("grpc_server_handled_total");
    reveal_strlit("grpc_server_handling_seconds");
    reveal_strlit("grpc_client_started_total");
    reveal_strlit("grpc_client_handled_total");
    reveal_strlit("grpc_client_handling_seconds");
    if first.spec_name() == second.spec_name() {
        assert(first.spec_name().len() == second.spec_name().len());
        assert(first.spec_name()[0] == second.spec_name()[0]);
        assert(first.spec_name()[5] == second.spec_name()[5]);
        assert(first.spec_name()[12] == second.spec_name()[12]);
    }
}

} // verus!
