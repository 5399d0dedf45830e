use tonic_prometheus_layer::code::CallOutcome;
use tonic_prometheus_layer::identity::CallIdentity;
use tonic_prometheus_layer::observation::{Action, Instrument, Observation};
use tonic_prometheus_layer::tracker::{Phase, Tracker};
use tonic_prometheus_layer::{
    MetricsChannel, MetricsChannelFuture, MetricsFuture, MetricsLayer, MetricsService,
};

fn observation(instrument: Instrument, labels: &[&str], action: Action) -> Observation {
    Observation { instrument, labels: labels.iter().map(|l| l.to_string()).collect(), action }
}

fn ok() -> CallOutcome {
    CallOutcome::Responded { grpc_status: None }
}

fn status(text: &str) -> CallOutcome {
    CallOutcome::Responded { grpc_status: Some(text.as_bytes().to_vec()) }
}

fn server_call() -> Tracker {
    Tracker::server("POST".to_owned(), "/pkg.Service/Method".to_owned(), Some(12))
}

fn client_call() -> Tracker {
    Tracker::client(CallIdentity::new("pkg.Service".to_owned(), "Method".to_owned()))
}

fn server_started() -> Vec<Observation> {
    vec![
        observation(
            Instrument::CallsConcurrent,
            &["POST", "/pkg.Service/Method"],
            Action::Increment,
        ),
        observation(Instrument::ServerStarted, &["pkg.Service", "Method"], Action::Increment),
    ]
}

fn server_handled(code: &str, nanos: u64) -> Vec<Observation> {
    vec![
        observation(Instrument::CallsTotal, &["POST", "/pkg.Service/Method"], Action::Increment),
        observation(
            Instrument::ServerHandled,
            &["pkg.Service", "Method", code],
            Action::Increment,
        ),
        observation(
            Instrument::CallsDuration,
            &["POST", "/pkg.Service/Method"],
            Action::Record { nanos },
        ),
        observation(
            Instrument::ServerHandling,
            &["pkg.Service", "Method", code],
            Action::Record { nanos },
        ),
        observation(
            Instrument::CallsConcurrent,
            &["POST", "/pkg.Service/Method"],
            Action::Decrement,
        ),
    ]
}

#[test]
fn a_new_call_is_not_started() {
    assert_eq!(server_call().phase(), Phase::NotStarted);
    assert_eq!(client_call().phase(), Phase::NotStarted);
    assert_eq!(
        server_call().identity(),
        &CallIdentity { service: "pkg.Service".to_owned(), method: "Method".to_owned() }
    );
}

#[test]
fn first_progress_of_a_server_call_counts_it_as_started() {
    let mut call = server_call();
    assert_eq!(call.on_poll(100), server_started());
    assert_eq!(call.phase(), Phase::InFlight { started_at: 100 });
}

#[test]
fn first_progress_of_a_client_call_counts_it_as_started() {
    let mut call = client_call();
    assert_eq!(
        call.on_poll(7),
        vec![observation(Instrument::ClientStarted, &["pkg.Service", "Method"], Action::Increment)]
    );
    assert_eq!(call.phase(), Phase::InFlight { started_at: 7 });
}

#[test]
fn later_progress_gives_nothing_and_keeps_the_start() {
    let mut call = server_call();
    assert_eq!(call.on_poll(100).len(), 2);
    for now in [101, 150, 99, u64::MAX] {
        assert_eq!(call.on_poll(now), Vec::new());
        assert_eq!(call.phase(), Phase::InFlight { started_at: 100 });
    }
}

#[test]
fn a_server_call_that_resolves_is_counted_as_handled() {
    let mut call = server_call();
    call.on_poll(100);
    call.on_poll(130);
    assert_eq!(call.on_ready(175, &ok()), server_handled("Ok", 75));
    assert_eq!(call.phase(), Phase::Completed);
}

#[test]
fn a_client_call_that_resolves_is_counted_as_handled() {
    let mut call = client_call();
    call.on_poll(1_000);
    assert_eq!(
        call.on_ready(4_500, &status("5")),
        vec![
            observation(
                Instrument::ClientHandled,
                &["pkg.Service", "Method", "NotFound"],
                Action::Increment
            ),
            observation(
                Instrument::ClientHandling,
                &["pkg.Service", "Method", "NotFound"],
                Action::Record { nanos: 3_500 }
            ),
        ]
    );
    assert_eq!(call.phase(), Phase::Completed);
}

#[test]
fn the_status_label_follows_the_outcome() {
    let outcomes = [
        (ok(), "Ok"),
        (status("0"), "Ok"),
        (status("5"), "NotFound"),
        (status("16"), "Unauthenticated"),
        (status("17"), "Unknown"),
        (status(""), "Unknown"),
        (CallOutcome::Failed, "Unknown"),
    ];
    for (outcome, code) in outcomes {
        let mut call = server_call();
        call.on_poll(0);
        assert_eq!(call.on_ready(1, &outcome), server_handled(code, 1));
    }
}

#[test]
fn the_latency_runs_from_the_first_progress() {
    let mut call = server_call();
    call.on_poll(1_000);
    call.on_poll(2_000);
    call.on_poll(3_000);
    assert_eq!(call.on_ready(3_250, &ok()), server_handled("Ok", 2_250));

    let mut at_once = server_call();
    at_once.on_poll(5);
    assert_eq!(at_once.on_ready(5, &ok()), server_handled("Ok", 0));

    let mut long = server_call();
    long.on_poll(0);
    assert_eq!(long.on_ready(u64::MAX, &ok()), server_handled("Ok", u64::MAX));
}

#[test]
fn a_clock_that_reads_less_gives_no_latency() {
    let mut call = server_call();
    call.on_poll(500);
    assert_eq!(call.on_ready(499, &ok()), server_handled("Ok", 0));
}

#[test]
fn a_call_that_was_never_driven_cannot_complete() {
    let mut call = server_call();
    assert_eq!(call.on_ready(10, &ok()), Vec::new());
    assert_eq!(call.phase(), Phase::NotStarted);
    assert_eq!(call.on_poll(20), server_started());
    assert_eq!(call.on_ready(30, &ok()), server_handled("Ok", 10));
}

#[test]
fn a_completed_call_gives_nothing_more() {
    let mut call = server_call();
    call.on_poll(1);
    call.on_ready(2, &ok());
    assert_eq!(call.on_poll(3), Vec::new());
    assert_eq!(call.on_ready(4, &status("5")), Vec::new());
    assert_eq!(call.on_poll(5), Vec::new());
    assert_eq!(call.phase(), Phase::Completed);
}

#[test]
fn an_abandoned_call_stays_counted_as_started_only() {
    let mut call = client_call();
    let mut seen = Vec::new();
    for now in 0..10 {
        seen.extend(call.on_poll(now));
    }
    assert_eq!(
        seen,
        vec![observation(Instrument::ClientStarted, &["pkg.Service", "Method"], Action::Increment)]
    );
    assert_eq!(call.phase(), Phase::InFlight { started_at: 0 });
}

#[test]
fn every_observation_of_a_call_fits_its_instrument() {
    let mut server = server_call();
    let mut client = client_call();
    let mut seen = server.on_poll(1);
    seen.extend(server.on_ready(2, &status("13")));
    seen.extend(client.on_poll(1));
    seen.extend(client.on_ready(2, &CallOutcome::Failed));
    assert_eq!(seen.len(), 10);
    for observation in seen {
        assert!(observation.is_well_formed());
        assert_eq!(observation.labels.len(), observation.instrument.label_names().len());
    }
}

#[test]
fn a_server_call_without_separator_is_counted_under_its_path() {
    let mut call = Tracker::server("GET".to_owned(), "/healthz".to_owned(), None);
    assert_eq!(
        call.on_poll(0),
        vec![
            observation(Instrument::CallsConcurrent, &["GET", "/healthz"], Action::Increment),
            observation(Instrument::ServerStarted, &["", "/healthz"], Action::Increment),
        ]
    );
}

#[test]
fn the_service_takes_up_a_call_under_the_names_in_its_path() {
    let service: MetricsService<u8> = MetricsLayer::new().layer(7);
    assert_eq!(*service.get_ref(), 7);
    let mut future = service.call("POST".to_owned(), "/pkg.Service/Method".to_owned(), "inner");
    assert_eq!(future.phase(), Phase::NotStarted);
    assert_eq!(future.on_poll(100), server_started());
    assert_eq!(*future.get_mut(), "inner");
    assert_eq!(future.on_ready(175, &ok()), server_handled("Ok", 75));
    assert_eq!(future.phase(), Phase::Completed);
    assert_eq!(service.into_inner(), 7);
}

#[test]
fn the_service_keeps_a_path_without_names_whole() {
    let service = MetricsLayer::default().layer(());
    for path in ["noslash", "/onlyservice"] {
        let mut future = service.call("GET".to_owned(), path.to_owned(), ());
        assert_eq!(
            future.on_poll(0),
            vec![
                observation(Instrument::CallsConcurrent, &["GET", path], Action::Increment),
                observation(Instrument::ServerStarted, &["", path], Action::Increment),
            ]
        );
    }
}

#[test]
fn the_wrapped_service_can_be_changed() {
    let mut service = MetricsLayer::new().layer(1);
    *service.get_mut() += 1;
    assert_eq!(*service.get_ref(), 2);
}

#[test]
fn a_server_future_is_cut_where_it_is_told() {
    let mut future =
        MetricsFuture::new("POST".to_owned(), "/pkg.Service/Method".to_owned(), Some(4), ());
    let started = future.on_poll(0);
    assert_eq!(
        started[1],
        observation(Instrument::ServerStarted, &["pkg", "Service/Method"], Action::Increment)
    );
    let mut whole =
        MetricsFuture::new("POST".to_owned(), "/pkg.Service/Method".to_owned(), Some(99), ());
    assert_eq!(
        whole.on_poll(0)[1],
        observation(Instrument::ServerStarted, &["", "/pkg.Service/Method"], Action::Increment)
    );
}

#[test]
fn a_server_future_parts_into_tracker_and_call() {
    let mut future =
        MetricsFuture::new("POST".to_owned(), "/pkg.Service/Method".to_owned(), Some(12), 41);
    future.on_poll(100);
    let (mut tracker, inner) = future.into_parts();
    assert_eq!(inner, 41);
    assert_eq!(tracker.phase(), Phase::InFlight { started_at: 100 });
    assert_eq!(tracker.on_ready(110, &ok()), server_handled("Ok", 10));
}

#[test]
fn the_channel_takes_up_a_call_under_the_names_in_its_metadata() {
    let mut channel = MetricsChannel::new(3);
    *channel.get_mut() += 1;
    assert_eq!(*channel.get_ref(), 4);
    let named = Some(("pkg.Service".to_owned(), "Method".to_owned()));
    let mut future = channel.call(named, "inner");
    assert_eq!(
        future.on_poll(0),
        vec![observation(Instrument::ClientStarted, &["pkg.Service", "Method"], Action::Increment)]
    );
    assert_eq!(*future.get_mut(), "inner");
    assert_eq!(future.phase(), Phase::InFlight { started_at: 0 });
}

#[test]
fn the_channel_counts_a_call_without_metadata_under_empty_names() {
    let channel = MetricsChannel::new(());
    let mut future = channel.call(None, ());
    assert_eq!(
        future.on_poll(0),
        vec![observation(Instrument::ClientStarted, &["", ""], Action::Increment)]
    );
    assert_eq!(
        future.on_ready(9, &CallOutcome::Failed),
        vec![
            observation(Instrument::ClientHandled, &["", "", "Unknown"], Action::Increment),
            observation(
                Instrument::ClientHandling,
                &["", "", "Unknown"],
                Action::Record { nanos: 9 }
            ),
        ]
    );
}

#[test]
fn a_client_future_parts_into_tracker_and_call() {
    let future = MetricsChannelFuture::new("s".to_owned(), "m".to_owned(), 5);
    assert_eq!(future.phase(), Phase::NotStarted);
    let (mut tracker, inner) = future.into_parts();
    assert_eq!(inner, 5);
    assert_eq!(
        tracker.on_poll(0),
        vec![observation(Instrument::ClientStarted, &["s", "m"], Action::Increment)]
    );
}

#[test]
fn two_calls_with_the_same_labels_are_each_counted() {
    let mut first = client_call();
    let mut second = client_call();
    let mut seen = Vec::new();
    seen.extend(first.on_poll(0));
    seen.extend(second.on_poll(1));
    seen.extend(second.on_poll(2));
    seen.extend(first.on_poll(3));
    seen.extend(second.on_ready(4, &ok()));
    seen.extend(first.on_ready(5, &ok()));
    let started =
        observation(Instrument::ClientStarted, &["pkg.Service", "Method"], Action::Increment);
    let handled = observation(
        Instrument::ClientHandled,
        &["pkg.Service", "Method", "Ok"],
        Action::Increment,
    );
    assert_eq!(seen.iter().filter(|o| **o == started).count(), 2);
    assert_eq!(seen.iter().filter(|o| **o == handled).count(), 2);
    let first_handled = seen.iter().position(|o| *o == handled).unwrap();
    assert_eq!(seen[..first_handled].iter().filter(|o| **o == started).count(), 2);
}
