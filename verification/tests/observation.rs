use tonic_prometheus_layer::observation::{
    label_pair, label_triple, Action, Instrument, Kind, Observation,
};

const ALL: [(Instrument, &str, Kind, &[&str]); 9] = [
    (Instrument::CallsTotal, "function_calls_total", Kind::Counter, &["method", "path"]),
    (
        Instrument::CallsDuration,
        "function_calls_duration_seconds",
        Kind::Histogram,
        &["method", "path"],
    ),
    (Instrument::CallsConcurrent, "function_calls_concurrent", Kind::Gauge, &["method", "path"]),
    (
        Instrument::ServerStarted,
        "grpc_server_started_total",
        Kind::Counter,
        &["grpc_service", "grpc_method"],
    ),
    (
        Instrument::ServerHandled,
        "grpc_server_handled_total",
        Kind::Counter,
        &["grpc_service", "grpc_method", "grpc_code"],
    ),
    (
        Instrument::ServerHandling,
        "grpc_server_handling_seconds",
        Kind::Histogram,
        &["grpc_service", "grpc_method", "grpc_code"],
    ),
    (
        Instrument::ClientStarted,
        "grpc_client_started_total",
        Kind::Counter,
        &["grpc_service", "grpc_method"],
    ),
    (
        Instrument::ClientHandled,
        "grpc_client_handled_total",
        Kind::Counter,
        &["grpc_service", "grpc_method", "grpc_code"],
    ),
    (
        Instrument::ClientHandling,
        "grpc_client_handling_seconds",
        Kind::Histogram,
        &["grpc_service", "grpc_method", "grpc_code"],
    ),
];

#[test]
fn instruments_have_their_names_kinds_and_labels() {
    for (instrument, name, kind, labels) in ALL {
        assert_eq!(instrument.name(), name);
        assert_eq!(instrument.kind(), kind);
        assert_eq!(instrument.label_names(), labels.to_vec());
        assert!(!instrument.help().is_empty());
    }
}

#[test]
fn help_texts_are_those_of_the_instruments() {
    assert_eq!(
        Instrument::ServerStarted.help(),
        "Total number of RPCs started on the server."
    );
    assert_eq!(
        Instrument::ServerHandled.help(),
        "Total number of RPCs completed on the server, regardless of success or failure."
    );
    assert_eq!(Instrument::CallsTotal.help(), Instrument::ServerHandled.help());
    assert_eq!(
        Instrument::CallsDuration.help(),
        "Histogram for tracking function call duration"
    );
    assert_eq!(Instrument::ServerHandling.help(), Instrument::CallsDuration.help());
    assert_eq!(
        Instrument::CallsConcurrent.help(),
        "Gauge for tracking concurrent function calls"
    );
}

#[test]
fn label_values_keep_their_order() {
    assert_eq!(label_pair("a", "b"), vec!["a".to_owned(), "b".to_owned()]);
    assert_eq!(label_triple("a", "b", "c"), vec!["a".to_owned(), "b".to_owned(), "c".to_owned()]);
}

#[test]
fn an_observation_fits_when_labels_and_action_fit() {
    for (instrument, _, kind, labels) in ALL {
        for count in 0..5usize {
            for action in [Action::Increment, Action::Decrement, Action::Record { nanos: 1 }] {
                let values = vec!["v".to_owned(); count];
                let observation = Observation::new(instrument, values, action);
                let fits_kind = match kind {
                    Kind::Counter => action == Action::Increment,
                    Kind::Gauge => action != Action::Record { nanos: 1 },
                    Kind::Histogram => action == Action::Record { nanos: 1 },
                };
                assert_eq!(observation.is_well_formed(), count == labels.len() && fits_kind);
            }
        }
    }
}
