use tonic_prometheus_layer::code::{classify, CallOutcome, Code};

const ALL: [(i32, Code, &str); 17] = [
    (0, Code::Okay, "Ok"),
    (1, Code::Cancelled, "Cancelled"),
    (2, Code::Unknown, "Unknown"),
    (3, Code::InvalidArgument, "InvalidArgument"),
    (4, Code::DeadlineExceeded, "DeadlineExceeded"),
    (5, Code::NotFound, "NotFound"),
    (6, Code::AlreadyExists, "AlreadyExists"),
    (7, Code::PermissionDenied, "PermissionDenied"),
    (8, Code::ResourceExhausted, "ResourceExhausted"),
    (9, Code::FailedPrecondition, "FailedPrecondition"),
    (10, Code::Aborted, "Aborted"),
    (11, Code::OutOfRange, "OutOfRange"),
    (12, Code::Unimplemented, "Unimplemented"),
    (13, Code::Internal, "Internal"),
    (14, Code::Unavailable, "Unavailable"),
    (15, Code::DataLoss, "DataLoss"),
    (16, Code::Unauthenticated, "Unauthenticated"),
];

#[test]
fn every_code_has_its_number_and_name() {
    for (number, code, name) in ALL {
        assert_eq!(Code::from_i32(number), code);
        assert_eq!(code.name(), name);
    }
}

#[test]
fn every_code_is_read_from_its_numeral() {
    for (number, code, _) in ALL {
        assert_eq!(Code::from_bytes(format!("{}", number).as_bytes()), code);
    }
}

#[test]
fn a_number_without_a_code_is_unknown() {
    assert_eq!(Code::from_i32(17), Code::Unknown);
    assert_eq!(Code::from_i32(-1), Code::Unknown);
    assert_eq!(Code::from_i32(i32::MAX), Code::Unknown);
    assert_eq!(Code::from_i32(i32::MIN), Code::Unknown);
}

#[test]
fn text_that_is_no_status_is_unknown() {
    let texts: [&[u8]; 14] = [
        b"", b"17", b"20", b"00", b"05", b"016", b"160", b" 5", b"5 ", b"+5", b"-1", b"x", b"1x",
        b"\xff",
    ];
    for text in texts {
        assert_eq!(Code::from_bytes(text), Code::Unknown);
    }
}

#[test]
fn names_are_those_that_tonic_prints() {
    for number in -3..40 {
        let ours = Code::from_i32(number).name();
        let theirs = format!("{:?}", tonic::Code::from_i32(number));
        assert_eq!(ours, theirs);
    }
}

#[test]
fn numbers_are_those_of_tonic() {
    for number in -3..40 {
        let theirs = tonic::Code::from_i32(number);
        assert_eq!(Code::from_i32(number), Code::from_i32(i32::from(theirs)));
    }
}

#[test]
fn short_texts_are_read_as_tonic_reads_them() {
    for first in 0..=255u8 {
        let one = [first];
        let theirs = i32::from(tonic::Code::from_bytes(&one));
        assert_eq!(Code::from_bytes(&one), Code::from_i32(theirs));
        for second in 0..=255u8 {
            let two = [first, second];
            let theirs = i32::from(tonic::Code::from_bytes(&two));
            assert_eq!(Code::from_bytes(&two), Code::from_i32(theirs));
        }
    }
}

#[test]
fn a_response_without_status_is_ok() {
    assert_eq!(classify(&CallOutcome::Responded { grpc_status: None }), Code::Okay);
}

#[test]
fn a_call_without_response_is_unknown() {
    assert_eq!(classify(&CallOutcome::Failed), Code::Unknown);
}

#[test]
fn a_status_in_the_response_is_taken_as_it_is() {
    for (number, code, _) in ALL {
        let text = format!("{}", number).into_bytes();
        assert_eq!(classify(&CallOutcome::Responded { grpc_status: Some(text) }), code);
    }
    let zero = CallOutcome::Responded { grpc_status: Some(b"0".to_vec()) };
    assert_eq!(classify(&zero), Code::Okay);
    let garbled = CallOutcome::Responded { grpc_status: Some(b"not a number".to_vec()) };
    assert_eq!(classify(&garbled), Code::Unknown);
    let empty = CallOutcome::Responded { grpc_status: Some(Vec::new()) };
    assert_eq!(classify(&empty), Code::Unknown);
}
