//! gRPC status codes and how the outcome of a call is classified.

use vstd::prelude::*;

verus! {

/// The gRPC status codes, in the order of their numbers, from 0 to 16.
#[derive(Clone, Copy, Debug, PartialEq, Eq, Structural)]
pub enum Code {
    /// The call succeeded; on the wire and in labels this code is written `Ok`.
    Okay,
    Cancelled,
    Unknown,
    InvalidArgument,
    DeadlineExceeded,
    NotFound,
    AlreadyExists,
    PermissionDenied,
    ResourceExhausted,
    FailedPrecondition,
    Aborted,
    OutOfRange,
    Unimplemented,
    Internal,
    Unavailable,
    DataLoss,
    Unauthenticated,
}

/// The code with number `n`; a number that no code has stands for `Unknown`.
pub open spec fn code_of_number(n: int) -> Code {
    if n == 0 {
        Code::Okay
    } else if n == 1 {
        Code::Cancelled
    } else if n == 3 {
        Code::InvalidArgument
    } else if n == 4 {
        Code::DeadlineExceeded
    } else if n == 5 {
        Code::NotFound
    } else if n == 6 {
        Code::AlreadyExists
    } else if n == 7 {
        Code::PermissionDenied
    } else if n == 8 {
        Code::ResourceExhausted
    } else if n == 9 {
        Code::FailedPrecondition
    } else if n == 10 {
        Code::Aborted
    } else if n == 11 {
        Code::OutOfRange
    } else if n == 12 {
        Code::Unimplemented
    } else if n == 13 {
        Code::Internal
    } else if n == 14 {
        Code::Unavailable
    } else if n == 15 {
        Code::DataLoss
    } else if n == 16 {
        Code::Unauthenticated
    } else {
        Code::Unknown
    }
}

/// The number that the text of a `grpc-status` header stands for: the header
/// is read as a decimal numeral from "0" to "16", with no sign, space or
/// leading zero. Every other text stands for 2, the number of `Unknown`.
pub open spec fn status_number(bytes: Seq<u8>) -> int {
    if bytes.len() == 1 && 0x30 <= bytes[0] <= 0x39 {
        bytes[0] - 0x30
    } else if bytes.len() == 2 && bytes[0] == 0x31 && 0x30 <= bytes[1] <= 0x36 {
        10 + (bytes[1] - 0x30)
    } else {
        2
    }
}

/// Parses the text of a `grpc-status` header with `tonic::Code::from_bytes`
/// and gives the number of the code that came back (`i32::from` on a
/// `tonic::Code`).
///
/// Trusted: that tonic reads exactly the numerals "0" to "16" as the codes
/// with these numbers, and everything else as `Unknown`.
#[verifier::external_body]
fn grpc_status_number(bytes: &[u8]) -> (n: i32)
    ensures
        n == status_number(bytes@),
{
    i32::from(tonic::Code::from_bytes(bytes))
}

impl Code {
    /// The number of this code on the wire.
    pub open spec fn number(self) -> int {
        match self {
            Code::Okay => 0,
            Code::Cancelled => 1,
            Code::Unknown => 2,
            Code::InvalidArgument => 3,
            Code::DeadlineExceeded => 4,
            Code::NotFound => 5,
            Code::AlreadyExists => 6,
            Code::PermissionDenied => 7,
            Code::ResourceExhausted => 8,
            Code::FailedPrecondition => 9,
            Code::Aborted => 10,
            Code::OutOfRange => 11,
            Code::Unimplemented => 12,
            Code::Internal => 13,
            Code::Unavailable => 14,
            Code::DataLoss => 15,
            Code::Unauthenticated => 16,
        }
    }

    /// The code that the text of a `grpc-status` header stands for.
    pub open spec fn parse(bytes: Seq<u8>) -> Code {
        code_of_number(status_number(bytes))
    }

    /// The code with the given number, `Unknown` where no code has it.
    pub fn from_i32(n: i32) -> (code: Code)
        ensures
            code == code_of_number(n as int),
    {
        match n {
            0 => Code::Okay,
            1 => Code::Cancelled,
            3 => Code::InvalidArgument,
            4 => Code::DeadlineExceeded,
            5 => Code::NotFound,
            6 => Code::AlreadyExists,
            7 => Code::PermissionDenied,
            8 => Code::ResourceExhausted,
            9 => Code::FailedPrecondition,
            10 => Code::Aborted,
            11 => Code::OutOfRange,
            12 => Code::Unimplemented,
            13 => Code::Internal,
            14 => Code::Unavailable,
            15 => Code::DataLoss,
            16 => Code::Unauthenticated,
            _ => Code::Unknown,
        }
    }

    /// Reads the text of a `grpc-status` header.
    pub fn from_bytes(bytes: &[u8]) -> (code: Code)
        ensures
            code == Code::parse(bytes@),
    {
        Code::from_i32(grpc_status_number(bytes))
    }

    /// The text that stands for this code in the `grpc_code` label.
    pub open spec fn label(self) -> Seq<char> {
        match self {
            Code::Okay => "Ok"@,
            Code::Cancelled => "Cancelled"@,
            Code::Unknown => "Unknown"@,
            Code::InvalidArgument => "InvalidArgument"@,
            Code::DeadlineExceeded => "DeadlineExceeded"@,
            Code::NotFound => "NotFound"@,
            Code::AlreadyExists => "AlreadyExists"@,
            Code::PermissionDenied => "PermissionDenied"@,
            Code::ResourceExhausted => "ResourceExhausted"@,
            Code::FailedPrecondition => "FailedPrecondition"@,
            Code::Aborted => "Aborted"@,
            Code::OutOfRange => "OutOfRange"@,
            Code::Unimplemented => "Unimplemented"@,
            Code::Internal => "Internal"@,
            Code::Unavailable => "Unavailable"@,
            Code::DataLoss => "DataLoss"@,
            Code::Unauthenticated => "Unauthenticated"@,
        }
    }

    /// The name of this code as it is written in the `grpc_code` label.
    pub fn name(self) -> (name: &'static str)
        ensures
            name@ == self.label(),
    {
        match self {
            Code::Okay => "Ok",
            Code::Cancelled => "Cancelled",
            Code::Unknown => "Unknown",
            Code::InvalidArgument => "InvalidArgument",
            Code::DeadlineExceeded => "DeadlineExceeded",
            Code::NotFound => "NotFound",
            Code::AlreadyExists => "AlreadyExists",
            Code::PermissionDenied => "PermissionDenied",
            Code::ResourceExhausted => "ResourceExhausted",
            Code::FailedPrecondition => "FailedPrecondition",
            Code::Aborted => "Aborted",
            Code::OutOfRange => "OutOfRange",
            Code::Unimplemented => "Unimplemented",
            Code::Internal => "Internal",
            Code::Unavailable => "Unavailable",
            Code::DataLoss => "DataLoss",
            Code::Unauthenticated => "Unauthenticated",
        }
    }
}

/// How a call ended, as far as its status is concerned.
#[derive(Clone, Debug, PartialEq, Eq)]
pub enum CallOutcome {
    /// The call failed before any response arrived.
    Failed,
    /// A response arrived; `grpc_status` is the text of its `grpc-status`
    /// header, if it has one.
    Responded { grpc_status: Option<Vec<u8>> },
}

/// What a [`CallOutcome`] holds, as a value of specifications.
pub enum OutcomeModel {
    Failed,
    Responded { grpc_status: Option<Seq<u8>> },
}

impl View for CallOutcome {
    type V = OutcomeModel;

    open spec fn view(&self) -> OutcomeModel {
        match self {
            CallOutcome::Failed => OutcomeModel::Failed,
            CallOutcome::Responded { grpc_status: None } => OutcomeModel::Responded {
                grpc_status: None,
            },
            CallOutcome::Responded { grpc_status: Some(text) } => OutcomeModel::Responded {
                grpc_status: Some(text@),
            },
        }
    }
}

/// The status code under which a call that ended with `outcome` is counted:
/// the code its `grpc-status` header names, `Ok` for a response without that
/// header, `Unknown` where no response arrived.
pub open spec fn status_of(outcome: OutcomeModel) -> Code {
    match outcome {
        OutcomeModel::Failed => Code::Unknown,
        OutcomeModel::Responded { grpc_status: None } => Code::Okay,
        OutcomeModel::Responded { grpc_status: Some(text) } => Code::parse(text),
    }
}

/// Classifies the outcome of a call. Every outcome has a code.
pub fn classify(outcome: &CallOutcome) -> (code: Code)
    ensures
        code == status_of(outcome@),
{
    match outcome {
        CallOutcome::Failed => Code::Unknown,
        CallOutcome::Responded { grpc_status: None } => Code::Okay,
        CallOutcome::Responded { grpc_status: Some(text) } => Code::from_bytes(text.as_slice()),
    }
}

} // verus!
