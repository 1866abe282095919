//! Status codes of the RPC protocol, and the error type that carries one.

use vstd::prelude::*;

verus! {

/// The well-known RPC status codes.
#[derive(Debug, Clone, Copy, PartialEq, Eq, Hash, Structural)]
pub enum Status {
    Okay,
    Cancelled,
    Unknown,
    InvalidArgument,
    DeadlineExceeded,
    NotFound,
    AlreadyExists,
    PermissionDenied,
    ResourceExhausted,
    FailedPrecondition,
    Aborted,
    OutOfRange,
    Unimplemented,
    Internal,
    Unavailable,
    DataLoss,
    Unauthenticated,
}

/// The status that the number `v` stands for; unknown numbers stand for
/// `Unknown`.
pub open spec fn status_of(v: u32) -> Status {
    if v == 0 {
        Status::Okay
    } else if v == 1 {
        Status::Cancelled
    } else if v == 2 {
        Status::Unknown
    } else if v == 3 {
        Status::InvalidArgument
    } else if v == 4 {
        Status::DeadlineExceeded
    } else if v == 5 {
        Status::NotFound
    } else if v == 6 {
        Status::AlreadyExists
    } else if v == 7 {
        Status::PermissionDenied
    } else if v == 8 {
        Status::ResourceExhausted
    } else if v == 9 {
        Status::FailedPrecondition
    } else if v == 10 {
        Status::Aborted
    } else if v == 11 {
        Status::OutOfRange
    } else if v == 12 {
        Status::Unimplemented
    } else if v == 13 {
        Status::Internal
    } else if v == 14 {
        Status::Unavailable
    } else if v == 15 {
        Status::DataLoss
    } else if v == 16 {
        Status::Unauthenticated
    } else {
        Status::Unknown
    }
}

/// The number of status `s`.
pub open spec fn status_code(s: Status) -> u32 {
    match s {
        Status::Okay => 0,
        Status::Cancelled => 1,
        Status::Unknown => 2,
        Status::InvalidArgument => 3,
        Status::DeadlineExceeded => 4,
        Status::NotFound => 5,
        Status::AlreadyExists => 6,
        Status::PermissionDenied => 7,
        Status::ResourceExhausted => 8,
        Status::FailedPrecondition => 9,
        Status::Aborted => 10,
        Status::OutOfRange => 11,
        Status::Unimplemented => 12,
        Status::Internal => 13,
        Status::Unavailable => 14,
        Status::DataLoss => 15,
        Status::Unauthenticated => 16,
    }
}

/// The sentence that describes status `s`.
pub open spec fn status_description(s: Status) -> &'static str {
    match s {
        Status::Okay => "The operation completed successfully",
        Status::Cancelled => "The operation was cancelled",
        Status::Unknown => "Unknown error",
        Status::InvalidArgument => "Client specified an invalid argument",
        Status::DeadlineExceeded => "Deadline expired before operation could complete",
        Status::NotFound => "Some requested entity was not found",
        Status::AlreadyExists => "Some entity that we attempted to create already exists",
        Status::PermissionDenied => "The caller does not have permission to execute the specified operation",
        Status::ResourceExhausted => "Some resource has been exhausted",
        Status::FailedPrecondition => "The system is not in a state required for the operation's execution",
        Status::Aborted => "The operation was aborted",
        Status::OutOfRange => "Operation was attempted past the valid range",
        Status::Unimplemented => "Operation is not implemented or not supported",
        Status::Internal => "Internal error",
        Status::Unavailable => "The service is currently unavailable",
        Status::DataLoss => "Unrecoverable data loss or corruption",
        Status::Unauthenticated => "The request does not have valid authentication credentials",
    }
}

impl Status {
    /// The number of this status.
    pub fn code(self) -> (r: u32)
        ensures
            r == status_code(self),
    {
        match self {
            Status::Okay => 0,
            Status::Cancelled => 1,
            Status::Unknown => 2,
            Status::InvalidArgument => 3,
            Status::DeadlineExceeded => 4,
            Status::NotFound => 5,
            Status::AlreadyExists => 6,
            Status::PermissionDenied => 7,
            Status::ResourceExhausted => 8,
            Status::FailedPrecondition => 9,
            Status::Aborted => 10,
            Status::OutOfRange => 11,
            Status::Unimplemented => 12,
            Status::Internal => 13,
            Status::Unavailable => 14,
            Status::DataLoss => 15,
            Status::Unauthenticated => 16,
        }
    }

    /// The status that the number `value` stands for.
    pub fn from_code(value: u32) -> (r: Status)
        ensures
            r == status_of(value),
    {
        match value {
            0 => Status::Okay,
            1 => Status::Cancelled,
            2 => Status::Unknown,
            3 => Status::InvalidArgument,
            4 => Status::DeadlineExceeded,
            5 => Status::NotFound,
            6 => Status::AlreadyExists,
            7 => Status::PermissionDenied,
            8 => Status::ResourceExhausted,
            9 => Status::FailedPrecondition,
            10 => Status::Aborted,
            11 => Status::OutOfRange,
            12 => Status::Unimplemented,
            13 => Status::Internal,
            14 => Status::Unavailable,
            15 => Status::DataLoss,
            16 => Status::Unauthenticated,
            _ => Status::Unknown,
        }
    }

    /// A sentence that describes the status.
    pub fn description(&self) -> (r: &'static str)
        ensures
            r == status_description(*self),
    {
        match self {
            Status::Okay => "The operation completed successfully",
            Status::Cancelled => "The operation was cancelled",
            Status::Unknown => "Unknown error",
            Status::InvalidArgument => "Client specified an invalid argument",
            Status::DeadlineExceeded => "Deadline expired before operation could complete",
            Status::NotFound => "Some requested entity was not found",
            Status::AlreadyExists => "Some entity that we attempted to create already exists",
            Status::PermissionDenied => "The caller does not have permission to execute the specified operation",
            Status::ResourceExhausted => "Some resource has been exhausted",
            Status::FailedPrecondition => "The system is not in a state required for the operation's execution",
            Status::Aborted => "The operation was aborted",
            Status::OutOfRange => "Operation was attempted past the valid range",
            Status::Unimplemented => "Operation is not implemented or not supported",
            Status::Internal => "Internal error",
            Status::Unavailable => "The service is currently unavailable",
            Status::DataLoss => "Unrecoverable data loss or corruption",
            Status::Unauthenticated => "The request does not have valid authentication credentials",
        }
    }
}

impl From<u32> for Status {
    fn from(value: u32) -> (r: Self) {
        Status::from_code(value)
    }
}

impl vstd::std_specs::convert::FromSpecImpl<u32> for Status {
    open spec fn obeys_from_spec() -> bool {
        true
    }

    open spec fn from_spec(v: u32) -> Status {
        status_of(v)
    }
}

impl From<Status> for u32 {
    fn from(value: Status) -> (r: u32) {
        value.code()
    }
}

impl vstd::std_specs::convert::FromSpecImpl<Status> for u32 {
    open spec fn obeys_from_spec() -> bool {
        true
    }

    open spec fn from_spec(v: Status) -> u32 {
        status_code(v)
    }
}

/// Every number names a status, and the number of a status names it back.
pub proof fn lemma_status_code_round_trip(s: Status, v: u32)
    ensures
        status_of(status_code(s)) == s,
        v <= 16 ==> status_code(status_of(v)) == v,
        v > 16 ==> status_of(v) == Status::Unknown,
{
}

/// An RPC error: a status, a message, and the description of the error that
/// caused it, if any.
#[derive(Debug, Clone)]
pub struct Error {
    code: Status,
    message: String,
    source: Option<String>,
}

impl Error {
    pub closed spec fn spec_code(&self) -> Status {
        self.code
    }

    pub closed spec fn spec_message(&self) -> Seq<char> {
        self.message@
    }

    pub closed spec fn spec_source(&self) -> Option<Seq<char>> {
        match self.source {
            Some(s) => Some(s@),
            None => None,
        }
    }

    pub fn new(code: Status, message: &str) -> (r: Self)
        ensures
            r.spec_code() == code,
            r.spec_message() == message@,
            r.spec_source() is None,
    {
        Error { code, message: message.to_owned(), source: None }
    }

    pub fn cancelled(message: &str) -> (r: Self)
        ensures
            r.spec_code() == Status::Cancelled,
            r.spec_message() == message@,
            r.spec_source() is None,
    {
        Self::new(Status::Cancelled, message)
    }

    pub fn unknown(message: &str) -> (r: Self)
        ensures
            r.spec_code() == Status::Unknown,
            r.spec_message() == message@,
            r.spec_source() is None,
    {
        Self::new(Status::Unknown, message)
    }

    pub fn invalid_argument(message: &str) -> (r: Self)
        ensures
            r.spec_code() == Status::InvalidArgument,
            r.spec_message() == message@,
            r.spec_source() is None,
    {
        Self::new(Status::InvalidArgument, message)
    }

    pub fn deadline_exceeded(message: &str) -> (r: Self)
        ensures
            r.spec_code() == Status::DeadlineExceeded,
            r.spec_message() == message@,
            r.spec_source() is None,
    {
        Self::new(Status::DeadlineExceeded, message)
    }

    pub fn not_found(message: &str) -> (r: Self)
        ensures
            r.spec_code() == Status::NotFound,
            r.spec_message() == message@,
            r.spec_source() is None,
    {
        Self::new(Status::NotFound, message)
    }

    pub fn already_exists(message: &str) -> (r: Self)
        ensures
            r.spec_code() == Status::AlreadyExists,
            r.spec_message() == message@,
            r.spec_source() is None,
    {
        Self::new(Status::AlreadyExists, message)
    }

    pub fn permission_denied(message: &str) -> (r: Self)
        ensures
            r.spec_code() == Status::PermissionDenied,
            r.spec_message() == message@,
            r.spec_source() is None,
    {
        Self::new(Status::PermissionDenied, message)
    }

    pub fn resource_exhausted(message: &str) -> (r: Self)
        ensures
            r.spec_code() == Status::ResourceExhausted,
            r.spec_message() == message@,
            r.spec_source() is None,
    {
        Self::new(Status::ResourceExhausted, message)
    }

    pub fn failed_precondition(message: &str) -> (r: Self)
        ensures
            r.spec_code() == Status::FailedPrecondition,
            r.spec_message() == message@,
            r.spec_source() is None,
    {
        Self::new(Status::FailedPrecondition, message)
    }

    pub fn aborted(message: &str) -> (r: Self)
        ensures
            r.spec_code() == Status::Aborted,
            r.spec_message() == message@,
            r.spec_source() is None,
    {
        Self::new(Status::Aborted, message)
    }

    pub fn out_of_range(message: &str) -> (r: Self)
        ensures
            r.spec_code() == Status::OutOfRange,
            r.spec_message() == message@,
            r.spec_source() is None,
    {
        Self::new(Status::OutOfRange, message)
    }

    pub fn unimplemented(message: &str) -> (r: Self)
        ensures
            r.spec_code() == Status::Unimplemented,
            r.spec_message() == message@,
            r.spec_source() is None,
    {
        Self::new(Status::Unimplemented, message)
    }

    pub fn internal(message: &str) -> (r: Self)
        ensures
            r.spec_code() == Status::Internal,
            r.spec_message() == message@,
            r.spec_source() is None,
    {
        Self::new(Status::Internal, message)
    }

    pub fn unavailable(message: &str) -> (r: Self)
        ensures
            r.spec_code() == Status::Unavailable,
            r.spec_message() == message@,
            r.spec_source() is None,
    {
        Self::new(Status::Unavailable, message)
    }

    pub fn data_loss(message: &str) -> (r: Self)
        ensures
            r.spec_code() == Status::DataLoss,
            r.spec_message() == message@,
            r.spec_source() is None,
    {
        Self::new(Status::DataLoss, message)
    }

    pub fn unauthenticated(message: &str) -> (r: Self)
        ensures
            r.spec_code() == Status::Unauthenticated,
            r.spec_message() == message@,
            r.spec_source() is None,
    {
        Self::new(Status::Unauthenticated, message)
    }

    /// An error caused by another one, described by `source`.
    pub fn extend(code: Status, message: &str, source: &str) -> (r: Self)
        ensures
            r.spec_code() == code,
            r.spec_message() == message@,
            r.spec_source() == Some(source@),
    {
        Error { code, message: message.to_owned(), source: Some(source.to_owned()) }
    }

    pub fn code(&self) -> (r: Status)
        ensures
            r == self.spec_code(),
    {
        self.code
    }

    pub fn message(&self) -> (r: &str)
        ensures
            r@ == self.spec_message(),
    {
        self.message.as_str()
    }

    /// The description of the error that caused this one, if any.
    pub fn source(&self) -> (r: Option<&str>)
        ensures
            match self.spec_source() {
                Some(d) => r matches Some(x) && x@ == d,
                None => r is None,
            },
    {
        match &self.source {
            Some(s) => Some(s.as_str()),
            None => None,
        }
    }
}

impl Error {
    /// The error for status `code`, with the status' description as message.
    pub fn from_status(code: Status) -> (r: Self)
        ensures
            r.spec_code() == code,
            r.spec_message() == status_description(code)@,
            r.spec_source() is None,
    {
        Error::new(code, code.description())
    }
}


/// The kind of an I/O error of the transport, as far as it decides the
/// status; every other kind is `Other`.
#[derive(Debug, Clone, Copy, PartialEq, Eq, Structural)]
pub enum IoErrorKind {
    BrokenPipe,
    WouldBlock,
    WriteZero,
    Interrupted,
    ConnectionRefused,
    ConnectionReset,
    NotConnected,
    AddrInUse,
    AddrNotAvailable,
    AlreadyExists,
    ConnectionAborted,
    InvalidData,
    InvalidInput,
    NotFound,
    PermissionDenied,
    TimedOut,
    UnexpectedEof,
    Other,
}

/// The status that an I/O error of kind `k` stands for.
pub open spec fn io_status(k: IoErrorKind) -> Status {
    match k {
        IoErrorKind::BrokenPipe => Status::Internal,
        IoErrorKind::WouldBlock => Status::Internal,
        IoErrorKind::WriteZero => Status::Internal,
        IoErrorKind::Interrupted => Status::Internal,
        IoErrorKind::ConnectionRefused => Status::Unavailable,
        IoErrorKind::ConnectionReset => Status::Unavailable,
        IoErrorKind::NotConnected => Status::Unavailable,
        IoErrorKind::AddrInUse => Status::Unavailable,
        IoErrorKind::AddrNotAvailable => Status::Unavailable,
        IoErrorKind::AlreadyExists => Status::AlreadyExists,
        IoErrorKind::ConnectionAborted => Status::Aborted,
        IoErrorKind::InvalidData => Status::DataLoss,
        IoErrorKind::InvalidInput => Status::InvalidArgument,
        IoErrorKind::NotFound => Status::NotFound,
        IoErrorKind::PermissionDenied => Status::PermissionDenied,
        IoErrorKind::TimedOut => Status::DeadlineExceeded,
        IoErrorKind::UnexpectedEof => Status::OutOfRange,
        IoErrorKind::Other => Status::Unknown,
    }
}

impl Error {
    /// The error for a transport I/O error of kind `kind`, described by
    /// `description`.
    pub fn from_io(kind: IoErrorKind, description: &str) -> (r: Self)
        ensures
            r.spec_code() == io_status(kind),
            r.spec_message() == description@,
            r.spec_source() == Some(description@),
    {
        let code = match kind {
            IoErrorKind::BrokenPipe => Status::Internal,
            IoErrorKind::WouldBlock => Status::Internal,
            IoErrorKind::WriteZero => Status::Internal,
            IoErrorKind::Interrupted => Status::Internal,
            IoErrorKind::ConnectionRefused => Status::Unavailable,
            IoErrorKind::ConnectionReset => Status::Unavailable,
            IoErrorKind::NotConnected => Status::Unavailable,
            IoErrorKind::AddrInUse => Status::Unavailable,
            IoErrorKind::AddrNotAvailable => Status::Unavailable,
            IoErrorKind::AlreadyExists => Status::AlreadyExists,
            IoErrorKind::ConnectionAborted => Status::Aborted,
            IoErrorKind::InvalidData => Status::DataLoss,
            IoErrorKind::InvalidInput => Status::InvalidArgument,
            IoErrorKind::NotFound => Status::NotFound,
            IoErrorKind::PermissionDenied => Status::PermissionDenied,
            IoErrorKind::TimedOut => Status::DeadlineExceeded,
            IoErrorKind::UnexpectedEof => Status::OutOfRange,
            IoErrorKind::Other => Status::Unknown,
        };
        Error::extend(code, description, description)
    }

    /// The error for a message that could not be decoded, described by
    /// `description`.
    pub fn from_decode(description: &str) -> (r: Self)
        ensures
            r.spec_code() == Status::InvalidArgument,
            r.spec_source() == Some(description@),
    {
        Error::extend(Status::InvalidArgument, "failed to decode message", description)
    }
}

} // verus!
