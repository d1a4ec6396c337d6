//! Unified error type of the client, the protocol status codes it carries,
//! and the classification that the retry executor consults.

use vstd::prelude::*;

verus! {

/// Result alias used by every fallible operation of the client.
pub type YdbResult<T> = Result<T, YdbError>;

/// Status codes of the wire protocol. Every response begins with one of
/// these; `Success` is the only code that lets a call proceed.
#[derive(Clone, Copy, Debug, PartialEq, Eq, Structural)]
pub enum StatusCode {
    Unspecified,
    Success,
    BadRequest,
    Unauthorized,
    InternalError,
    Aborted,
    Unavailable,
    Overloaded,
    SchemeError,
    GenericError,
    Timeout,
    BadSession,
    PreconditionFailed,
    AlreadyExists,
    NotFound,
    SessionExpired,
    Cancelled,
    Undetermined,
    Unsupported,
    SessionBusy,
    ExternalError,
}

impl StatusCode {
    /// The numeric value each code has on the wire.
    pub open spec fn spec_code(self) -> i32 {
        match self {
            StatusCode::Unspecified => 0,
            StatusCode::Success => 400000,
            StatusCode::BadRequest => 400010,
            StatusCode::Unauthorized => 400020,
            StatusCode::InternalError => 400030,
            StatusCode::Aborted => 400040,
            StatusCode::Unavailable => 400050,
            StatusCode::Overloaded => 400060,
            StatusCode::SchemeError => 400070,
            StatusCode::GenericError => 400080,
            StatusCode::Timeout => 400090,
            StatusCode::BadSession => 400100,
            StatusCode::PreconditionFailed => 400120,
            StatusCode::AlreadyExists => 400130,
            StatusCode::NotFound => 400140,
            StatusCode::SessionExpired => 400150,
            StatusCode::Cancelled => 400160,
            StatusCode::Undetermined => 400170,
            StatusCode::Unsupported => 400180,
            StatusCode::SessionBusy => 400190,
            StatusCode::ExternalError => 400200,
        }
    }

    pub fn code(self) -> (r: i32)
        ensures
            r == self.spec_code(),
    {
        match self {
            StatusCode::Unspecified => 0,
            StatusCode::Success => 400000,
            StatusCode::BadRequest => 400010,
            StatusCode::Unauthorized => 400020,
            StatusCode::InternalError => 400030,
            StatusCode::Aborted => 400040,
            StatusCode::Unavailable => 400050,
            StatusCode::Overloaded => 400060,
            StatusCode::SchemeError => 400070,
            StatusCode::GenericError => 400080,
            StatusCode::Timeout => 400090,
            StatusCode::BadSession => 400100,
            StatusCode::PreconditionFailed => 400120,
            StatusCode::AlreadyExists => 400130,
            StatusCode::NotFound => 400140,
            StatusCode::SessionExpired => 400150,
            StatusCode::Cancelled => 400160,
            StatusCode::Undetermined => 400170,
            StatusCode::Unsupported => 400180,
            StatusCode::SessionBusy => 400190,
            StatusCode::ExternalError => 400200,
        }
    }

    /// The code a numeric wire value stands for, if any.
    pub open spec fn spec_from_code(code: i32) -> Option<StatusCode> {
        if code == 0 {
            Some(StatusCode::Unspecified)
        } else if code == 400000 {
            Some(StatusCode::Success)
        } else if code == 400010 {
            Some(StatusCode::BadRequest)
        } else if code == 400020 {
            Some(StatusCode::Unauthorized)
        } else if code == 400030 {
            Some(StatusCode::InternalError)
        } else if code == 400040 {
            Some(StatusCode::Aborted)
        } else if code == 400050 {
            Some(StatusCode::Unavailable)
        } else if code == 400060 {
            Some(StatusCode::Overloaded)
        } else if code == 400070 {
            Some(StatusCode::SchemeError)
        } else if code == 400080 {
            Some(StatusCode::GenericError)
        } else if code == 400090 {
            Some(StatusCode::Timeout)
        } else if code == 400100 {
            Some(StatusCode::BadSession)
        } else if code == 400120 {
            Some(StatusCode::PreconditionFailed)
        } else if code == 400130 {
            Some(StatusCode::AlreadyExists)
        } else if code == 400140 {
            Some(StatusCode::NotFound)
        } else if code == 400150 {
            Some(StatusCode::SessionExpired)
        } else if code == 400160 {
            Some(StatusCode::Cancelled)
        } else if code == 400170 {
            Some(StatusCode::Undetermined)
        } else if code == 400180 {
            Some(StatusCode::Unsupported)
        } else if code == 400190 {
            Some(StatusCode::SessionBusy)
        } else if code == 400200 {
            Some(StatusCode::ExternalError)
        } else {
            None
        }
    }

    pub fn from_i32(code: i32) -> (r: Option<StatusCode>)
        ensures
            r == StatusCode::spec_from_code(code),
    {
        if code == 0 {
            Some(StatusCode::Unspecified)
        } else if code == 400000 {
            Some(StatusCode::Success)
        } else if code == 400010 {
            Some(StatusCode::BadRequest)
        } else if code == 400020 {
            Some(StatusCode::Unauthorized)
        } else if code == 400030 {
            Some(StatusCode::InternalError)
        } else if code == 400040 {
            Some(StatusCode::Aborted)
        } else if code == 400050 {
            Some(StatusCode::Unavailable)
        } else if code == 400060 {
            Some(StatusCode::Overloaded)
        } else if code == 400070 {
            Some(StatusCode::SchemeError)
        } else if code == 400080 {
            Some(StatusCode::GenericError)
        } else if code == 400090 {
            Some(StatusCode::Timeout)
        } else if code == 400100 {
            Some(StatusCode::BadSession)
        } else if code == 400120 {
            Some(StatusCode::PreconditionFailed)
        } else if code == 400130 {
            Some(StatusCode::AlreadyExists)
        } else if code == 400140 {
            Some(StatusCode::NotFound)
        } else if code == 400150 {
            Some(StatusCode::SessionExpired)
        } else if code == 400160 {
            Some(StatusCode::Cancelled)
        } else if code == 400170 {
            Some(StatusCode::Undetermined)
        } else if code == 400180 {
            Some(StatusCode::Unsupported)
        } else if code == 400190 {
            Some(StatusCode::SessionBusy)
        } else if code == 400200 {
            Some(StatusCode::ExternalError)
        } else {
            None
        }
    }
}

/// One human-readable issue attached to a response.
#[derive(Clone, Debug)]
pub struct YdbIssue {
    pub issue_code: u32,
    pub message: String,
    pub severity: u32,
}

/// A status-coded application error: the operation status reported by the
/// server, the comma-joined issue text, and the structured issues.
#[derive(Clone, Debug)]
pub struct YdbStatusError {
    pub message: String,
    pub operation_status: i32,
    pub issues: Vec<YdbIssue>,
}

/// The unified error type every public call of the client returns.
#[derive(Clone, Debug)]
pub enum YdbError {
    /// Local validation failure, never retried.
    Custom(String),
    /// A value could not be converted between native and wire form.
    Convert(String),
    /// An internal invariant of the client was violated.
    InternalError(String),
    /// A single row was requested and none was available.
    NoRows,
    /// The stream ended where a message was required.
    EmptyResponse,
    /// A result set was capped by the server while "error on truncate" was
    /// in effect; carries the index of the offending set.
    TruncatedResult { result_set_index: usize },
    /// Establishing a connection failed; safe to retry.
    TransportDial(String),
    /// The transport failed mid-call; retried only for idempotent work.
    Transport(String),
    /// The transport reported a gRPC status; carries its numeric code.
    TransportGrpcStatus { code: i32, message: String },
    /// The server answered with a non-success operation status.
    YdbStatusError(YdbStatusError),
}

/// Retry-ability classes: safe to retry always, only when the caller has
/// declared the operation idempotent, or never.
#[derive(Clone, Copy, Debug, PartialEq, Eq, Structural)]
pub enum NeedRetry {
    True,
    IdempotentOnly,
    Never,
}

/// The fixed classification table the retry executor consults: which
/// errors may be re-attempted, and under what idempotence assumption.
pub open spec fn spec_need_retry(e: YdbError) -> NeedRetry {
    match e {
        YdbError::TransportDial(_) => NeedRetry::True,
        YdbError::Transport(_) => NeedRetry::IdempotentOnly,
        YdbError::TransportGrpcStatus { code, .. } => {
            if code == 8 || code == 10 {
                // ResourceExhausted, Aborted
                NeedRetry::True
            } else if code == 1 || code == 13 || code == 14 {
                // Cancelled, Internal, Unavailable
                NeedRetry::IdempotentOnly
            } else {
                NeedRetry::Never
            }
        },
        YdbError::YdbStatusError(err) => {
            match StatusCode::spec_from_code(err.operation_status) {
                Some(status) => {
                    if status == StatusCode::Aborted || status == StatusCode::Unavailable
                        || status == StatusCode::Overloaded || status == StatusCode::BadSession
                        || status == StatusCode::SessionBusy {
                        NeedRetry::True
                    } else if status == StatusCode::Undetermined {
                        NeedRetry::IdempotentOnly
                    } else {
                        NeedRetry::Never
                    }
                },
                None => NeedRetry::Never,
            }
        },
        _ => NeedRetry::Never,
    }
}

impl YdbError {
    /// Local validation error carrying the given message.
    pub fn from_str(s: &str) -> (r: YdbError)
        ensures
            r matches YdbError::Custom(m) && m@ == s@,
    {
        YdbError::Custom(String::from_str(s))
    }

    pub fn need_retry(&self) -> (r: NeedRetry)
        ensures
            r == spec_need_retry(*self),
    {
        match self {
            YdbError::TransportDial(_) => NeedRetry::True,
            YdbError::Transport(_) => NeedRetry::IdempotentOnly,
            YdbError::TransportGrpcStatus { code, .. } => {
                if *code == 8 || *code == 10 {
                    NeedRetry::True
                } else if *code == 1 || *code == 13 || *code == 14 {
                    NeedRetry::IdempotentOnly
                } else {
                    NeedRetry::Never
                }
            },
            YdbError::YdbStatusError(err) => {
                match StatusCode::from_i32(err.operation_status) {
                    Some(status) => {
                        if status == StatusCode::Aborted || status == StatusCode::Unavailable
                            || status == StatusCode::Overloaded
                            || status == StatusCode::BadSession
                            || status == StatusCode::SessionBusy {
                            NeedRetry::True
                        } else if status == StatusCode::Undetermined {
                            NeedRetry::IdempotentOnly
                        } else {
                            NeedRetry::Never
                        }
                    },
                    None => NeedRetry::Never,
                }
            },
            _ => NeedRetry::Never,
        }
    }

    /// Whether this error means the server has discarded the session it
    /// arrived on; such a session must never be pooled again.
    pub open spec fn spec_is_session_fatal(self) -> bool {
        match self {
            YdbError::YdbStatusError(err) => {
                err.operation_status == StatusCode::BadSession.spec_code()
                    || err.operation_status == StatusCode::SessionExpired.spec_code()
            },
            _ => false,
        }
    }
}

} // verus!
