//! How a failure is shown at the remote-procedure boundary: the status code
//! and the message that stand for it.

use vstd::prelude::*;
use vstd::string::StringExecFns;

verus! {

/// What the transport says of a failure of its own. More than one mark can
/// be set; the first in the order of the fields decides.
#[derive(Clone, Copy, Debug, PartialEq, Eq, Structural)]
pub struct TransportFault {
    pub parse: bool,
    pub parse_too_large: bool,
    pub parse_status: bool,
    pub user: bool,
    pub canceled: bool,
    pub closed: bool,
    pub connect: bool,
    pub incomplete_message: bool,
    pub body_write_aborted: bool,
    pub timeout: bool,
}

/// The status codes that the gateway answers with.
#[derive(Clone, Copy, Debug, PartialEq, Eq, Structural)]
pub enum StatusCode {
    Internal,
    Cancelled,
    Unavailable,
    Aborted,
    DeadlineExceeded,
}

/// A status: its code and its message.
#[derive(Debug, PartialEq, Eq)]
pub struct Status {
    pub code: StatusCode,
    pub message: String,
}

/// The code and the message that stand for a failure of the transport;
/// `None` where no mark is set.
pub open spec fn fault_status(fault: TransportFault) -> Option<(StatusCode, Seq<char>)> {
    if fault.parse {
        Some((StatusCode::Internal, "parse error"@))
    } else if fault.parse_too_large {
        Some((StatusCode::Internal, "parse too large"@))
    } else if fault.parse_status {
        Some((StatusCode::Internal, "parse status"@))
    } else if fault.user {
        Some((StatusCode::Internal, "user error"@))
    } else if fault.canceled {
        Some((StatusCode::Cancelled, "canceled"@))
    } else if fault.closed {
        Some((StatusCode::Unavailable, "connection closed"@))
    } else if fault.connect {
        Some((StatusCode::Unavailable, "connection error"@))
    } else if fault.incomplete_message {
        Some((StatusCode::Internal, "incomplete message"@))
    } else if fault.body_write_aborted {
        Some((StatusCode::Aborted, "body write aborted"@))
    } else if fault.timeout {
        Some((StatusCode::DeadlineExceeded, "timeout"@))
    } else {
        None
    }
}

/// The code and the message that stand for a failure: those of the
/// transport's fault where it has one with a mark set, and otherwise an
/// internal error that carries the description of the failure.
pub open spec fn status_of(fault: Option<TransportFault>, description: Seq<char>) -> (
    StatusCode,
    Seq<char>,
) {
    match fault {
        Some(marks) => match fault_status(marks) {
            Some(status) => status,
            None => (StatusCode::Internal, "Internal error: "@ + description),
        },
        None => (StatusCode::Internal, "Internal error: "@ + description),
    }
}

/// The status for a failure of the transport; `None` where no mark is set.
pub fn map_fault_to_status(fault: &TransportFault) -> (status: Option<Status>)
    ensures
        match status {
            Some(s) => fault_status(*fault) == Some((s.code, s.message@)),
            None => fault_status(*fault) is None,
        },
{
    if fault.parse {
        Some(Status { code: StatusCode::Internal, message: "parse error".to_owned() })
    } else if fault.parse_too_large {
        Some(Status { code: StatusCode::Internal, message: "parse too large".to_owned() })
    } else if fault.parse_status {
        Some(Status { code: StatusCode::Internal, message: "parse status".to_owned() })
    } else if fault.user {
        Some(Status { code: StatusCode::Internal, message: "user error".to_owned() })
    } else if fault.canceled {
        Some(Status { code: StatusCode::Cancelled, message: "canceled".to_owned() })
    } else if fault.closed {
        Some(Status { code: StatusCode::Unavailable, message: "connection closed".to_owned() })
    } else if fault.connect {
        Some(Status { code: StatusCode::Unavailable, message: "connection error".to_owned() })
    } else if fault.incomplete_message {
        Some(Status { code: StatusCode::Internal, message: "incomplete message".to_owned() })
    } else if fault.body_write_aborted {
        Some(Status { code: StatusCode::Aborted, message: "body write aborted".to_owned() })
    } else if fault.timeout {
        Some(Status { code: StatusCode::DeadlineExceeded, message: "timeout".to_owned() })
    } else {
        None
    }
}

/// The status for a failure. `fault` holds the marks of the transport where
/// the failure is one of its own, and `description` is the failure in words.
pub fn map_error_to_grpc_status(fault: Option<TransportFault>, description: &str) -> (status:
    Status)
    ensures
        (status.code, status.message@) == status_of(fault, description@),
{
    match fault {
        Some(marks) => match map_fault_to_status(&marks) {
            Some(status) => {
                return status;
            },
            None => {},
        },
        None => {},
    }
    Status {
        code: StatusCode::Internal,
        message: "Internal error: ".to_owned().concat(description),
    }
}

} // verus!
