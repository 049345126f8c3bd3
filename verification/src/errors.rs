//! Classification of OS-level errors.
//!
//! The engine never inspects error message text; it interprets the raw OS
//! error code of a failed filesystem operation by class.  This module is the
//! only platform-specific surface: the codes are the Linux errno values the
//! source driver and the destination filesystem report.

use vstd::prelude::*;

verus! {

/// The closed error taxonomy the engine recovers by.
#[derive(Clone, Copy, Debug, PartialEq, Eq, Structural)]
pub enum ErrorClass {
    /// ENOTCONN: the source volume is not mounted (startup probe only).
    TransportNotConnected,
    /// ECONNABORTED: the transport dropped mid-operation; remount and go on.
    ConnectionAborted,
    /// EIO: the source data itself is unreadable; skip the one file.
    InputOutputError,
    /// EINVAL: the destination rejected a path component; retry repaired.
    InvalidArgument,
    /// Anything else is fatal.
    Other,
}

/// The class of a raw OS error code; an error that carries no code is `Other`.
pub open spec fn classify_spec(code: Option<i32>) -> ErrorClass {
    match code {
        Option::Some(c) => if c == 107 {
            ErrorClass::TransportNotConnected
        } else if c == 103 {
            ErrorClass::ConnectionAborted
        } else if c == 5 {
            ErrorClass::InputOutputError
        } else if c == 22 {
            ErrorClass::InvalidArgument
        } else {
            ErrorClass::Other
        },
        Option::None => ErrorClass::Other,
    }
}

/// Maps a raw OS error code to its class.
pub fn classify_os_error(code: Option<i32>) -> (c: ErrorClass)
    ensures
        c == classify_spec(code),
{
    match code {
        Option::Some(107) => ErrorClass::TransportNotConnected,
        Option::Some(103) => ErrorClass::ConnectionAborted,
        Option::Some(5) => ErrorClass::InputOutputError,
        Option::Some(22) => ErrorClass::InvalidArgument,
        _ => ErrorClass::Other,
    }
}

} // verus!
