//! Translation of the native layer's integer status codes into a closed
//! error enum. Every fallible operation of this library reports its outcome
//! through this type rather than panicking.

use vstd::prelude::*;

verus! {

/// Outcome of one native call. `Success` is the zero code; each negative
/// code the native sync service defines has its own variant, and any code
/// outside that set collapses to `UnknownError`.
#[derive(Clone, Copy, Debug, PartialEq, Eq, Structural)]
pub enum MobileSyncError {
    Success,
    InvalidArg,
    PlistError,
    MuxError,
    SslError,
    ReceiveTimeout,
    BadVersion,
    SyncRefused,
    Cancelled,
    WrongDirection,
    NotReady,
    UnknownError,
}

/// What each native status code translates to.
pub open spec fn error_from_code(code: i32) -> MobileSyncError {
    if code == 0 {
        MobileSyncError::Success
    } else if code == -1 {
        MobileSyncError::InvalidArg
    } else if code == -2 {
        MobileSyncError::PlistError
    } else if code == -3 {
        MobileSyncError::MuxError
    } else if code == -4 {
        MobileSyncError::SslError
    } else if code == -5 {
        MobileSyncError::ReceiveTimeout
    } else if code == -6 {
        MobileSyncError::BadVersion
    } else if code == -7 {
        MobileSyncError::SyncRefused
    } else if code == -8 {
        MobileSyncError::Cancelled
    } else if code == -9 {
        MobileSyncError::WrongDirection
    } else if code == -10 {
        MobileSyncError::NotReady
    } else {
        MobileSyncError::UnknownError
    }
}

impl From<i32> for MobileSyncError {
    /// Translate a native status code; the zero code alone means success.
    fn from(code: i32) -> (r: MobileSyncError) {
        if code == 0 {
            MobileSyncError::Success
        } else if code == -1 {
            MobileSyncError::InvalidArg
        } else if code == -2 {
            MobileSyncError::PlistError
        } else if code == -3 {
            MobileSyncError::MuxError
        } else if code == -4 {
            MobileSyncError::SslError
        } else if code == -5 {
            MobileSyncError::ReceiveTimeout
        } else if code == -6 {
            MobileSyncError::BadVersion
        } else if code == -7 {
            MobileSyncError::SyncRefused
        } else if code == -8 {
            MobileSyncError::Cancelled
        } else if code == -9 {
            MobileSyncError::WrongDirection
        } else if code == -10 {
            MobileSyncError::NotReady
        } else {
            MobileSyncError::UnknownError
        }
    }
}

impl vstd::std_specs::convert::FromSpecImpl<i32> for MobileSyncError {
    open spec fn obeys_from_spec() -> bool {
        true
    }

    open spec fn from_spec(code: i32) -> MobileSyncError {
        error_from_code(code)
    }
}

} // verus!
