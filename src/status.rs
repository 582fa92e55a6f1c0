//! The closed set of outcomes that every boundary reports.
use vstd::prelude::*;

verus! {

/// The outcome of an operation at a foreign boundary.
#[derive(Clone, Copy, Debug, PartialEq, Eq, Structural)]
pub enum SlhDsaStatus {
    /// The operation succeeded.
    Success,
    /// A non-empty argument came as a null pointer (flat convention only).
    NullPtr,
    /// The primitive refused an otherwise well-formed call (a context longer
    /// than 255 bytes, a randomizer of the wrong length).
    InvalidParam,
    /// A buffer's length is not the one the catalog gives for the parameter set.
    InvalidLength,
    /// Bytes of the right length that do not decode as a key or signature.
    DecodeError,
    /// A well-formed signature that does not verify.
    VerifyFailed,
}

/// The status that a core result reports.
pub open spec fn status_of<T>(r: Result<T, SlhDsaStatus>) -> SlhDsaStatus {
    match r {
        Ok(_) => SlhDsaStatus::Success,
        Err(e) => e,
    }
}

/// The message of a status.
pub open spec fn message_of(status: SlhDsaStatus) -> Seq<char> {
    match status {
        SlhDsaStatus::Success => "OK"@,
        SlhDsaStatus::NullPtr => "Null pointer"@,
        SlhDsaStatus::InvalidParam => "Invalid parameter"@,
        SlhDsaStatus::InvalidLength => "Invalid length"@,
        SlhDsaStatus::DecodeError => "Decode error"@,
        SlhDsaStatus::VerifyFailed => "Verification failed"@,
    }
}

impl SlhDsaStatus {
    /// A short human-readable message for this status.
    pub fn message(self) -> (r: &'static str)
        ensures
            r@ == message_of(self),
    {
        match self {
            SlhDsaStatus::Success => "OK",
            SlhDsaStatus::NullPtr => "Null pointer",
            SlhDsaStatus::InvalidParam => "Invalid parameter",
            SlhDsaStatus::InvalidLength => "Invalid length",
            SlhDsaStatus::DecodeError => "Decode error",
            SlhDsaStatus::VerifyFailed => "Verification failed",
        }
    }
}

} // verus!
