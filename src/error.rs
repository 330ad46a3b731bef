//! Failure taxonomy of the master's operations.
use vstd::prelude::*;

verus! {

/// Why an operation of the master failed.
#[derive(Clone, Copy, Debug, PartialEq, Eq, Structural)]
pub enum EcError {
    /// The operation needs a live session and there is none.
    NotInitialized,
    /// Malformed input: a caller bug, never retried.
    InvalidArgument,
    /// The interface or the engine's frame storage is already owned.
    ResourceBusy,
    /// The engine failed: timeout, refusal or malformed response.
    ProtocolError,
    /// Cyclic or byte-level access outside the Op state.
    NotOperational,
    /// The bulk input/output exchange failed.
    ExchangeFailed,
    /// The device ordinal lies beyond the discovered devices.
    DeviceNotFound,
}

} // verus!
