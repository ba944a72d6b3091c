use vstd::prelude::*;

verus! {

/// Errors of the device and driver registries.
#[derive(Clone, Copy, PartialEq, Eq, Debug, Structural)]
pub enum Error {
    AlreadyRegistered,
    NotFound,
}

/// Errors that a control operation reports to its caller.
#[derive(Clone, Copy, PartialEq, Eq, Debug, Structural)]
pub enum DrmError {
    /// An id or handle has no matching entry.
    NotFound,
    /// The operation is gated on a device feature the device lacks.
    Unsupported,
    /// An optional driver hook that the operation needs is absent.
    Unimplemented,
    /// The hardware or driver explicitly does not implement the feature.
    NotSupportedHardware,
    /// A malformed input value.
    InvalidArgument,
    /// An external memory target is invalid or too small.
    AddressFault,
    /// The command number is not a known operation.
    UnknownCommand,
    /// An id or index space is used up.
    Exhausted,
}

} // verus!
