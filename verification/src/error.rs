//! Error kinds of the library.
use vstd::prelude::*;

verus! {

/// What went wrong while probing a device, polling an attribute or
/// deriving a value from a snapshot.
#[derive(Clone, Copy, Debug, PartialEq, Eq, Structural)]
pub enum BatteryError {
    /// An explicitly named device does not exist or does not classify
    /// as a system battery.
    DeviceInvalid,
    /// An attribute file is missing or could not be read.
    AttributeUnreadable,
    /// An attribute file was read but its contents did not parse.
    AttributeUnparsable,
    /// A remaining-time estimate was asked for while the current draw
    /// is zero.
    InsufficientData,
}

} // verus!
