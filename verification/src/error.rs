//! Session-level failures of device discovery and binding.

use vstd::prelude::*;

verus! {

/// A terminal failure while establishing the device session. Both
/// variants abort session construction and are surfaced to the caller;
/// neither is retried automatically.
#[derive(Clone, Copy, Debug, PartialEq, Eq, Structural)]
pub enum IcarusBleError {
    /// No peripheral advertising the expected name was seen on any
    /// adapter after a full scan pass.
    DeviceNotFound,
    /// A required characteristic was absent after service discovery:
    /// a protocol or firmware mismatch on an otherwise matched device.
    CharacteristicNotFound,
}

impl IcarusBleError {
    /// A human-readable description of the failure.
    pub fn message(&self) -> (r: &'static str)
        ensures
            *self is DeviceNotFound ==> r@ == "The device was not found"@,
            *self is CharacteristicNotFound ==> r@ == "Characteristic not found"@,
    {
        match self {
            IcarusBleError::DeviceNotFound => "The device was not found",
            IcarusBleError::CharacteristicNotFound => "Characteristic not found",
        }
    }
}

} // verus!
