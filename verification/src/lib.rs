//! Core logic for a wireless flight-control link: the wire codec for
//! attitude telemetry and throttle commands, the device-discovery and
//! bridge-task state machines, and the bounded buffers that sit between
//! the transport and the presentation layer.
//!
//! The transport itself (adapter enumeration, scanning, connecting,
//! subscribing, writing) is a capability supplied by the caller; this
//! crate holds every decision and transformation made around it.

pub mod bridge;
pub mod codec;
pub mod error;
pub mod sensors;
pub mod session;
pub mod throttle;

use vstd::prelude::*;

verus! {

/// Three-axis attitude telemetry in radians. Each axis holds the raw bit
/// pattern of the 32-bit IEEE-754 float carried on the wire; presentation
/// layers convert with `f32::from_bits`. Keeping the bit pattern makes
/// decoding exact and keeps floating-point semantics out of the core:
/// NaN and infinity payloads pass through unchanged, as telemetry is
/// trusted.
#[derive(Clone, Copy, Debug, PartialEq, Eq, Structural)]
pub struct Attitude {
    pub pitch: u32,
    pub roll: u32,
    pub yaw: u32,
}

impl Default for Attitude {
    /// The zero vector, used only as an initial placeholder before the
    /// first sample arrives. The zero bit pattern is the float `0.0`.
    fn default() -> (r: Attitude)
        ensures
            r == (Attitude { pitch: 0u32, roll: 0u32, yaw: 0u32 }),
    {
        Attitude { pitch: 0, roll: 0, yaw: 0 }
    }
}

/// A four-axis control command. Each axis is a signed 16-bit normalized
/// control input; `vertical` is the thrust axis.
#[derive(Clone, Copy, Debug, PartialEq, Eq, Structural)]
pub struct Throttle {
    pub pitch: i16,
    pub roll: i16,
    pub yaw: i16,
    pub vertical: i16,
}

impl Throttle {
    pub fn new(pitch: i16, roll: i16, yaw: i16, vertical: i16) -> (r: Throttle)
        ensures
            r == (Throttle { pitch, roll, yaw, vertical }),
    {
        Throttle { pitch, roll, yaw, vertical }
    }
}

impl Default for Throttle {
    /// The neutral command: all axes at rest.
    fn default() -> (r: Throttle)
        ensures
            r == (Throttle { pitch: 0i16, roll: 0i16, yaw: 0i16, vertical: 0i16 }),
    {
        Throttle { pitch: 0, roll: 0, yaw: 0, vertical: 0 }
    }
}

} // verus!
