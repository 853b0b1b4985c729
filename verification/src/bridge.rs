//! The two bridge tasks' decision cores.
//!
//! Once a device is bound, the session spawns two independent tasks: the
//! telemetry bridge drains the attitude notification stream into an
//! application-facing bounded channel, and the command bridge drains an
//! application-supplied channel into unacknowledged throttle writes.
//! The bounded channels are the only shared state between the tasks and
//! their consumers: backpressure through them, not locking, is the
//! concurrency discipline. A full telemetry channel deliberately blocks
//! the drain, so a slow consumer sees recent samples instead of an
//! ever-growing backlog.
//!
//! Each machine here turns one observed event into the one action the
//! task's driver loop must perform next; every await, sleep and channel
//! operation stays with the driver.

use vstd::prelude::*;

use crate::codec::attitude_of;
use crate::codec::decode_attitude;
use crate::codec::encode_throttle;
use crate::codec::throttle_bytes;
use crate::codec::DecodeError;
use crate::codec::ATTITUDE_PAYLOAD_LEN;
use crate::Attitude;
use crate::Throttle;

verus! {

/// What the telemetry bridge's driver observed.
pub enum TelemetryEvent {
    /// The notification stream delivered a payload.
    Notification(Vec<u8>),
    /// The current notification stream ended without the channel
    /// closing; the flag reports whether the outbound channel has been
    /// closed by the consumer (the non-blocking closed check).
    StreamEnded { outbound_closed: bool },
}

/// What the telemetry bridge's driver must do next.
#[derive(Clone, Copy, Debug, PartialEq, Eq, Structural)]
pub enum TelemetryAction {
    /// Send this decoded sample on the outbound channel, blocking if the
    /// channel is full; a send failure is logged and the loop goes on.
    /// Then await the next notification.
    Forward(Attitude),
    /// A malformed payload: terminate the task with this fatal error.
    /// Malformed telemetry is not tolerated silently.
    FailDecode(DecodeError),
    /// Sleep the short fixed interval, then poll the stream again;
    /// guards against spinning on a closed-but-not-torn-down stream.
    Pause,
    /// The consumer closed the outbound channel: terminate the loop
    /// gracefully, with no further transport reads.
    Stop,
}

/// The telemetry bridge task's decision core: decodes each notification
/// and republishes it, until the consumer closes the outbound channel or
/// a payload fails to decode.
pub struct TelemetryBridge {
    running: bool,
}

impl TelemetryBridge {
    /// Whether the loop is still to be driven.
    pub closed spec fn running(&self) -> bool {
        self.running
    }

    pub fn new() -> (r: TelemetryBridge)
        ensures
            r.running(),
    {
        TelemetryBridge { running: true }
    }

    /// Exec mirror of `running`, for the driver's loop condition.
    pub fn is_running(&self) -> (r: bool)
        ensures
            r == self.running(),
    {
        self.running
    }

    /// Turns one observed event into the next action. Samples are
    /// forwarded in exact arrival order, one action per event, so the
    /// consumer sees the stream unreordered and unmerged.
    pub fn step(&mut self, event: TelemetryEvent) -> (a: TelemetryAction)
        ensures
            !old(self).running() ==> a == TelemetryAction::Stop && !final(self).running(),
            old(self).running() ==> match event {
                TelemetryEvent::Notification(payload) => {
                    if payload@.len() >= ATTITUDE_PAYLOAD_LEN {
                        &&& a == TelemetryAction::Forward(attitude_of(payload@))
                        &&& final(self).running()
                    } else {
                        &&& a == TelemetryAction::FailDecode(DecodeError::Truncated)
                        &&& !final(self).running()
                    }
                },
                TelemetryEvent::StreamEnded { outbound_closed } => {
                    if outbound_closed {
                        a == TelemetryAction::Stop && !final(self).running()
                    } else {
                        a == TelemetryAction::Pause && final(self).running()
                    }
                },
            },
    {
        if !self.running {
            return TelemetryAction::Stop;
        }
        match event {
            TelemetryEvent::Notification(payload) => match decode_attitude(&payload) {
                Ok(attitude) => TelemetryAction::Forward(attitude),
                Err(e) => {
                    self.running = false;
                    TelemetryAction::FailDecode(e)
                },
            },
            TelemetryEvent::StreamEnded { outbound_closed } => {
                if outbound_closed {
                    self.running = false;
                    TelemetryAction::Stop
                } else {
                    TelemetryAction::Pause
                }
            },
        }
    }
}

/// What the command bridge's driver observed.
pub enum CommandEvent {
    /// The inbound channel delivered a throttle command.
    Command(Throttle),
    /// Every sender of the inbound channel was dropped: the normal
    /// termination path, not an error.
    Closed,
    /// The unacknowledged write failed: the device link is assumed
    /// unusable past this point.
    WriteFailed,
}

/// What the command bridge's driver must do next.
#[derive(Clone, Debug, PartialEq, Eq)]
pub enum CommandAction {
    /// Write this encoded payload to the throttle characteristic,
    /// unacknowledged, then await the next command.
    Write(Vec<u8>),
    /// The inbound channel closed: terminate the loop gracefully.
    Stop,
    /// A write failed: terminate the task with a fatal error. Throttle
    /// commands are time-sensitive, so nothing is retried — a stale
    /// retried command is worse than a dropped one.
    Abort,
}

/// The command bridge task's decision core: encodes each received
/// command for the device, in strict arrival order, one write per
/// command, with no buffering beyond the channel itself.
pub struct CommandBridge {
    running: bool,
}

impl CommandBridge {
    /// Whether the loop is still to be driven.
    pub closed spec fn running(&self) -> bool {
        self.running
    }

    pub fn new() -> (r: CommandBridge)
        ensures
            r.running(),
    {
        CommandBridge { running: true }
    }

    /// Exec mirror of `running`, for the driver's loop condition.
    pub fn is_running(&self) -> (r: bool)
        ensures
            r == self.running(),
    {
        self.running
    }

    /// Turns one observed event into the next action.
    pub fn step(&mut self, event: CommandEvent) -> (a: CommandAction)
        ensures
            !old(self).running() ==> a == CommandAction::Stop && !final(self).running(),
            old(self).running() ==> match event {
                CommandEvent::Command(t) => {
                    &&& a matches CommandAction::Write(payload) && payload@ == throttle_bytes(t)
                    &&& final(self).running()
                },
                CommandEvent::Closed => a == CommandAction::Stop && !final(self).running(),
                CommandEvent::WriteFailed => a == CommandAction::Abort && !final(self).running(),
            },
    {
        if !self.running {
            return CommandAction::Stop;
        }
        match event {
            CommandEvent::Command(t) => CommandAction::Write(encode_throttle(&t)),
            CommandEvent::Closed => {
                self.running = false;
                CommandAction::Stop
            },
            CommandEvent::WriteFailed => {
                self.running = false;
                CommandAction::Abort
            },
        }
    }
}

} // verus!
