//! Abstract commands, transport-facing values, and the error taxonomy.

use vstd::prelude::*;
use crate::quantize::TARGET_SCALE;

verus! {

/// A transport channel of one physical endpoint.
#[derive(Clone, Copy, Debug, PartialEq, Eq, Structural)]
pub enum Endpoint {
    Tx,
    Rx,
}

/// One raw transport write: the only observable effect of a command.
#[derive(Debug)]
pub struct DeviceWriteCmd {
    pub endpoint: Endpoint,
    pub data: Vec<u8>,
    pub write_with_response: bool,
}

/// One event of a device's notification stream.
#[derive(Debug)]
pub enum ButtplugDeviceEvent {
    /// A payload arrived on a subscribed channel.
    Notification(Endpoint, Vec<u8>),
    /// The device disappeared.
    Removed,
}

/// Addresses one vibration feature with a fixed-point intensity target
/// (a numerator over [`TARGET_SCALE`]).
#[derive(Clone, Copy, Debug, PartialEq, Eq, Structural)]
pub struct VibrateSubcommand {
    pub index: u32,
    pub speed: u32,
}

/// Sets vibration intensities: either one broadcast target, or one target
/// per feature in feature order.
#[derive(Debug)]
pub struct VibrateCmd {
    pub device_index: u32,
    pub speeds: Vec<VibrateSubcommand>,
}

/// Addresses one rotation feature with a fixed-point speed target and a
/// direction.
#[derive(Clone, Copy, Debug, PartialEq, Eq, Structural)]
pub struct RotateSubcommand {
    pub index: u32,
    pub speed: u32,
    pub clockwise: bool,
}

/// Sets rotation speeds and directions, with the same cardinality rules as
/// [`VibrateCmd`].
#[derive(Debug)]
pub struct RotateCmd {
    pub device_index: u32,
    pub rotations: Vec<RotateSubcommand>,
}

/// Addresses one linear-motion feature: a fixed-point position target to be
/// reached within a duration in milliseconds.
#[derive(Clone, Copy, Debug, PartialEq, Eq, Structural)]
pub struct VectorSubcommand {
    pub index: u32,
    pub duration: u32,
    pub position: u32,
}

/// Moves linear stages.
#[derive(Debug)]
pub struct LinearCmd {
    pub device_index: u32,
    pub vectors: Vec<VectorSubcommand>,
}

/// Drives every feature of a device to rest.
#[derive(Clone, Copy, Debug, PartialEq, Eq, Structural)]
pub struct StopDeviceCmd {
    pub device_index: u32,
}

/// A device-agnostic actuation command: a command kind together with the
/// feature commands it carries.
#[derive(Debug)]
pub enum AbstractCommand {
    Vibrate(VibrateCmd),
    Rotate(RotateCmd),
    LinearMove(LinearCmd),
    Stop(StopDeviceCmd),
}

/// Everything that can go wrong between accepting an abstract command and
/// handing bytes to the transport.
#[derive(Clone, Copy, Debug, PartialEq, Eq, Structural)]
pub enum ButtplugError {
    /// The command carries neither one broadcast feature command nor exactly
    /// one per feature.
    InvalidCardinality { given: usize, expected: usize },
    /// A feature command addresses an index the device does not have, or a
    /// per-feature list is not in feature order.
    InvalidFeatureIndex,
    /// A target lies outside the normalized range.
    TargetOutOfRange,
    /// The identification handshake ended without a usable identity.
    HandshakeFailed,
    /// The device family has no translation for the requested command kind.
    UnsupportedCommand,
    /// A transport write, subscribe or unsubscribe failed.
    TransportFailed,
}

impl ButtplugError {
    /// Validation errors are rejected before any transport interaction and
    /// the caller can recover by correcting the input.
    pub open spec fn is_validation(&self) -> bool {
        match *self {
            ButtplugError::InvalidCardinality { .. } => true,
            ButtplugError::InvalidFeatureIndex => true,
            ButtplugError::TargetOutOfRange => true,
            _ => false,
        }
    }

    /// A short description, stable per variant.
    pub fn message(&self) -> (r: &'static str)
    {
        match *self {
            ButtplugError::InvalidCardinality { .. } => "command has the wrong number of feature commands",
            ButtplugError::InvalidFeatureIndex => "command addresses a feature the device does not have",
            ButtplugError::TargetOutOfRange => "target lies outside the normalized range",
            ButtplugError::HandshakeFailed => "device identification handshake failed",
            ButtplugError::UnsupportedCommand => "device family does not support this command kind",
            ButtplugError::TransportFailed => "transport operation failed",
        }
    }
}

} // verus!
