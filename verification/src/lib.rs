//! Hardware-control middleware for haptic and actuator devices.
//!
//! Abstract, device-agnostic actuation commands ("set feature 0 to half
//! intensity") are translated into the wire bytes each device family
//! expects. A per-device command manager caches the last quantized value
//! sent to every feature, so redundant writes are suppressed; per-family
//! adapters apply each family's batching rules; device families whose
//! protocol variant is only discoverable at connect time run an
//! identification handshake modelled as an explicit state machine.

pub mod config;
pub mod dispatch;
pub mod handshake;
pub mod lelof1s;
pub mod lovense;
pub mod manager;
pub mod messages;
pub mod prettylove;
pub mod quantize;
pub mod realov;
