//! Command ids of the primary protocol: a service byte and a command byte.

use vstd::prelude::*;

verus! {

/// A two-byte command id.
pub type CommandId = [u8; 2];

/// Device information.
pub const CMD_DEVICE_INFO: CommandId = [0x01, 0x07];

/// Battery levels, read on request.
pub const CMD_BATTERY_READ: CommandId = [0x01, 0x08];

/// Battery levels, sent by the device on change.
pub const CMD_BATTERY_NOTIFY: CommandId = [0x01, 0x27];

/// Noise-control state, read on request.
pub const CMD_ANC_READ: CommandId = [0x2B, 0x2A];

/// Noise-control state, written; the device acknowledges under this id.
pub const CMD_ANC_WRITE: CommandId = [0x2B, 0x04];

/// Noise-control change made with a button on the device.
pub const CMD_ANC_LEGACY_NOTIFY: CommandId = [0x2B, 0x03];

/// Pause on removal of a bud, read on request.
pub const CMD_AUTO_PAUSE_READ: CommandId = [0x2B, 0x11];

/// Pause on removal of a bud, written.
pub const CMD_AUTO_PAUSE_WRITE: CommandId = [0x2B, 0x10];

/// Low-latency mode, read and written.
pub const CMD_LOW_LATENCY: CommandId = [0x2B, 0x6C];

/// Sound quality preference, read on request.
pub const CMD_SOUND_QUALITY_READ: CommandId = [0x2B, 0xA3];

/// Sound quality preference, written; the device acknowledges under this id.
pub const CMD_SOUND_QUALITY_WRITE: CommandId = [0x2B, 0xA2];

/// Double-tap action, read on request.
pub const CMD_DUAL_TAP_READ: CommandId = [0x01, 0x20];

/// Double-tap action, written.
pub const CMD_DUAL_TAP_WRITE: CommandId = [0x01, 0x1F];

/// Triple-tap action, read on request.
pub const CMD_TRIPLE_TAP_READ: CommandId = [0x01, 0x26];

/// Triple-tap action, written.
pub const CMD_TRIPLE_TAP_WRITE: CommandId = [0x01, 0x25];

/// Long-tap actions of each bud, read on request.
pub const CMD_LONG_TAP_SPLIT_READ_BASE: CommandId = [0x2B, 0x17];

/// Noise-control cycle of a long tap, read on request.
pub const CMD_LONG_TAP_SPLIT_READ_ANC: CommandId = [0x2B, 0x19];

/// Long-tap actions of each bud, written.
pub const CMD_LONG_TAP_SPLIT_WRITE_BASE: CommandId = [0x2B, 0x16];

/// Noise-control cycle of a long tap, written.
pub const CMD_LONG_TAP_SPLIT_WRITE_ANC: CommandId = [0x2B, 0x18];

/// Swipe action, read on request.
pub const CMD_SWIPE_READ: CommandId = [0x2B, 0x1F];

/// Swipe action, written.
pub const CMD_SWIPE_WRITE: CommandId = [0x2B, 0x1E];

/// Equalizer presets, read on request.
pub const CMD_EQUALIZER_READ: CommandId = [0x2B, 0x4A];

/// Equalizer preset, written; the device acknowledges under this id.
pub const CMD_EQUALIZER_WRITE: CommandId = [0x2B, 0x49];

/// Whether a second source may connect, read on request.
pub const CMD_DUAL_CONNECT_ENABLED_READ: CommandId = [0x2B, 0x2F];

/// Whether a second source may connect, written.
pub const CMD_DUAL_CONNECT_ENABLED_WRITE: CommandId = [0x2B, 0x2E];

/// Enumeration of the paired sources, one reply per source.
pub const CMD_DUAL_CONNECT_ENUMERATE: CommandId = [0x2B, 0x31];

/// The preferred source, written.
pub const CMD_DUAL_CONNECT_PREFERRED_WRITE: CommandId = [0x2B, 0x32];

/// An action on a source (connect, disconnect, unpair, automatic connection).
pub const CMD_DUAL_CONNECT_EXECUTE: CommandId = [0x2B, 0x33];

/// The list of sources changed.
pub const CMD_DUAL_CONNECT_CHANGE_EVENT: CommandId = [0x2B, 0x36];

} // verus!
