//! High-level spectrometer device records: dial position, status, identity.

use vstd::prelude::*;

verus! {

/// Information about a spectrometer device.
#[derive(Debug, Clone)]
pub struct DeviceInfo {
    /// Human-readable device model name (e.g., "ColorMunki").
    pub model: String,
    /// Device serial number.
    pub serial: String,
    /// Firmware version string.
    pub firmware: String,
}

/// The current status of a spectrometer device.
#[derive(Debug, Clone, Copy, PartialEq, Eq, Structural)]
pub struct DeviceStatus {
    /// The current physical position of the device dial.
    pub position: DevicePosition,
    /// Whether a button is currently pressed.
    pub button_pressed: bool,
    /// Whether the device is calibrated and ready for reflective measurement.
    pub is_calibrated: bool,
}

impl DeviceStatus {
    /// The status record a poll's two bytes decode to: byte 0 is the dial
    /// position, byte 1 is nonzero while a button is pressed; whether the
    /// engine is calibrated comes from its own state.
    pub open spec fn spec_from_bytes(pos: u8, btn: u8, is_calibrated: bool) -> DeviceStatus {
        DeviceStatus {
            position: DevicePosition::spec_from_raw(pos),
            button_pressed: btn != 0,
            is_calibrated,
        }
    }

    /// Decodes the two bytes of a status poll.
    pub fn from_bytes(pos: u8, btn: u8, is_calibrated: bool) -> (r: DeviceStatus)
        ensures
            r == DeviceStatus::spec_from_bytes(pos, btn, is_calibrated),
    {
        DeviceStatus {
            position: DevicePosition::from_raw(pos),
            button_pressed: btn != 0,
            is_calibrated,
        }
    }
}

/// Physical position of the 5-way mode selector dial on the device.
#[derive(Debug, Clone, Copy, PartialEq, Eq, Structural)]
pub enum DevicePosition {
    /// Projector/display measurement position.
    Projector,
    /// Surface/reflective measurement position.
    Surface,
    /// Calibration tile position.
    Calibration,
    /// Ambient light measurement position (with diffuser).
    Ambient,
    /// Unknown or unsupported position, carrying the raw dial byte.
    Unknown(u8),
}

impl DevicePosition {
    /// The device-true decoding of the raw dial byte delivered by a status
    /// poll: 0 Projector, 1 Surface, 2 Calibration, 3 Ambient, anything else
    /// Unknown with the raw byte kept for diagnostics.
    pub open spec fn spec_from_raw(raw: u8) -> DevicePosition {
        match raw {
            0u8 => DevicePosition::Projector,
            1u8 => DevicePosition::Surface,
            2u8 => DevicePosition::Calibration,
            3u8 => DevicePosition::Ambient,
            _ => DevicePosition::Unknown(raw),
        }
    }

    /// Decodes the raw dial byte of a status poll.
    pub fn from_raw(raw: u8) -> (r: DevicePosition)
        ensures
            r == DevicePosition::spec_from_raw(raw),
    {
        match raw {
            0u8 => DevicePosition::Projector,
            1u8 => DevicePosition::Surface,
            2u8 => DevicePosition::Calibration,
            3u8 => DevicePosition::Ambient,
            _ => DevicePosition::Unknown(raw),
        }
    }

    /// The raw dial byte this position decodes from.
    pub fn raw_value(&self) -> (r: u8)
        ensures
            r == match *self {
                DevicePosition::Projector => 0u8,
                DevicePosition::Surface => 1u8,
                DevicePosition::Calibration => 2u8,
                DevicePosition::Ambient => 3u8,
                DevicePosition::Unknown(b) => b,
            },
    {
        match self {
            DevicePosition::Projector => 0u8,
            DevicePosition::Surface => 1u8,
            DevicePosition::Calibration => 2u8,
            DevicePosition::Ambient => 3u8,
            DevicePosition::Unknown(b) => *b,
        }
    }

    /// Returns a human-readable name for this position.
    pub fn name(&self) -> (r: &'static str)
        ensures
            r@ == match self {
                DevicePosition::Projector => "Projector"@,
                DevicePosition::Surface => "Surface"@,
                DevicePosition::Calibration => "Calibration"@,
                DevicePosition::Ambient => "Ambient"@,
                DevicePosition::Unknown(_) => "Unknown"@,
            },
    {
        match self {
            DevicePosition::Projector => "Projector",
            DevicePosition::Surface => "Surface",
            DevicePosition::Calibration => "Calibration",
            DevicePosition::Ambient => "Ambient",
            DevicePosition::Unknown(_) => "Unknown",
        }
    }
}

} // verus!
