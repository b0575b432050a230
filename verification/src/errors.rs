//! Error taxonomy for spectrometer operations.

use vstd::prelude::*;

verus! {

/// Errors raised while decoding the calibration EEPROM.
#[derive(Debug, Clone, Copy, PartialEq, Eq, Structural)]
pub enum EepromError {
    /// The payload is shorter than the 8169 bytes a calibration blob holds.
    Truncated,
    /// The wrapped 32-bit word sum over the payload does not equal the
    /// checksum stored at offset 8.
    ChecksumMismatch { computed: u32, stored: u32 },
}

/// Errors raised by the byte-level device protocol.
#[derive(Debug, Clone, Copy, PartialEq, Eq, Structural)]
pub enum ProtocolError {
    /// A measurement transfer ended on a total that is not a whole number of
    /// 274-byte frames, or delivered no frame at all.
    ShortRead,
    /// The dial is not in the position the requested operation needs.
    UnexpectedPosition,
}

/// The error type for spectrometer operations.
#[derive(Debug, Clone, PartialEq, Eq)]
pub enum SpectroError {
    /// Transport (USB) failure, carrying the platform error text.
    Transport(String),
    /// Protocol-level failure.
    Protocol(ProtocolError),
    /// Corrupt calibration EEPROM; the instrument is unusable.
    Eeprom(EepromError),
    /// A reflective measurement was requested before white calibration.
    CalibrationMissing,
    /// The operation is invalid for the current mode or dial position.
    Mode,
    /// A numeric stage outside this crate produced a NaN or infinity.
    Numeric,
}

impl SpectroError {
    /// A short human-readable description of the error kind.
    pub fn describe(&self) -> (r: &'static str)
        ensures
            r@ == match self {
                SpectroError::Transport(_) => "transport error"@,
                SpectroError::Protocol(ProtocolError::ShortRead) => "short read"@,
                SpectroError::Protocol(ProtocolError::UnexpectedPosition) => (
                "unexpected dial position"@),
                SpectroError::Eeprom(EepromError::Truncated) => "EEPROM data too short"@,
                SpectroError::Eeprom(EepromError::ChecksumMismatch { .. }) => (
                "EEPROM checksum mismatch"@),
                SpectroError::CalibrationMissing => "calibration required"@,
                SpectroError::Mode => "mode mismatch"@,
                SpectroError::Numeric => "numeric error"@,
            },
    {
        match self {
            SpectroError::Transport(_) => "transport error",
            SpectroError::Protocol(ProtocolError::ShortRead) => "short read",
            SpectroError::Protocol(ProtocolError::UnexpectedPosition) => {
                "unexpected dial position"
            },
            SpectroError::Eeprom(EepromError::Truncated) => "EEPROM data too short",
            SpectroError::Eeprom(EepromError::ChecksumMismatch { .. }) => {
                "EEPROM checksum mismatch"
            },
            SpectroError::CalibrationMissing => "calibration required",
            SpectroError::Mode => "mode mismatch",
            SpectroError::Numeric => "numeric error",
        }
    }
}

/// A specialized result type for spectrometer operations.
pub type SpectroResult<T> = Result<T, SpectroError>;

} // verus!
