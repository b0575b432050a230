//! Driver core and measurement engine for X-Rite ColorMunki spectrophotometers.
//!
//! The library is organized in layers:
//!
//! - [`transport`]: the [`transport::Transport`] trait abstracting raw
//!   control/interrupt transfers (USB in production, scripted transports in
//!   tests).
//! - [`device`]: dial positions, device status and identity records.
//! - [`eeprom`]: the 8169-byte calibration EEPROM decoder with its wrapped-sum
//!   checksum validation.
//! - [`protocol`]: the byte-level command and frame codec of the vendor
//!   protocol.
//! - [`munki`]: the ColorMunki engine tying the above together: firmware and
//!   EEPROM reads, measurement triggering, frame acquisition and the mode and
//!   calibration guards.
//! - [`icc`]: an ICC matrix-shaper profile byte writer over fixed-point
//!   values.
//! - [`theme`], [`language`], [`wizard`]: small state machines used by the
//!   surrounding user interfaces.
//!
//! Floating-point processing (linearization, spectral resampling, colorimetry)
//! lives outside this crate; the engine hands raw integer frames and opaque
//! 32-bit patterns to its callers.

use vstd::prelude::*;

pub mod device;
pub mod eeprom;
pub mod errors;
pub mod icc;
pub mod language;
pub mod munki;
pub mod protocol;
pub mod theme;
pub mod transport;
pub mod wizard;

verus! {

/// Specifies the type of measurement to perform.
#[derive(Debug, Clone, Copy, PartialEq, Eq, Structural)]
pub enum MeasurementMode {
    /// Reflective measurement (paper, prints, materials).
    /// Requires prior calibration with the white tile.
    Reflective,
    /// Emissive measurement (displays, monitors).
    /// Uses the internal emissive matrix; no calibration required.
    Emissive,
    /// Ambient light measurement.
    /// Requires the diffuser attachment to be in place.
    Ambient,
}

} // verus!
