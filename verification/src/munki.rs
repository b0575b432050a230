//! ColorMunki measurement engine.
//!
//! The engine drives the vendor protocol over an abstract
//! [`Transport`]: it reads firmware information and the calibration
//! EEPROM on construction, triggers acquisitions, collects measurement
//! frames, and guards the measurement modes. It performs no waiting and no
//! floating-point work: after [`Munki::begin_measure`] the caller sleeps for
//! the returned number of milliseconds and then calls
//! [`Munki::finish_measure`] for the raw 137-sample frame, which the numeric
//! pipeline outside this crate turns into a spectrum.

use vstd::prelude::*;
use vstd::bytes::u32_from_le_bytes;
use vstd::slice::slice_subrange;
use crate::device::{DevicePosition, DeviceStatus};
use crate::eeprom::{eeprom_valid, parse_eeprom, trim_nuls, MunkiConfig};
use crate::errors::{ProtocolError, SpectroError};
use crate::protocol::{
    decode_firmware_info, decode_frames, encode_eeprom_request, encode_trigger, mode_flags,
    zero_pad, MunkiFirmwareInfo, CMD_GET_FIRMWARE, CMD_GET_STATUS, CMD_GET_VERSION,
    CMD_SET_EEPROM_ADDR, CMD_TRIGGER_MEASURE, EP_DATA_IN,
};
use crate::transport::Transport;
use crate::MeasurementMode;

verus! {

/// Timeout for control transfers, in milliseconds.
pub const CONTROL_TIMEOUT_MS: u64 = 2000;

/// Timeout for interrupt transfers, in milliseconds.
pub const INTERRUPT_TIMEOUT_MS: u64 = 5000;

/// Raw dial byte of the calibration-tile position.
pub const DIAL_CALIBRATION: u8 = 2;

/// ColorMunki spectrometer engine over a generic [`Transport`].
pub struct Munki<T: Transport> {
    transport: T,
    config: MunkiConfig,
    firmware: MunkiFirmwareInfo,
    dark_ref: Option<Vec<u16>>,
    white_cal_factors: Option<Vec<u32>>,
}

impl<T: Transport> Munki<T> {
    /// The parsed EEPROM configuration.
    pub closed spec fn spec_config(self) -> MunkiConfig {
        self.config
    }

    /// The firmware information read at construction.
    pub closed spec fn spec_firmware(self) -> MunkiFirmwareInfo {
        self.firmware
    }

    /// The dark reference frame, when one was measured or installed.
    pub closed spec fn spec_dark_ref(self) -> Option<Seq<u16>> {
        match self.dark_ref {
            Some(d) => Some(d@),
            None => None,
        }
    }

    /// The per-band white scaling factors (raw 32-bit float patterns), when
    /// white calibration was performed or installed.
    pub closed spec fn spec_white_cal_factors(self) -> Option<Seq<u32>> {
        match self.white_cal_factors {
            Some(f) => Some(f@),
            None => None,
        }
    }

    /// Well-formedness: the configuration has its fixed table lengths, a dark
    /// reference holds 137 samples and white factors hold 36 bands.
    pub open spec fn wf(self) -> bool {
        &&& self.spec_config().wf()
        &&& (self.spec_dark_ref() matches Some(d) ==> d.len() == 137)
        &&& (self.spec_white_cal_factors() matches Some(f) ==> f.len() == 36)
    }

    /// The engine's configuration decodes some checksum-valid EEPROM payload.
    pub open spec fn holds_valid_config(self) -> bool {
        exists|d: Seq<u8>| eeprom_valid(d) && self.spec_config().matches_payload(d)
    }

    /// Creates an engine from a transport: reads the firmware record and the
    /// calibration EEPROM, and rejects a payload whose checksum does not
    /// match. A fresh engine carries no runtime calibration.
    pub fn new(transport: T) -> (r: Result<Munki<T>, SpectroError>)
        ensures
            r matches Ok(m) ==> {
                &&& m.wf()
                &&& m.holds_valid_config()
                &&& m.spec_dark_ref() is None
                &&& m.spec_white_cal_factors() is None
            },
            r matches Err(e) ==> e is Transport || e is Eeprom,
    {
        let firmware = match Self::read_firmware_info(&transport) {
            Ok(f) => f,
            Err(e) => {
                return Err(e);
            },
        };
        let config = match Self::read_and_parse_eeprom(&transport) {
            Ok(c) => c,
            Err(e) => {
                return Err(e);
            },
        };
        Ok(
            Munki {
                transport,
                config,
                firmware,
                dark_ref: None,
                white_cal_factors: None,
            },
        )
    }

    /// Builds an engine from an already-decoded configuration, without any
    /// device traffic. Intended for scripted transports and offline work.
    pub fn from_parts(transport: T, config: MunkiConfig, firmware: MunkiFirmwareInfo) -> (r: Munki<
        T,
    >)
        requires
            config.wf(),
        ensures
            r.wf(),
            r.spec_config() == config,
            r.spec_firmware() == firmware,
            r.spec_dark_ref() is None,
            r.spec_white_cal_factors() is None,
    {
        Munki { transport, config, firmware, dark_ref: None, white_cal_factors: None }
    }

    /// Returns a reference to the underlying transport.
    pub fn transport(&self) -> (r: &T) {
        &self.transport
    }

    /// Returns the device configuration.
    pub fn config(&self) -> (r: &MunkiConfig)
        ensures
            *r == self.spec_config(),
    {
        &self.config
    }

    /// Returns the firmware information.
    pub fn firmware(&self) -> (r: &MunkiFirmwareInfo)
        ensures
            *r == self.spec_firmware(),
    {
        &self.firmware
    }

    /// Returns the dark reference frame, if any.
    pub fn dark_ref(&self) -> (r: &Option<Vec<u16>>)
        ensures
            self.spec_dark_ref() matches Some(d) ==> (r matches Some(v) && v@ == d),
            self.spec_dark_ref() is None ==> r is None,
    {
        &self.dark_ref
    }

    /// Returns the white calibration factors, if any.
    pub fn white_cal_factors(&self) -> (r: &Option<Vec<u32>>)
        ensures
            self.spec_white_cal_factors() matches Some(f) ==> (r matches Some(v) && v@ == f),
            self.spec_white_cal_factors() is None ==> r is None,
    {
        &self.white_cal_factors
    }

    // =======================================================================
    // Low-level device communication
    // =======================================================================

    fn read_firmware_info(transport: &T) -> (r: Result<MunkiFirmwareInfo, SpectroError>)
        ensures
            r matches Err(e) ==> e is Transport,
    {
        let buf = match transport.control_read(CMD_GET_FIRMWARE, 0, 0, 24, CONTROL_TIMEOUT_MS) {
            Ok(b) => b,
            Err(e) => {
                return Err(e);
            },
        };
        let padded = zero_pad(buf, 24);
        Ok(decode_firmware_info(&padded))
    }

    /// Reads `size` bytes of EEPROM starting at `addr`: a SET_EEPROM_ADDR
    /// command followed by one interrupt transfer; a short answer is
    /// zero-extended, as the device protocol fills a pre-zeroed buffer.
    pub fn read_eeprom(transport: &T, addr: u32, size: u32) -> (r: Result<Vec<u8>, SpectroError>)
        ensures
            r matches Ok(b) ==> b@.len() == size,
            r matches Err(e) ==> e is Transport,
    {
        let params = encode_eeprom_request(addr, size);
        match transport.control_write(CMD_SET_EEPROM_ADDR, 0, 0, &params, CONTROL_TIMEOUT_MS) {
            Ok(_) => (),
            Err(e) => {
                return Err(e);
            },
        }
        let buf = match transport.interrupt_read(EP_DATA_IN, size as usize, INTERRUPT_TIMEOUT_MS) {
            Ok(b) => b,
            Err(e) => {
                return Err(e);
            },
        };
        Ok(zero_pad(buf, size as usize))
    }

    /// Reads the calibration size word, fetches the full blob, and decodes
    /// it; fails on a truncated blob or a checksum mismatch.
    fn read_and_parse_eeprom(transport: &T) -> (r: Result<MunkiConfig, SpectroError>)
        ensures
            r matches Ok(cfg) ==> cfg.wf() && exists|d: Seq<u8>|
                eeprom_valid(d) && cfg.matches_payload(d),
            r matches Err(e) ==> e is Transport || e is Eeprom,
    {
        let size_buf = match Self::read_eeprom(transport, 4, 4) {
            Ok(b) => b,
            Err(e) => {
                return Err(e);
            },
        };
        let size = u32_from_le_bytes(slice_subrange(size_buf.as_slice(), 0, 4));
        let data = match Self::read_eeprom(transport, 0, size) {
            Ok(b) => b,
            Err(e) => {
                return Err(e);
            },
        };
        match parse_eeprom(&data) {
            Ok(cfg) => {
                proof {
                    assert(eeprom_valid(data@) && cfg.matches_payload(data@));
                }
                Ok(cfg)
            },
            Err(e) => Err(e),
        }
    }

    /// Reads the device's NUL-trimmed firmware version text.
    pub fn get_version_bytes(&self) -> (r: Result<Vec<u8>, SpectroError>)
        ensures
            r matches Ok(v) ==> v@.len() <= 100,
            r matches Err(e) ==> e is Transport,
    {
        let buf = match self.transport.control_read(CMD_GET_VERSION, 0, 0, 100, CONTROL_TIMEOUT_MS) {
            Ok(b) => b,
            Err(e) => {
                return Err(e);
            },
        };
        Ok(trim_nuls(&buf))
    }

    /// Polls the raw status bytes: dial position and button state.
    pub fn get_raw_status(&self) -> (r: Result<(u8, u8), SpectroError>)
        ensures
            r matches Err(e) ==> e is Transport,
    {
        let buf = match self.transport.control_read(CMD_GET_STATUS, 0, 0, 2, CONTROL_TIMEOUT_MS) {
            Ok(b) => b,
            Err(e) => {
                return Err(e);
            },
        };
        let padded = zero_pad(buf, 2);
        Ok((padded[0], padded[1]))
    }

    /// Polls the device status: the two polled bytes decoded through
    /// [`DeviceStatus::from_bytes`], with the calibration flag from the
    /// engine's own state; transport failures pass through unchanged.
    pub fn status(&self) -> (r: Result<DeviceStatus, SpectroError>)
        ensures
            r matches Ok(s) ==> {
                &&& s.is_calibrated == (self.spec_white_cal_factors() is Some)
                &&& exists|pos: u8, btn: u8|
                    s == #[trigger] DeviceStatus::spec_from_bytes(
                        pos,
                        btn,
                        self.spec_white_cal_factors() is Some,
                    )
            },
            r matches Err(e) ==> e is Transport,
    {
        let (pos, btn) = match self.get_raw_status() {
            Ok(p) => p,
            Err(e) => {
                return Err(e);
            },
        };
        let s = DeviceStatus::from_bytes(pos, btn, self.white_cal_factors.is_some());
        proof {
            assert(exists|p: u8, b: u8|
                s == #[trigger] DeviceStatus::spec_from_bytes(
                    p,
                    b,
                    self.spec_white_cal_factors() is Some,
                )) by {
                assert(s == DeviceStatus::spec_from_bytes(
                    pos,
                    btn,
                    self.spec_white_cal_factors() is Some,
                ));
            }
        }
        Ok(s)
    }

    /// Triggers an acquisition: lamp/gain flags, integration clocks, and the
    /// number of frames the firmware shall deliver.
    pub fn trigger_measure(&self, int_clocks: u32, num_meas: u32, flags: u8) -> (r: Result<
        (),
        SpectroError,
    >)
        ensures
            r matches Err(e) ==> e is Transport,
    {
        let pbuf = encode_trigger(int_clocks, num_meas, flags);
        match self.transport.control_write(CMD_TRIGGER_MEASURE, 0, 0, &pbuf, CONTROL_TIMEOUT_MS) {
            Ok(_) => Ok(()),
            Err(e) => Err(e),
        }
    }

    /// Collects the frames of a triggered acquisition: interrupt transfers
    /// are accumulated until `num_meas` frames arrived or a zero-length
    /// answer ends the wait; a total that is not a whole number of 274-byte
    /// frames fails with a short-read error.
    pub fn read_measurement(&self, num_meas: u32) -> (r: Result<Vec<Vec<u16>>, SpectroError>)
        requires
            274 * num_meas <= usize::MAX,
        ensures
            r matches Ok(frames) ==> {
                &&& frames@.len() <= num_meas
                &&& forall|f: int| 0 <= f < frames@.len() ==> #[trigger] frames@[f]@.len() == 137
            },
            r matches Err(e) ==> e is Transport || e == SpectroError::Protocol(
                ProtocolError::ShortRead,
            ),
    {
        let total: usize = 274 * (num_meas as usize);
        let mut buf: Vec<u8> = Vec::new();
        while buf.len() < total
            invariant
                buf@.len() <= total,
                total == 274 * num_meas,
            ensures
                buf@.len() <= total,
            decreases total - buf.len(),
        {
            let want = total - buf.len();
            match self.transport.interrupt_read(EP_DATA_IN, want, INTERRUPT_TIMEOUT_MS) {
                Ok(chunk) => {
                    if chunk.len() == 0 {
                        break ;
                    }
                    let mut c = chunk;
                    buf.append(&mut c);
                },
                Err(e) => {
                    return Err(e);
                },
            }
        }
        match decode_frames(&buf) {
            Ok(frames) => {
                proof {
                    assert(frames@.len() <= num_meas) by (nonlinear_arith)
                        requires
                            frames@.len() == buf@.len() / 274,
                            buf@.len() <= 274 * num_meas,
                    ;
                }
                Ok(frames)
            },
            Err(e) => Err(e),
        }
    }

    /// Triggers a single-frame acquisition and returns how many milliseconds
    /// the firmware integrates before [`Munki::finish_measure`] may collect
    /// the frame.
    pub fn begin_measure_spot(&self, lamp: bool, high_gain: bool) -> (r: Result<u64, SpectroError>)
        ensures
            r matches Ok(ms) ==> ms == self.spec_firmware().min_int_count as int
                * self.spec_firmware().tick_duration as int / 1000 + 200,
            r matches Err(e) ==> e is Transport,
    {
        let mut flags: u8 = 0;
        if lamp {
            flags = flags | crate::protocol::MMF_LAMP;
        }
        if high_gain {
            flags = flags | crate::protocol::MMF_HIGHGAIN;
        }
        let int_clocks = self.firmware.default_int_clocks();
        match self.trigger_measure(int_clocks, 1, flags) {
            Ok(_) => Ok(self.firmware.measurement_sleep_ms()),
            Err(e) => Err(e),
        }
    }

    /// Collects the single frame of a spot measurement; an empty or partial
    /// answer is a short read.
    pub fn finish_measure_spot(&self) -> (r: Result<Vec<u16>, SpectroError>)
        ensures
            r matches Ok(frame) ==> frame@.len() == 137,
            r matches Err(e) ==> e is Transport || e == SpectroError::Protocol(
                ProtocolError::ShortRead,
            ),
    {
        let mut readings = match self.read_measurement(1) {
            Ok(rs) => rs,
            Err(e) => {
                return Err(e);
            },
        };
        if readings.len() == 0 {
            return Err(SpectroError::Protocol(ProtocolError::ShortRead));
        }
        Ok(readings.remove(0))
    }

    // =======================================================================
    // Mode guards and calibration state
    // =======================================================================

    /// Starts a measurement in the given mode, enforcing the mode guards:
    /// reflective work needs white calibration, and ambient work needs the
    /// dial on the surface or ambient position. On success the caller waits
    /// the returned milliseconds and then calls [`Munki::finish_measure`].
    ///
    /// The calibration-missing error comes exactly on an uncalibrated
    /// reflective request, and the mode error only for ambient work; every
    /// other failure is the transport's.
    pub fn begin_measure(&self, mode: MeasurementMode) -> (r: Result<u64, SpectroError>)
        ensures
            mode == MeasurementMode::Reflective && self.spec_white_cal_factors() is None <==> r
                == Err::<u64, SpectroError>(SpectroError::CalibrationMissing),
            r == Err::<u64, SpectroError>(SpectroError::Mode) ==> mode == MeasurementMode::Ambient,
            r matches Err(e) ==> e is Transport || e == SpectroError::CalibrationMissing || e
                == SpectroError::Mode,
            r is Ok ==> (mode == MeasurementMode::Reflective
                ==> self.spec_white_cal_factors() is Some),
            r matches Ok(ms) ==> ms == self.spec_firmware().min_int_count as int
                * self.spec_firmware().tick_duration as int / 1000 + 200,
    {
        if matches!(mode, MeasurementMode::Reflective) && self.white_cal_factors.is_none() {
            return Err(SpectroError::CalibrationMissing);
        }
        if matches!(mode, MeasurementMode::Ambient) {
            let (pos, _) = match self.get_raw_status() {
                Ok(p) => p,
                Err(e) => {
                    return Err(e);
                },
            };
            if pos != 1 && pos != 3 {
                return Err(SpectroError::Mode);
            }
        }
        let flags = mode_flags(mode);
        let lamp = flags & crate::protocol::MMF_LAMP != 0;
        let high_gain = flags & crate::protocol::MMF_HIGHGAIN != 0;
        self.begin_measure_spot(lamp, high_gain)
    }

    /// Collects the raw 137-sample frame of a measurement started with
    /// [`Munki::begin_measure`].
    pub fn finish_measure(&self) -> (r: Result<Vec<u16>, SpectroError>)
        ensures
            r matches Ok(frame) ==> frame@.len() == 137,
            r matches Err(e) ==> e is Transport || e == SpectroError::Protocol(
                ProtocolError::ShortRead,
            ),
    {
        self.finish_measure_spot()
    }

    /// Checks that the dial stands on the calibration tile; any other
    /// position is rejected as unexpected, and transport failures pass
    /// through unchanged.
    pub fn require_calibration_position(&self) -> (r: Result<(), SpectroError>)
        ensures
            r matches Err(e) ==> e is Transport || e == SpectroError::Protocol(
                ProtocolError::UnexpectedPosition,
            ),
    {
        let (pos, _) = match self.get_raw_status() {
            Ok(p) => p,
            Err(e) => {
                return Err(e);
            },
        };
        if pos != DIAL_CALIBRATION {
            return Err(SpectroError::Protocol(ProtocolError::UnexpectedPosition));
        }
        Ok(())
    }

    /// Stores a freshly measured dark reference frame.
    pub fn set_dark_ref(&mut self, dark: Vec<u16>)
        requires
            dark@.len() == 137,
        ensures
            final(self).spec_dark_ref() == Some(dark@),
            final(self).spec_white_cal_factors() == old(self).spec_white_cal_factors(),
            final(self).spec_config() == old(self).spec_config(),
            final(self).spec_firmware() == old(self).spec_firmware(),
            old(self).wf() ==> final(self).wf(),
    {
        self.dark_ref = Some(dark);
    }

    /// Stores freshly computed white calibration factors (raw 32-bit float
    /// patterns, one per band).
    pub fn set_white_cal_factors(&mut self, factors: Vec<u32>)
        requires
            factors@.len() == 36,
        ensures
            final(self).spec_white_cal_factors() == Some(factors@),
            final(self).spec_dark_ref() == old(self).spec_dark_ref(),
            final(self).spec_config() == old(self).spec_config(),
            final(self).spec_firmware() == old(self).spec_firmware(),
            old(self).wf() ==> final(self).wf(),
    {
        self.white_cal_factors = Some(factors);
    }

    /// Removes the white calibration factors and hands them back; the white
    /// tile frame of a calibration run is processed without them.
    pub fn take_white_cal_factors(&mut self) -> (r: Option<Vec<u32>>)
        ensures
            final(self).spec_white_cal_factors() is None,
            final(self).spec_dark_ref() == old(self).spec_dark_ref(),
            final(self).spec_config() == old(self).spec_config(),
            final(self).spec_firmware() == old(self).spec_firmware(),
            old(self).spec_white_cal_factors() matches Some(f) ==> (r matches Some(v) && v@ == f),
            old(self).spec_white_cal_factors() is None ==> r is None,
            old(self).wf() ==> final(self).wf(),
    {
        self.white_cal_factors.take()
    }

    /// Installs a persisted calibration record. The record is accepted
    /// exactly when its lengths are right: 137 dark samples and 36 white
    /// factors; anything else is treated as absent.
    pub fn install_calibration(&mut self, dark: Vec<u16>, factors: Vec<u32>) -> (installed: bool)
        ensures
            installed <==> (dark@.len() == 137 && factors@.len() == 36),
            installed ==> final(self).spec_dark_ref() == Some(dark@)
                && final(self).spec_white_cal_factors() == Some(factors@),
            !installed ==> final(self).spec_dark_ref() == old(self).spec_dark_ref()
                && final(self).spec_white_cal_factors() == old(self).spec_white_cal_factors(),
            final(self).spec_config() == old(self).spec_config(),
            final(self).spec_firmware() == old(self).spec_firmware(),
            old(self).wf() ==> final(self).wf(),
    {
        if dark.len() == 137 && factors.len() == 36 {
            self.dark_ref = Some(dark);
            self.white_cal_factors = Some(factors);
            true
        } else {
            false
        }
    }

    /// Whether the engine is calibrated for the given mode: reflective work
    /// needs white factors; emissive and ambient work need none.
    pub fn is_calibrated(&self, mode: MeasurementMode) -> (r: bool)
        ensures
            r == match mode {
                MeasurementMode::Reflective => self.spec_white_cal_factors() is Some,
                MeasurementMode::Emissive => true,
                MeasurementMode::Ambient => true,
            },
    {
        match mode {
            MeasurementMode::Reflective => self.white_cal_factors.is_some(),
            MeasurementMode::Emissive => true,
            MeasurementMode::Ambient => true,
        }
    }

    /// The measurement modes this device supports.
    pub fn supported_modes(&self) -> (r: Vec<MeasurementMode>)
        ensures
            r@ == seq![
                MeasurementMode::Reflective,
                MeasurementMode::Emissive,
                MeasurementMode::Ambient,
            ],
    {
        let mut r: Vec<MeasurementMode> = Vec::new();
        r.push(MeasurementMode::Reflective);
        r.push(MeasurementMode::Emissive);
        r.push(MeasurementMode::Ambient);
        proof {
            assert(r@ =~= seq![
                MeasurementMode::Reflective,
                MeasurementMode::Emissive,
                MeasurementMode::Ambient,
            ]);
        }
        r
    }
}

} // verus!
