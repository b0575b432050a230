//! Byte-level codec of the ColorMunki vendor protocol.
//!
//! Commands travel as vendor control transfers; measurement data and EEPROM
//! contents arrive on interrupt endpoint 0x81. This module encodes command
//! payloads and decodes the device's answers; the transfers themselves are
//! made by the engine in [`crate::munki`] through a
//! [`crate::transport::Transport`].

use vstd::prelude::*;
use vstd::bytes::{
    spec_u16_from_le_bytes, spec_u32_from_le_bytes, spec_u32_to_le_bytes, u16_from_le_bytes,
    u32_from_le_bytes, u32_to_le_bytes,
};
use vstd::slice::slice_subrange;
use crate::errors::{ProtocolError, SpectroError};
use crate::MeasurementMode;

verus! {

/// GET_VERSION: up to 100 bytes of NUL-terminated text.
pub const CMD_GET_VERSION: u8 = 0x85;

/// GET_FIRMWARE: 24 bytes, six little-endian u32 fields.
pub const CMD_GET_FIRMWARE: u8 = 0x86;

/// GET_STATUS: 2 bytes, dial position and button state.
pub const CMD_GET_STATUS: u8 = 0x87;

/// GET_CHIP_ID: 8 bytes of device identity.
pub const CMD_GET_CHIP_ID: u8 = 0x8A;

/// TRIGGER_MEASURE: 12-byte payload starting an acquisition.
pub const CMD_TRIGGER_MEASURE: u8 = 0x80;

/// SET_EEPROM_ADDR: 8-byte payload; the data follows on the interrupt
/// endpoint.
pub const CMD_SET_EEPROM_ADDR: u8 = 0x81;

/// Measurement flag: illumination lamp on.
pub const MMF_LAMP: u8 = 0x01;

/// Measurement flag: high-gain amplification.
pub const MMF_HIGHGAIN: u8 = 0x04;

/// Interrupt IN endpoint carrying measurement and EEPROM data.
pub const EP_DATA_IN: u8 = 0x81;

/// Number of 16-bit sensor samples in one measurement frame.
pub const NSEN: usize = 137;

/// Bytes in one measurement frame (137 samples of 2 bytes).
pub const FRAME_BYTES: usize = 274;

// ===========================================================================
// Padding
// ===========================================================================

/// Extends a transfer answer with zero bytes up to `n`, mirroring a
/// pre-zeroed read buffer that a short transfer filled only partially.
pub fn zero_pad(buf: Vec<u8>, n: usize) -> (r: Vec<u8>)
    ensures
        r@.len() == if buf@.len() >= n {
            buf@.len() as int
        } else {
            n as int
        },
        forall|i: int| 0 <= i < buf@.len() ==> r@[i] == buf@[i],
        forall|i: int| buf@.len() <= i < r@.len() ==> r@[i] == 0u8,
{
    let mut r = buf;
    while r.len() < n
        invariant
            r@.len() <= n || r@ == buf@,
            buf@.len() <= r@.len(),
            forall|i: int| 0 <= i < buf@.len() ==> r@[i] == buf@[i],
            forall|i: int| buf@.len() <= i < r@.len() ==> r@[i] == 0u8,
        decreases n - r.len(),
    {
        r.push(0u8);
    }
    r
}

// ===========================================================================
// Firmware information
// ===========================================================================

/// Firmware information from the ColorMunki device.
#[derive(Debug, Clone, Copy, PartialEq, Eq, Structural)]
pub struct MunkiFirmwareInfo {
    pub fw_rev_major: u8,
    pub fw_rev_minor: u8,
    /// Duration of one integration clock tick, in microseconds.
    pub tick_duration: u32,
    /// Default integration time, in ticks.
    pub min_int_count: u32,
    pub num_eeprom_blocks: u32,
    pub eeprom_block_size: u32,
}

/// The little-endian u32 at byte offset `off` of a transfer answer.
pub open spec fn le32(b: Seq<u8>, off: int) -> u32 {
    spec_u32_from_le_bytes(b.subrange(off, off + 4))
}

impl MunkiFirmwareInfo {
    /// The fields as laid out in the 24-byte GET_FIRMWARE answer.
    pub open spec fn matches_payload(self, b: Seq<u8>) -> bool {
        &&& self.fw_rev_major == le32(b, 0) as u8
        &&& self.fw_rev_minor == le32(b, 4) as u8
        &&& self.tick_duration == le32(b, 8)
        &&& self.min_int_count == le32(b, 12)
        &&& self.num_eeprom_blocks == le32(b, 16)
        &&& self.eeprom_block_size == le32(b, 20)
    }

    /// The default integration length in clocks: the default integration time
    /// is `min_int_count` ticks, so the rounded ratio is `min_int_count`
    /// itself.
    pub fn default_int_clocks(&self) -> (r: u32)
        ensures
            r == self.min_int_count,
    {
        self.min_int_count
    }

    /// How long a caller must wait for the firmware to integrate, in
    /// milliseconds: the default integration time plus a 200 ms margin.
    pub fn measurement_sleep_ms(&self) -> (r: u64)
        ensures
            r == self.min_int_count as int * self.tick_duration as int / 1000 + 200,
    {
        let ticks: u64 = self.min_int_count as u64;
        let tick_us: u64 = self.tick_duration as u64;
        proof {
            assert(ticks * tick_us <= 0xffff_ffffu64 * 0xffff_ffffu64) by (nonlinear_arith)
                requires
                    ticks <= 0xffff_ffffu64,
                    tick_us <= 0xffff_ffffu64,
            ;
        }
        ticks * tick_us / 1000 + 200
    }
}

/// Decodes the 24-byte GET_FIRMWARE answer.
pub fn decode_firmware_info(b: &Vec<u8>) -> (r: MunkiFirmwareInfo)
    requires
        b@.len() >= 24,
    ensures
        r.matches_payload(b@),
{
    let w0 = u32_from_le_bytes(slice_subrange(b.as_slice(), 0, 4));
    let w1 = u32_from_le_bytes(slice_subrange(b.as_slice(), 4, 8));
    let w2 = u32_from_le_bytes(slice_subrange(b.as_slice(), 8, 12));
    let w3 = u32_from_le_bytes(slice_subrange(b.as_slice(), 12, 16));
    let w4 = u32_from_le_bytes(slice_subrange(b.as_slice(), 16, 20));
    let w5 = u32_from_le_bytes(slice_subrange(b.as_slice(), 20, 24));
    proof {
        assert((w0 & 0xff) < 256 && (w0 & 0xff) as u8 == w0 as u8) by (bit_vector);
        assert((w1 & 0xff) < 256 && (w1 & 0xff) as u8 == w1 as u8) by (bit_vector);
    }
    MunkiFirmwareInfo {
        fw_rev_major: (w0 & 0xff) as u8,
        fw_rev_minor: (w1 & 0xff) as u8,
        tick_duration: w2,
        min_int_count: w3,
        num_eeprom_blocks: w4,
        eeprom_block_size: w5,
    }
}

// ===========================================================================
// Command payloads
// ===========================================================================

/// Encodes the SET_EEPROM_ADDR payload: address then size, little-endian.
pub fn encode_eeprom_request(addr: u32, size: u32) -> (r: Vec<u8>)
    ensures
        r@ == spec_u32_to_le_bytes(addr) + spec_u32_to_le_bytes(size),
        r@.len() == 8,
{
    let mut r = u32_to_le_bytes(addr);
    let mut tail = u32_to_le_bytes(size);
    r.append(&mut tail);
    r
}

/// Encodes the 12-byte TRIGGER_MEASURE payload: lamp, scan (off), high gain,
/// temperature hold (off), integration clocks, number of measurements.
pub fn encode_trigger(int_clocks: u32, num_meas: u32, mode_flags: u8) -> (r: Vec<u8>)
    ensures
        r@.len() == 12,
        r@[0] == (if mode_flags & MMF_LAMP != 0 {
            1u8
        } else {
            0u8
        }),
        r@[1] == 0u8,
        r@[2] == (if mode_flags & MMF_HIGHGAIN != 0 {
            1u8
        } else {
            0u8
        }),
        r@[3] == 0u8,
        r@.subrange(4, 8) == spec_u32_to_le_bytes(int_clocks),
        r@.subrange(8, 12) == spec_u32_to_le_bytes(num_meas),
{
    let mut r: Vec<u8> = Vec::new();
    if mode_flags & MMF_LAMP != 0 {
        r.push(1u8);
    } else {
        r.push(0u8);
    }
    r.push(0u8);
    if mode_flags & MMF_HIGHGAIN != 0 {
        r.push(1u8);
    } else {
        r.push(0u8);
    }
    r.push(0u8);
    let mut clocks = u32_to_le_bytes(int_clocks);
    r.append(&mut clocks);
    let mut count = u32_to_le_bytes(num_meas);
    r.append(&mut count);
    proof {
        assert(r@.subrange(4, 8) =~= spec_u32_to_le_bytes(int_clocks));
        assert(r@.subrange(8, 12) =~= spec_u32_to_le_bytes(num_meas));
    }
    r
}

/// The measurement flags the engine uses for each mode: the lamp burns only
/// for reflective work, and emissive sources are read at high gain.
pub fn mode_flags(mode: MeasurementMode) -> (r: u8)
    ensures
        r == match mode {
            MeasurementMode::Reflective => MMF_LAMP,
            MeasurementMode::Emissive => MMF_HIGHGAIN,
            MeasurementMode::Ambient => 0u8,
        },
{
    match mode {
        MeasurementMode::Reflective => MMF_LAMP,
        MeasurementMode::Emissive => MMF_HIGHGAIN,
        MeasurementMode::Ambient => 0u8,
    }
}

// ===========================================================================
// Measurement frames
// ===========================================================================

/// Sample `k` of frame `f`: the little-endian u16 at byte `274 f + 2 k`.
pub open spec fn frame_sample(buf: Seq<u8>, f: int, k: int) -> u16 {
    spec_u16_from_le_bytes(buf.subrange(274 * f + 2 * k, 274 * f + 2 * k + 2))
}

/// Splits a measurement transfer into 137-sample frames.
///
/// Succeeds exactly when the transfer is a whole number of 274-byte frames;
/// otherwise the transfer was short and the read fails.
pub fn decode_frames(buf: &Vec<u8>) -> (r: Result<Vec<Vec<u16>>, SpectroError>)
    ensures
        r is Ok <==> buf@.len() % 274 == 0,
        buf@.len() % 274 != 0 ==> r == Err::<Vec<Vec<u16>>, SpectroError>(
            SpectroError::Protocol(ProtocolError::ShortRead),
        ),
        r matches Ok(frames) ==> {
            &&& frames@.len() == buf@.len() / 274
            &&& forall|f: int| 0 <= f < frames@.len() ==> #[trigger] frames@[f]@.len() == 137
            &&& forall|f: int, k: int|
                0 <= f < frames@.len() && 0 <= k < 137 ==> #[trigger] frames@[f]@[k]
                    == frame_sample(buf@, f, k)
        },
{
    let len: usize = buf.len();
    if len % 274 != 0 {
        return Err(SpectroError::Protocol(ProtocolError::ShortRead));
    }
    let n_frames: usize = len / 274;
    let mut frames: Vec<Vec<u16>> = Vec::new();
    let mut f: usize = 0;
    while f < n_frames
        invariant
            f <= n_frames,
            len == buf@.len(),
            len % 274 == 0,
            n_frames == len / 274,
            frames@.len() == f,
            forall|m: int| 0 <= m < f ==> #[trigger] frames@[m]@.len() == 137,
            forall|m: int, k: int|
                0 <= m < f && 0 <= k < 137 ==> #[trigger] frames@[m]@[k] == frame_sample(
                    buf@,
                    m,
                    k,
                ),
        decreases n_frames - f,
    {
        let base: usize = f * 274;
        proof {
            assert(base + 274 <= len) by (nonlinear_arith)
                requires
                    base == f * 274,
                    f < n_frames,
                    n_frames == len / 274,
                    len % 274 == 0,
            ;
        }
        let mut frame: Vec<u16> = Vec::new();
        let mut k: usize = 0;
        while k < 137
            invariant
                k <= 137,
                len == buf@.len(),
                base + 274 <= len,
                base == f * 274,
                frame@.len() == k,
                forall|q: int| 0 <= q < k ==> #[trigger] frame@[q] == frame_sample(buf@, f as int, q),
            decreases 137 - k,
        {
            let off = base + 2 * k;
            let s = u16_from_le_bytes(slice_subrange(buf.as_slice(), off, off + 2));
            frame.push(s);
            k = k + 1;
        }
        frames.push(frame);
        f = f + 1;
    }
    Ok(frames)
}

} // verus!
