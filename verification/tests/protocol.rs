//! Tests for the vendor protocol codec.

use spectro_rs::errors::{ProtocolError, SpectroError};
use spectro_rs::protocol::{
    decode_firmware_info, decode_frames, encode_eeprom_request, encode_trigger, mode_flags,
    zero_pad, MMF_HIGHGAIN, MMF_LAMP,
};
use spectro_rs::MeasurementMode;

#[test]
fn firmware_info_decodes_le_words() {
    let mut b = Vec::new();
    b.extend_from_slice(&0x0102_0304u32.to_le_bytes()); // major, truncated to u8
    b.extend_from_slice(&2u32.to_le_bytes()); // minor
    b.extend_from_slice(&100u32.to_le_bytes()); // tick in us
    b.extend_from_slice(&5000u32.to_le_bytes()); // min int count
    b.extend_from_slice(&16u32.to_le_bytes()); // eeprom blocks
    b.extend_from_slice(&1024u32.to_le_bytes()); // block size
    let fw = decode_firmware_info(&b);
    assert_eq!(fw.fw_rev_major, 0x04);
    assert_eq!(fw.fw_rev_minor, 2);
    assert_eq!(fw.tick_duration, 100);
    assert_eq!(fw.min_int_count, 5000);
    assert_eq!(fw.num_eeprom_blocks, 16);
    assert_eq!(fw.eeprom_block_size, 1024);
    // Default integration length and the integration wait: 5000 ticks of
    // 100 us are 500 ms, plus the fixed 200 ms margin.
    assert_eq!(fw.default_int_clocks(), 5000);
    assert_eq!(fw.measurement_sleep_ms(), 700);
}

#[test]
fn trigger_payload_layout() {
    let p = encode_trigger(0x01020304, 1, MMF_LAMP);
    assert_eq!(p.len(), 12);
    assert_eq!(p[0], 1); // lamp
    assert_eq!(p[1], 0); // scan off
    assert_eq!(p[2], 0); // normal gain
    assert_eq!(p[3], 0); // temperature hold off
    assert_eq!(&p[4..8], &[0x04, 0x03, 0x02, 0x01]); // clocks, little-endian
    assert_eq!(&p[8..12], &[1, 0, 0, 0]); // one measurement

    let q = encode_trigger(7, 2, MMF_HIGHGAIN);
    assert_eq!(q[0], 0);
    assert_eq!(q[2], 1);
    assert_eq!(&q[4..8], &[7, 0, 0, 0]);
    assert_eq!(&q[8..12], &[2, 0, 0, 0]);
}

#[test]
fn eeprom_request_layout() {
    let p = encode_eeprom_request(0x1234, 0x2007);
    assert_eq!(p, vec![0x34, 0x12, 0, 0, 0x07, 0x20, 0, 0]);
}

#[test]
fn mode_flag_assignment() {
    // The lamp burns only for reflective work; emissive reads at high gain.
    assert_eq!(mode_flags(MeasurementMode::Reflective), MMF_LAMP);
    assert_eq!(mode_flags(MeasurementMode::Emissive), MMF_HIGHGAIN);
    assert_eq!(mode_flags(MeasurementMode::Ambient), 0);
}

#[test]
fn frames_decode_le_samples() {
    let mut buf = vec![0u8; 274 * 2];
    // Frame 0, sample 0 = 0x0201; frame 0, sample 136 = 0xBBAA.
    buf[0] = 0x01;
    buf[1] = 0x02;
    buf[272] = 0xAA;
    buf[273] = 0xBB;
    // Frame 1, sample 3 = 1000.
    let off = 274 + 6;
    buf[off..off + 2].copy_from_slice(&1000u16.to_le_bytes());
    let frames = decode_frames(&buf).expect("whole frames decode");
    assert_eq!(frames.len(), 2);
    assert_eq!(frames[0].len(), 137);
    assert_eq!(frames[1].len(), 137);
    assert_eq!(frames[0][0], 0x0201);
    assert_eq!(frames[0][136], 0xBBAA);
    assert_eq!(frames[1][3], 1000);
}

#[test]
fn partial_frame_is_short_read() {
    let buf = vec![0u8; 273];
    match decode_frames(&buf) {
        Err(SpectroError::Protocol(ProtocolError::ShortRead)) => (),
        other => panic!("expected ShortRead, got {:?}", other),
    }
    let buf2 = vec![0u8; 274 + 1];
    assert!(decode_frames(&buf2).is_err());
    // Zero bytes are a whole number of frames: no frames at all.
    let frames = decode_frames(&Vec::new()).expect("empty transfer decodes");
    assert_eq!(frames.len(), 0);
}

#[test]
fn zero_pad_extends_and_keeps() {
    let p = zero_pad(vec![1, 2], 4);
    assert_eq!(p, vec![1, 2, 0, 0]);
    let q = zero_pad(vec![1, 2, 3], 2);
    assert_eq!(q, vec![1, 2, 3]);
    let r = zero_pad(Vec::new(), 3);
    assert_eq!(r, vec![0, 0, 0]);
}
