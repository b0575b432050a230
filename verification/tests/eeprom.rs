//! Tests for the calibration EEPROM decoder and its checksum.

use spectro_rs::eeprom::{compute_checksum, parse_eeprom, trim_nuls};
use spectro_rs::errors::{EepromError, SpectroError};

/// Independent wrapped-sum reference: 4-byte little-endian words, the word at
/// offset 8 skipped, the tail zero-extended.
fn reference_checksum(data: &[u8]) -> u32 {
    let mut sum: u32 = 0;
    let mut i = 0;
    while i < data.len() {
        if i == 8 {
            i += 4;
            continue;
        }
        let mut word = [0u8; 4];
        let take = (data.len() - i).min(4);
        word[..take].copy_from_slice(&data[i..i + take]);
        sum = sum.wrapping_add(u32::from_le_bytes(word));
        i += 4;
    }
    sum
}

/// A synthetic but fully valid calibration blob.
fn build_blob(cal_version: u16) -> Vec<u8> {
    let mut d = vec![0u8; 8169];
    d[0..2].copy_from_slice(&cal_version.to_le_bytes());
    d[12..16].copy_from_slice(&7u32.to_le_bytes());
    d[24..30].copy_from_slice(b"ABC123");
    for w in 0..36usize {
        d[40 + 4 * w..40 + 4 * w + 4].copy_from_slice(&(w as u32).to_le_bytes());
        d[2488 + 4 * w..2488 + 4 * w + 4].copy_from_slice(&(w as u32 + 100).to_le_bytes());
    }
    let one = 1.0f32.to_bits().to_le_bytes();
    for w in 0..36usize {
        // One-hot rows: coefficient k = 0 of each row is 1.0.
        let off = 184 + 4 * (w * 16);
        d[off..off + 4].copy_from_slice(&one);
        let eoff = 2632 + 4 * (w * 16);
        d[eoff..eoff + 4].copy_from_slice(&eoff_pattern(w));
    }
    // lin_normal = [0, 1, 0, 0] delivered constant-first; stored reversed.
    d[4936 + 8..4936 + 12].copy_from_slice(&one);
    // lin_high = [2.0, 0, 0, 0]; stored reversed, so 2.0 sits last.
    d[4952 + 12..4952 + 16].copy_from_slice(&2.0f32.to_bits().to_le_bytes());
    for w in 0..36usize {
        d[4968 + 4 * w..4968 + 4 * w + 4].copy_from_slice(&(0.9f32.to_bits()).to_le_bytes());
        d[5112 + 4 * w..5112 + 4 * w + 4].copy_from_slice(&(0.5f32.to_bits()).to_le_bytes());
        d[5256 + 4 * w..5256 + 4 * w + 4].copy_from_slice(&(0.25f32.to_bits()).to_le_bytes());
        d[8024 + 4 * w..8024 + 4 * w + 4].copy_from_slice(&(2.5f32.to_bits()).to_le_bytes());
    }
    let sum = reference_checksum(&d);
    d[8..12].copy_from_slice(&sum.to_le_bytes());
    // The checksum word itself is skipped, so the sum still matches.
    d
}

fn eoff_pattern(w: usize) -> [u8; 4] {
    ((w as u32) * 3 + 1).to_le_bytes()
}

#[test]
fn checksum_small_with_tail() {
    // Words 1, 2, (skipped), 3, and a zero-extended tail of 5.
    let mut d = Vec::new();
    d.extend_from_slice(&1u32.to_le_bytes());
    d.extend_from_slice(&2u32.to_le_bytes());
    d.extend_from_slice(&[9, 9, 9, 9]);
    d.extend_from_slice(&3u32.to_le_bytes());
    d.push(5);
    assert_eq!(compute_checksum(&d), 11);
    assert_eq!(compute_checksum(&d), reference_checksum(&d));
}

#[test]
fn checksum_wraps() {
    let mut d = Vec::new();
    d.extend_from_slice(&0xFFFF_FFFFu32.to_le_bytes());
    d.extend_from_slice(&2u32.to_le_bytes());
    assert_eq!(compute_checksum(&d), 1);
}

#[test]
fn checksum_empty_and_short() {
    assert_eq!(compute_checksum(&Vec::new()), 0);
    assert_eq!(compute_checksum(&vec![0x10]), 0x10);
    let d = vec![1, 0, 0, 0, 2, 0, 0, 0, 0xAA, 0xBB];
    // The 2-byte tail at offset 8 falls in the skipped checksum word.
    assert_eq!(compute_checksum(&d), 3);
    assert_eq!(compute_checksum(&d), reference_checksum(&d));
}

#[test]
fn parse_valid_blob() {
    let blob = build_blob(3);
    let cfg = parse_eeprom(&blob).expect("valid blob decodes");
    assert_eq!(cfg.cal_version, 3);
    assert_eq!(cfg.production_no, 7);
    assert_eq!(cfg.serial_number, b"ABC123".to_vec());
    assert_eq!(cfg.rmtx_index.len(), 36);
    assert_eq!(cfg.rmtx_index[0], 0);
    assert_eq!(cfg.rmtx_index[35], 35);
    assert_eq!(cfg.emtx_index[0], 100);
    assert_eq!(cfg.rmtx_coef.len(), 576);
    assert_eq!(cfg.rmtx_coef[0], 1.0f32.to_bits());
    assert_eq!(cfg.rmtx_coef[16], 1.0f32.to_bits());
    assert_eq!(cfg.rmtx_coef[1], 0);
    // Reversal: delivered constant-first.
    assert_eq!(cfg.lin_normal, vec![0, 1.0f32.to_bits(), 0, 0]);
    assert_eq!(cfg.lin_high, vec![2.0f32.to_bits(), 0, 0, 0]);
    assert_eq!(cfg.white_ref[35], 0.9f32.to_bits());
    assert_eq!(cfg.emis_coef[0], 0.5f32.to_bits());
    assert_eq!(cfg.amb_coef[17], 0.25f32.to_bits());
    // Version 3: no projector table.
    assert!(cfg.proj_coef.is_none());
}

#[test]
fn parse_version_5_has_projector_table() {
    let blob = build_blob(5);
    let cfg = parse_eeprom(&blob).expect("valid blob decodes");
    assert!(cfg.proj_coef.is_some());
    let proj = cfg.proj_coef.unwrap();
    assert_eq!(proj.len(), 36);
    assert_eq!(proj[0], 2.5f32.to_bits());
}

#[test]
fn parse_truncated() {
    let blob = vec![0u8; 8168];
    match parse_eeprom(&blob) {
        Err(SpectroError::Eeprom(EepromError::Truncated)) => (),
        other => panic!("expected Truncated, got {:?}", other),
    }
}

#[test]
fn flipped_byte_is_rejected() {
    // Mutating a summed byte changes the computed checksum and fails the
    // decode with both values reported.
    let blob = build_blob(3);
    let good_sum = reference_checksum(&blob);
    let mut bad = blob.clone();
    bad[100] ^= 0x01;
    assert_ne!(reference_checksum(&bad), good_sum);
    match parse_eeprom(&bad) {
        Err(SpectroError::Eeprom(EepromError::ChecksumMismatch { computed, stored })) => {
            assert_eq!(stored, good_sum);
            assert_ne!(computed, stored);
        }
        other => panic!("expected ChecksumMismatch, got {:?}", other),
    }
}

#[test]
fn flipped_tail_byte_is_rejected() {
    // The very last byte sits in the zero-extended tail word and still
    // participates in the sum.
    let blob = build_blob(3);
    let mut bad = blob.clone();
    bad[8168] ^= 0x80;
    assert!(parse_eeprom(&bad).is_err());
}

#[test]
fn checksum_byte_change_does_not_flip_sum() {
    // Bytes 8..12 hold the stored checksum and are skipped by the sum.
    let blob = build_blob(3);
    let mut other = blob.clone();
    other[9] ^= 0xFF;
    assert_eq!(reference_checksum(&blob), reference_checksum(&other));
    assert_eq!(compute_checksum(&blob), compute_checksum(&other));
}

#[test]
fn trim_nuls_both_ends() {
    assert_eq!(trim_nuls(&vec![0, 0, 65, 0, 66, 0, 0]), vec![65, 0, 66]);
    assert_eq!(trim_nuls(&vec![0, 0, 0]), Vec::<u8>::new());
    assert_eq!(trim_nuls(&Vec::new()), Vec::<u8>::new());
    assert_eq!(trim_nuls(&vec![65, 66]), vec![65, 66]);
}
