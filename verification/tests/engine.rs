//! Tests for the ColorMunki engine over a scripted transport.

use std::cell::RefCell;
use std::collections::VecDeque;

use spectro_rs::errors::{ProtocolError, SpectroError};
use spectro_rs::munki::Munki;
use spectro_rs::transport::Transport;
use spectro_rs::MeasurementMode;

/// A scripted transport: queued answers for reads, a log of writes.
struct ScriptedTransport {
    control_reads: RefCell<VecDeque<Vec<u8>>>,
    interrupt_reads: RefCell<VecDeque<Vec<u8>>>,
    control_writes: RefCell<Vec<(u8, u16, u16, Vec<u8>)>>,
}

impl ScriptedTransport {
    fn new() -> Self {
        ScriptedTransport {
            control_reads: RefCell::new(VecDeque::new()),
            interrupt_reads: RefCell::new(VecDeque::new()),
            control_writes: RefCell::new(Vec::new()),
        }
    }

    fn queue_control_read(&self, data: Vec<u8>) {
        self.control_reads.borrow_mut().push_back(data);
    }

    fn queue_interrupt_read(&self, data: Vec<u8>) {
        self.interrupt_reads.borrow_mut().push_back(data);
    }
}

impl Transport for ScriptedTransport {
    fn control_read(
        &self,
        _request: u8,
        _value: u16,
        _index: u16,
        max_len: usize,
        _timeout_ms: u64,
    ) -> Result<Vec<u8>, SpectroError> {
        let mut data = self.control_reads.borrow_mut().pop_front().unwrap_or_default();
        data.truncate(max_len);
        Ok(data)
    }

    fn control_write(
        &self,
        request: u8,
        value: u16,
        index: u16,
        data: &Vec<u8>,
        _timeout_ms: u64,
    ) -> Result<usize, SpectroError> {
        self.control_writes.borrow_mut().push((request, value, index, data.clone()));
        Ok(data.len())
    }

    fn interrupt_read(
        &self,
        _endpoint: u8,
        max_len: usize,
        _timeout_ms: u64,
    ) -> Result<Vec<u8>, SpectroError> {
        let mut data = self.interrupt_reads.borrow_mut().pop_front().unwrap_or_default();
        data.truncate(max_len);
        Ok(data)
    }

    fn name(&self) -> &'static str {
        "Scripted"
    }
}

fn reference_checksum(data: &[u8]) -> u32 {
    let mut sum: u32 = 0;
    let mut i = 0;
    while i < data.len() {
        if i == 8 {
            i += 4;
            continue;
        }
        let mut word = [0u8; 4];
        let take = (data.len() - i).min(4);
        word[..take].copy_from_slice(&data[i..i + take]);
        sum = sum.wrapping_add(u32::from_le_bytes(word));
        i += 4;
    }
    sum
}

fn build_blob() -> Vec<u8> {
    let mut d = vec![0u8; 8169];
    d[0..2].copy_from_slice(&3u16.to_le_bytes());
    d[24..30].copy_from_slice(b"SN4711");
    let sum = reference_checksum(&d);
    d[8..12].copy_from_slice(&sum.to_le_bytes());
    d
}

/// Scripts the construction traffic: firmware record, EEPROM size word,
/// EEPROM blob.
fn script_construction(t: &ScriptedTransport, blob: &[u8]) {
    let mut fw = Vec::new();
    fw.extend_from_slice(&1u32.to_le_bytes());
    fw.extend_from_slice(&2u32.to_le_bytes());
    fw.extend_from_slice(&100u32.to_le_bytes()); // tick: 100 us
    fw.extend_from_slice(&5000u32.to_le_bytes()); // default integration ticks
    fw.extend_from_slice(&16u32.to_le_bytes());
    fw.extend_from_slice(&1024u32.to_le_bytes());
    t.queue_control_read(fw);
    t.queue_interrupt_read((blob.len() as u32).to_le_bytes().to_vec());
    t.queue_interrupt_read(blob.to_vec());
}

#[test]
fn engine_construction_reads_firmware_and_eeprom() {
    let t = ScriptedTransport::new();
    script_construction(&t, &build_blob());
    let munki = Munki::new(t).expect("construction succeeds");
    assert_eq!(munki.firmware().fw_rev_major, 1);
    assert_eq!(munki.firmware().fw_rev_minor, 2);
    assert_eq!(munki.config().cal_version, 3);
    assert_eq!(munki.config().serial_number, b"SN4711".to_vec());
    assert!(munki.dark_ref().is_none());
    assert!(munki.white_cal_factors().is_none());
    // The construction wrote two EEPROM read requests.
    let writes = munki.transport().control_writes.borrow().clone();
    assert_eq!(writes.len(), 2);
    assert_eq!(writes[0].0, 0x81);
    assert_eq!(writes[0].3, vec![4, 0, 0, 0, 4, 0, 0, 0]);
    assert_eq!(writes[1].3, vec![0, 0, 0, 0, 0xE9, 0x1F, 0, 0]);
}

#[test]
fn engine_rejects_corrupt_eeprom() {
    let t = ScriptedTransport::new();
    let mut blob = build_blob();
    blob[40] ^= 0xFF;
    script_construction(&t, &blob);
    match Munki::new(t) {
        Err(SpectroError::Eeprom(_)) => (),
        other => panic!("expected an EEPROM error, got {:?}", other.map(|_| ())),
    }
}

#[test]
fn status_decodes_dial_and_button() {
    let t = ScriptedTransport::new();
    script_construction(&t, &build_blob());
    let munki = Munki::new(t).expect("construction succeeds");
    munki.transport().queue_control_read(vec![2, 1]);
    let s = munki.status().expect("status decodes");
    assert_eq!(s.position.name(), "Calibration");
    assert!(s.button_pressed);
    assert!(!s.is_calibrated);
}

#[test]
fn reflective_requires_calibration() {
    let t = ScriptedTransport::new();
    script_construction(&t, &build_blob());
    let mut munki = Munki::new(t).expect("construction succeeds");
    match munki.begin_measure(MeasurementMode::Reflective) {
        Err(SpectroError::CalibrationMissing) => (),
        other => panic!("expected CalibrationMissing, got {:?}", other),
    }
    assert!(!munki.is_calibrated(MeasurementMode::Reflective));
    assert!(munki.is_calibrated(MeasurementMode::Emissive));
    assert!(munki.is_calibrated(MeasurementMode::Ambient));
    // After installing a calibration record, reflective work may start.
    let installed = munki.install_calibration(vec![0u16; 137], vec![1.0f32.to_bits(); 36]);
    assert!(installed);
    assert!(munki.is_calibrated(MeasurementMode::Reflective));
    let ms = munki
        .begin_measure(MeasurementMode::Reflective)
        .expect("reflective measurement starts");
    // 5000 ticks of 100 us, plus the 200 ms margin.
    assert_eq!(ms, 700);
}

#[test]
fn ambient_requires_dial_position() {
    let t = ScriptedTransport::new();
    script_construction(&t, &build_blob());
    let munki = Munki::new(t).expect("construction succeeds");
    // Dial on the projector position: ambient work is refused.
    munki.transport().queue_control_read(vec![0, 0]);
    match munki.begin_measure(MeasurementMode::Ambient) {
        Err(SpectroError::Mode) => (),
        other => panic!("expected Mode, got {:?}", other),
    }
    // Dial on the ambient position: the trigger goes out.
    munki.transport().queue_control_read(vec![3, 0]);
    munki.begin_measure(MeasurementMode::Ambient).expect("ambient starts");
    let writes = munki.transport().control_writes.borrow().clone();
    let trigger = writes.last().expect("a trigger was written");
    assert_eq!(trigger.0, 0x80);
    assert_eq!(trigger.3[0], 0); // lamp off
    assert_eq!(trigger.3[2], 0); // normal gain
    assert_eq!(&trigger.3[4..8], &5000u32.to_le_bytes());
}

#[test]
fn measurement_frames_come_back() {
    let t = ScriptedTransport::new();
    script_construction(&t, &build_blob());
    let munki = Munki::new(t).expect("construction succeeds");
    munki.begin_measure(MeasurementMode::Emissive).expect("emissive starts");
    // The frame arrives split across two interrupt answers.
    let mut frame = vec![0u8; 274];
    frame[0..2].copy_from_slice(&1000u16.to_le_bytes());
    frame[272..274].copy_from_slice(&42u16.to_le_bytes());
    munki.transport().queue_interrupt_read(frame[..100].to_vec());
    munki.transport().queue_interrupt_read(frame[100..].to_vec());
    let samples = munki.finish_measure().expect("one frame comes back");
    assert_eq!(samples.len(), 137);
    assert_eq!(samples[0], 1000);
    assert_eq!(samples[136], 42);
}

#[test]
fn empty_measurement_is_short_read() {
    let t = ScriptedTransport::new();
    script_construction(&t, &build_blob());
    let munki = Munki::new(t).expect("construction succeeds");
    munki.begin_measure(MeasurementMode::Emissive).expect("emissive starts");
    // No queued data: the first interrupt answer is empty.
    match munki.finish_measure() {
        Err(SpectroError::Protocol(ProtocolError::ShortRead)) => (),
        other => panic!("expected ShortRead, got {:?}", other),
    }
}

#[test]
fn install_calibration_validates_lengths() {
    let t = ScriptedTransport::new();
    script_construction(&t, &build_blob());
    let mut munki = Munki::new(t).expect("construction succeeds");
    assert!(!munki.install_calibration(vec![0u16; 136], vec![0u32; 36]));
    assert!(!munki.install_calibration(vec![0u16; 137], vec![0u32; 35]));
    assert!(munki.white_cal_factors().is_none());
    assert!(munki.install_calibration(vec![0u16; 137], vec![0u32; 36]));
    assert!(munki.dark_ref().is_some());
    assert!(munki.white_cal_factors().is_some());
    // Taking the white factors leaves the engine uncalibrated again.
    let taken = munki.take_white_cal_factors();
    assert_eq!(taken.unwrap().len(), 36);
    assert!(!munki.is_calibrated(MeasurementMode::Reflective));
}

#[test]
fn calibration_position_is_checked() {
    let t = ScriptedTransport::new();
    script_construction(&t, &build_blob());
    let munki = Munki::new(t).expect("construction succeeds");
    munki.transport().queue_control_read(vec![1, 0]);
    match munki.require_calibration_position() {
        Err(SpectroError::Protocol(ProtocolError::UnexpectedPosition)) => (),
        other => panic!("expected UnexpectedPosition, got {:?}", other),
    }
    munki.transport().queue_control_read(vec![2, 0]);
    munki.require_calibration_position().expect("calibration position accepted");
}

#[test]
fn supported_modes_are_complete() {
    let t = ScriptedTransport::new();
    script_construction(&t, &build_blob());
    let munki = Munki::new(t).expect("construction succeeds");
    let modes = munki.supported_modes();
    assert_eq!(
        modes,
        vec![
            MeasurementMode::Reflective,
            MeasurementMode::Emissive,
            MeasurementMode::Ambient,
        ]
    );
}

/// A transport whose bus is down: every transfer fails.
struct DownTransport;

impl Transport for DownTransport {
    fn control_read(
        &self,
        _request: u8,
        _value: u16,
        _index: u16,
        _max_len: usize,
        _timeout_ms: u64,
    ) -> Result<Vec<u8>, SpectroError> {
        Err(SpectroError::Transport(String::from("bus down")))
    }

    fn control_write(
        &self,
        _request: u8,
        _value: u16,
        _index: u16,
        _data: &Vec<u8>,
        _timeout_ms: u64,
    ) -> Result<usize, SpectroError> {
        Err(SpectroError::Transport(String::from("bus down")))
    }

    fn interrupt_read(
        &self,
        _endpoint: u8,
        _max_len: usize,
        _timeout_ms: u64,
    ) -> Result<Vec<u8>, SpectroError> {
        Err(SpectroError::Transport(String::from("bus down")))
    }

    fn name(&self) -> &'static str {
        "Down"
    }
}

#[test]
fn transport_errors_pass_through() {
    // Construction surfaces the transport's own error unchanged.
    match Munki::new(DownTransport) {
        Err(SpectroError::Transport(msg)) => assert_eq!(msg, "bus down"),
        other => panic!("expected a transport error, got {:?}", other.map(|_| ())),
    }
    // A status poll decodes whatever dial byte arrived, raw byte kept.
    let t = ScriptedTransport::new();
    script_construction(&t, &build_blob());
    let munki = Munki::new(t).expect("construction succeeds");
    munki.transport().queue_control_read(vec![7, 0]);
    let s = munki.status().expect("status decodes");
    assert_eq!(s.position.name(), "Unknown");
    assert!(!s.button_pressed);
}

#[test]
fn guard_errors_are_attributed() {
    let t = ScriptedTransport::new();
    script_construction(&t, &build_blob());
    let munki = Munki::new(t).expect("construction succeeds");
    // Emissive and ambient-on-the-right-dial starts never report a missing
    // calibration; reflective without white factors reports exactly that.
    munki.begin_measure(MeasurementMode::Emissive).expect("emissive starts");
    munki.transport().queue_control_read(vec![1, 0]);
    munki.begin_measure(MeasurementMode::Ambient).expect("ambient starts on surface dial");
    match munki.begin_measure(MeasurementMode::Reflective) {
        Err(SpectroError::CalibrationMissing) => (),
        other => panic!("expected CalibrationMissing, got {:?}", other),
    }
}

#[test]
fn version_text_is_trimmed() {
    let t = ScriptedTransport::new();
    script_construction(&t, &build_blob());
    let munki = Munki::new(t).expect("construction succeeds");
    let mut v = b"Firmware 1.2".to_vec();
    v.push(0);
    v.push(0);
    munki.transport().queue_control_read(v);
    let text = munki.get_version_bytes().expect("version text comes back");
    assert_eq!(text, b"Firmware 1.2".to_vec());
}
