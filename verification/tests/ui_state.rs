//! Tests for the device records and the user-interface state machines.

use spectro_rs::device::{DevicePosition, DeviceStatus};
use spectro_rs::errors::{EepromError, ProtocolError, SpectroError};
use spectro_rs::language::Language;
use spectro_rs::theme::{ThemeConfig, ThemeMode};
use spectro_rs::wizard::{CalibrationStep, CalibrationWizard};
use spectro_rs::MeasurementMode;

#[test]
fn test_theme_mode_cycling() {
    let mut mode = ThemeMode::Light;
    mode = mode.next();
    assert_eq!(mode, ThemeMode::Dark);
    mode = mode.next();
    assert_eq!(mode, ThemeMode::Light);
}

#[test]
fn theme_labels_and_defaults() {
    assert_eq!(ThemeMode::Light.label(), "🌞 Light");
    assert_eq!(ThemeMode::Dark.label(), "🌙 Dark");
    assert_eq!(ThemeMode::Auto.label(), "🔄 Auto");
    assert_eq!(ThemeMode::Auto.next(), ThemeMode::Light);
    let config = ThemeConfig::default();
    assert_eq!(config.mode, ThemeMode::Dark);
    assert_eq!(config.language, Language::Auto);
}

#[test]
fn language_tags_and_labels() {
    assert_eq!(Language::Auto.to_tag(), "auto");
    assert_eq!(Language::EnUS.to_tag(), "en-US");
    assert_eq!(Language::ZhCN.to_tag(), "zh-CN");
    assert_eq!(Language::Auto.label(), "Auto (System)");
    assert_eq!(Language::EnUS.label(), "English");
    assert_eq!(Language::ZhCN.label(), "简体中文 (Chinese)");
    assert_eq!(Language::default(), Language::Auto);
}

#[test]
fn wizard_walkthrough() {
    let mut w = CalibrationWizard::new();
    assert!(!w.show);
    assert_eq!(w.step, CalibrationStep::RotateDial);
    w.start();
    assert!(w.show);
    assert_eq!(w.step, CalibrationStep::RotateDial);
    w.advance(CalibrationStep::PlaceOnTile);
    assert_eq!(w.step, CalibrationStep::PlaceOnTile);
    w.advance(CalibrationStep::Calibrating);
    w.on_calibration_success();
    assert!(w.show);
    assert_eq!(w.step, CalibrationStep::Complete);
    w.close();
    assert!(!w.show);
    assert_eq!(w.step, CalibrationStep::RotateDial);
    assert_eq!(CalibrationWizard::default(), CalibrationWizard::new());
}

#[test]
fn status_bytes_decode() {
    let s = DeviceStatus::from_bytes(2, 1, true);
    assert_eq!(s.position, DevicePosition::Calibration);
    assert!(s.button_pressed);
    assert!(s.is_calibrated);
    let s = DeviceStatus::from_bytes(3, 0, false);
    assert_eq!(s.position, DevicePosition::Ambient);
    assert!(!s.button_pressed);
    assert!(!s.is_calibrated);
    // Any nonzero second byte reads as a pressed button.
    assert!(DeviceStatus::from_bytes(0, 0xFF, false).button_pressed);
    assert_eq!(
        DeviceStatus::from_bytes(9, 0, false).position,
        DevicePosition::Unknown(9)
    );
}

#[test]
fn dial_positions_decode() {
    assert_eq!(DevicePosition::from_raw(0), DevicePosition::Projector);
    assert_eq!(DevicePosition::from_raw(1), DevicePosition::Surface);
    assert_eq!(DevicePosition::from_raw(2), DevicePosition::Calibration);
    assert_eq!(DevicePosition::from_raw(3), DevicePosition::Ambient);
    assert_eq!(DevicePosition::from_raw(9), DevicePosition::Unknown(9));
    assert_eq!(DevicePosition::Surface.name(), "Surface");
    assert_eq!(DevicePosition::Unknown(7).name(), "Unknown");
    assert_eq!(DevicePosition::Unknown(7).raw_value(), 7);
    assert_eq!(DevicePosition::Ambient.raw_value(), 3);
    let s = DeviceStatus {
        position: DevicePosition::Calibration,
        button_pressed: false,
        is_calibrated: true,
    };
    assert_eq!(s, s);
}

#[test]
fn error_descriptions() {
    assert_eq!(
        SpectroError::Eeprom(EepromError::Truncated).describe(),
        "EEPROM data too short"
    );
    assert_eq!(
        SpectroError::Eeprom(EepromError::ChecksumMismatch { computed: 1, stored: 2 }).describe(),
        "EEPROM checksum mismatch"
    );
    assert_eq!(
        SpectroError::Protocol(ProtocolError::ShortRead).describe(),
        "short read"
    );
    assert_eq!(
        SpectroError::Protocol(ProtocolError::UnexpectedPosition).describe(),
        "unexpected dial position"
    );
    assert_eq!(SpectroError::CalibrationMissing.describe(), "calibration required");
    assert_eq!(SpectroError::Mode.describe(), "mode mismatch");
    assert_eq!(SpectroError::Numeric.describe(), "numeric error");
    assert_eq!(
        SpectroError::Transport(String::from("bus fault")).describe(),
        "transport error"
    );
}

#[test]
fn measurement_modes_compare() {
    assert_eq!(MeasurementMode::Reflective, MeasurementMode::Reflective);
    assert_ne!(MeasurementMode::Reflective, MeasurementMode::Emissive);
    assert_ne!(MeasurementMode::Emissive, MeasurementMode::Ambient);
}
