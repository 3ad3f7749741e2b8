use baudacious::adapters::mock_radio::{
    MockRadio, DEFAULT_FREQ_BITS, DEFAULT_MODE, DEFAULT_TX_POWER_W, SIGNAL_STRENGTH_BITS,
};
use baudacious::domain::frequency::Frequency;
use baudacious::ports::radio::RadioControl;

const DEFAULT_FREQ_HZ: f64 = 14_070_000.0;

fn hz(value: f64) -> Frequency {
    Frequency::from_bits(value.to_bits())
}

fn as_hz(f: Frequency) -> f64 {
    f64::from_bits(f.to_bits())
}

#[test]
fn new_has_default_state() {
    let r = MockRadio::new();
    assert_eq!(as_hz(r.frequency), DEFAULT_FREQ_HZ);
    assert_eq!(r.mode, DEFAULT_MODE);
    assert_eq!(r.tx_power, DEFAULT_TX_POWER_W);
    assert!(!r.is_transmitting);
}

#[test]
fn default_equals_new() {
    let r = MockRadio::default();
    assert_eq!(as_hz(r.frequency), DEFAULT_FREQ_HZ);
    assert_eq!(r.mode, DEFAULT_MODE);
    assert_eq!(r.tx_power, DEFAULT_TX_POWER_W);
    assert!(!r.is_transmitting);
}

#[test]
fn ptt_on_sets_transmitting() {
    let mut r = MockRadio::new();
    assert!(!r.is_transmitting());
    r.ptt_on().unwrap();
    assert!(r.is_transmitting());
}

#[test]
fn ptt_off_clears_transmitting() {
    let mut r = MockRadio::new();
    r.ptt_on().unwrap();
    r.ptt_off().unwrap();
    assert!(!r.is_transmitting());
}

#[test]
fn get_frequency_returns_default() {
    let mut r = MockRadio::new();
    let f = r.get_frequency().unwrap();
    assert_eq!(as_hz(f), DEFAULT_FREQ_HZ);
}

#[test]
fn set_and_get_frequency_roundtrip() {
    let mut r = MockRadio::new();
    let target = 7_074_000.0_f64;
    r.set_frequency(hz(target)).unwrap();
    let got = r.get_frequency().unwrap();
    assert_eq!(as_hz(got), target);
}

#[test]
fn get_mode_returns_default() {
    let mut r = MockRadio::new();
    assert_eq!(r.get_mode().unwrap(), DEFAULT_MODE);
}

#[test]
fn set_and_get_mode_roundtrip() {
    let mut r = MockRadio::new();
    r.set_mode("USB").unwrap();
    assert_eq!(r.get_mode().unwrap(), "USB");
}

#[test]
fn get_tx_power_returns_default() {
    let mut r = MockRadio::new();
    assert_eq!(r.get_tx_power().unwrap(), DEFAULT_TX_POWER_W);
}

#[test]
fn set_and_get_tx_power_roundtrip() {
    let mut r = MockRadio::new();
    r.set_tx_power(100).unwrap();
    assert_eq!(r.get_tx_power().unwrap(), 100);
}

#[test]
fn get_signal_strength_returns_fixed_value() {
    let mut r = MockRadio::new();
    let s = f32::from_bits(r.get_signal_strength().unwrap().bits);
    assert!((s - 0.3).abs() < f32::EPSILON);
}

#[test]
fn get_status_reflects_state() {
    let mut r = MockRadio::new();
    r.set_frequency(hz(14_225_000.0)).unwrap();
    r.set_mode("USB").unwrap();
    r.ptt_on().unwrap();

    let status = r.get_status().unwrap();
    assert_eq!(status.frequency_hz, 14_225_000);
    assert_eq!(status.mode, "USB");
    assert!(status.is_transmitting);
    assert_eq!(status.rit_offset_hz, 0);
    assert!(!status.rit_enabled);
    assert!(!status.split);
}

#[test]
fn patterns_are_those_of_the_numbers() {
    assert_eq!(DEFAULT_FREQ_BITS, 14_070_000.0f64.to_bits());
    assert_eq!(SIGNAL_STRENGTH_BITS, 0.3f32.to_bits());
    assert_eq!(DEFAULT_MODE, "DATA-USB");
    assert_eq!(DEFAULT_TX_POWER_W, 25);
}

#[test]
fn status_cuts_fractions_off() {
    let mut r = MockRadio::new();
    r.set_frequency(hz(7_074_000.9)).unwrap();
    assert_eq!(r.get_status().unwrap().frequency_hz, 7_074_000);
    assert_eq!(as_hz(r.get_frequency().unwrap()), 7_074_000.9);
}
