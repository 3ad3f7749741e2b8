use baudacious::domain::types::ModemConfig;
use baudacious::state::{AppState, TxState};

type State = AppState<(), u32>;

#[test]
fn app_state_default_equals_new() {
    let a = State::new();
    let b = State::default();
    // Both start with audio_running = false
    assert!(!a.audio_running);
    assert!(!b.audio_running);
}

#[test]
fn app_state_initial_flags_are_false() {
    let state = State::new();
    assert!(!state.audio_running);
    assert!(!state.tx.tx_abort);
    assert!(!state.rx_running);
}

#[test]
fn tx_state_starts_idle() {
    let state = State::new();
    assert!(matches!(state.tx.tx_state.value, TxState::Idle), "tx_state must start as Idle");
}

#[test]
fn app_state_rx_carrier_freq_default_is_1000() {
    let state = State::new();
    assert_eq!(f64::from_bits(state.rx_carrier_freq.to_bits()), 1000.0);
}

#[test]
fn app_state_audio_device_name_starts_none() {
    let state = State::new();
    assert!(state.audio_device_name.is_none());
}

#[test]
fn app_state_serial_port_name_starts_none() {
    let state = State::new();
    assert!(state.link.serial_port_name.is_none());
}

#[test]
fn app_state_radio_starts_none() {
    let state = State::new();
    assert!(state.link.radio.value.is_none());
}

#[test]
fn app_state_starts_unpoisoned_at_generation_zero() {
    let state = State::new();
    assert_eq!(state.tx.tx_generation, 0);
    assert!(!state.tx.tx_state.poisoned);
    assert!(!state.link.radio.poisoned);
    assert!(!state.config.poisoned);
    assert!(state.audio_thread.is_none());
    assert_eq!(state.config.value, ModemConfig::default());
}

#[test]
fn modem_config_tx_power_can_be_updated() {
    let mut cfg = ModemConfig::default();
    assert_eq!(cfg.tx_power_watts, 25); // default
    cfg.tx_power_watts = 10;
    assert_eq!(cfg.tx_power_watts, 10);
    cfg.tx_power_watts = 0;
    assert_eq!(cfg.tx_power_watts, 0);
    assert_eq!(cfg.sample_rate, 48_000);
}
