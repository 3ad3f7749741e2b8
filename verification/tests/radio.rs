use baudacious::adapters::mock_radio::MockRadio;
use baudacious::commands::radio::{
    get_frequency, get_mode, get_radio_state, get_signal_strength, get_tx_power, ptt_off, ptt_on,
    radio_error_text, set_frequency, set_mode, settle_radio_call, with_radio, RadioError,
};
use baudacious::domain::error::{Psk31Error, Psk31Result};
use baudacious::domain::frequency::Frequency;
use baudacious::ports::radio::RadioControl;
use baudacious::state::{AppState, Guarded, RadioLink};

/// A state with a mock radio in it.
fn make_state_with_radio(tx_power: u32) -> AppState<MockRadio, u32> {
    let mut state = AppState::new();
    let mut mock = MockRadio::new();
    mock.set_tx_power(tx_power).unwrap();
    state.link.radio.value = Some(mock);
    state
}

fn connected() -> RadioLink<MockRadio> {
    RadioLink {
        radio: Guarded::new(Some(MockRadio::new())),
        serial_port_name: Some("/dev/ttyUSB0".to_string()),
    }
}

#[test]
fn get_tx_power_returns_value_from_radio() {
    let mut state = make_state_with_radio(10);
    let watts = state.link.radio.value.as_mut().unwrap().get_tx_power().unwrap();
    assert_eq!(watts, 10);
    assert_eq!(get_tx_power(&mut state.link).result.unwrap(), 10);
}

#[test]
fn get_tx_power_returns_configured_value() {
    let mut state = make_state_with_radio(50);
    let watts = state.link.radio.value.as_mut().unwrap().get_tx_power().unwrap();
    assert_eq!(watts, 50);
    assert_eq!(get_tx_power(&mut state.link).result.unwrap(), 50);
}

#[test]
fn commands_reach_the_radio() {
    let mut link = connected();
    ptt_on(&mut link).result.unwrap();
    assert!(link.radio.value.as_ref().unwrap().is_transmitting);
    ptt_off(&mut link).result.unwrap();
    assert!(!link.radio.value.as_ref().unwrap().is_transmitting);
    let target = Frequency::from_bits(7_074_000.0f64.to_bits());
    set_frequency(&mut link, target).result.unwrap();
    assert_eq!(get_frequency(&mut link).result.unwrap(), target);
    set_mode(&mut link, "DATA-LSB").result.unwrap();
    assert_eq!(get_mode(&mut link).result.unwrap(), "DATA-LSB");
    let strength = get_signal_strength(&mut link).result.unwrap();
    assert_eq!(f32::from_bits(strength.bits), 0.3f32);
    let status = get_radio_state(&mut link).result.unwrap();
    assert_eq!(status.frequency_hz, 7_074_000);
    assert_eq!(status.mode, "DATA-LSB");
}

#[test]
fn without_a_radio_every_command_says_so() {
    let mut link: RadioLink<MockRadio> = RadioLink::new();
    let reply = ptt_on(&mut link);
    assert!(reply.disconnected.is_none());
    assert!(matches!(reply.result, Err(RadioError::NotConnected)));
    let mut link = connected();
    link.radio.poisoned = true;
    assert!(matches!(get_mode(&mut link).result, Err(RadioError::StateCorrupted)));
    assert!(link.radio.value.is_some());
}

#[test]
fn serial_error_disconnects() {
    let mut link = connected();
    let reply = with_radio(&mut link, |r: &mut MockRadio| -> Psk31Result<()> {
        r.tx_power = 3;
        Err(Psk31Error::Serial("unplugged".to_string()))
    });
    assert!(matches!(reply.result, Err(RadioError::Failed(Psk31Error::Serial(m))) if m == "unplugged"));
    let event = reply.disconnected.unwrap();
    assert_eq!(event.port, "/dev/ttyUSB0");
    assert!(matches!(event.reason, Psk31Error::Serial(m) if m == "unplugged"));
    assert!(link.radio.value.is_none());
    assert!(link.serial_port_name.is_none());
    // The radio is handed out as the call left it.
    assert_eq!(reply.dropped.unwrap().tx_power, 3);
    assert!(matches!(ptt_on(&mut link).result, Err(RadioError::NotConnected)));
}

#[test]
fn serial_error_without_a_port_name() {
    let mut link = connected();
    link.serial_port_name = None;
    let reply = settle_radio_call::<MockRadio, u32>(
        &mut link,
        Err(Psk31Error::Serial("unplugged".to_string())),
    );
    assert_eq!(reply.disconnected.unwrap().port, "");
}

#[test]
fn other_errors_keep_the_radio() {
    let mut link = connected();
    let reply = with_radio(&mut link, |r: &mut MockRadio| -> Psk31Result<()> {
        r.tx_power = 1;
        Err(Psk31Error::Cat("?;".to_string()))
    });
    assert!(matches!(reply.result, Err(RadioError::Failed(Psk31Error::Cat(_)))));
    assert!(reply.disconnected.is_none());
    assert!(reply.dropped.is_none());
    assert_eq!(link.radio.value.unwrap().tx_power, 1);
    assert_eq!(link.serial_port_name.unwrap(), "/dev/ttyUSB0");
}

#[test]
fn error_texts() {
    assert_eq!(radio_error_text(&RadioError::StateCorrupted, "x"), "Radio state corrupted");
    assert_eq!(radio_error_text(&RadioError::NotConnected, "x"), "Radio not connected");
    let failed = RadioError::Failed(Psk31Error::Cat("?;".to_string()));
    assert_eq!(radio_error_text(&failed, "CAT error: ?;"), "CAT error: ?;");
}
