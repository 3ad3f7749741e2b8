use baudacious::adapters::mock_radio::MockRadio;
use baudacious::commands::playback::fill_output;
use baudacious::commands::radio::RadioError;
use baudacious::commands::slot::{
    cancelled_activation_text, thread_may_go_on, tx_activate, tx_check_cancelled, tx_claim,
    tx_reset, tx_self_clear, tx_stop, validate_tx_state, ActivationError,
};
use baudacious::commands::tx::{
    ensure_data_mode, key_radio, mode_correction, prepare_for_transmission, prepare_radio,
    restore_after_tune, start_step, start_tune, start_tx, stop_tune, stop_tune_inner, stop_tx, stop_tx_inner, unkey_radio,
    StartAction, StartEvent, StartPhase, TxProgress, TxStatus,
};
use baudacious::commands::tx_thread::{
    run_tune_thread, run_tx_thread, ThreadAction, ThreadEvent, ThreadPhase,
};
use baudacious::domain::error::{Psk31Error, Psk31Result};
use baudacious::domain::frequency::Frequency;
use baudacious::domain::types::{ModemConfig, RadioStatus, SignalStrength};
use baudacious::ports::radio::RadioControl;
use baudacious::state::{AppState, Guarded, RadioLink, TxControl, TxState};

/// Threads are numbers here.
type State = AppState<MockRadio, u32>;

fn hz(value: f64) -> Frequency {
    Frequency::from_bits(value.to_bits())
}

// -----------------------------------------------------------------------
// validate_tx_state
// -----------------------------------------------------------------------

#[test]
fn validate_tx_state_ok_when_idle() {
    assert!(validate_tx_state::<u32>(&TxState::Idle).is_ok());
}

#[test]
fn validate_tx_state_err_when_starting() {
    let err = validate_tx_state::<u32>(&TxState::Starting).unwrap_err();
    assert_eq!(err, "Already transmitting");
}

#[test]
fn validate_tx_state_err_when_running() {
    let state = TxState::Running(1u32);
    let err = validate_tx_state(&state).unwrap_err();
    assert_eq!(err, "Already transmitting");
}

// -----------------------------------------------------------------------
// tx_claim / tx_reset / tx_activate
// -----------------------------------------------------------------------

#[test]
fn tx_claim_transitions_idle_to_starting() {
    let mut state = State::new();
    tx_claim(&mut state.tx).unwrap();
    assert!(matches!(state.tx.tx_state.value, TxState::Starting));
    assert!(!state.tx.tx_abort, "abort must be cleared");
}

#[test]
fn tx_claim_returns_generation_and_increments() {
    let mut state = State::new();
    let gen1 = tx_claim(&mut state.tx).unwrap();
    assert_eq!(gen1, 1, "first claim should return generation 1");
    // reset to Idle so a second claim is allowed
    tx_reset(&mut state.tx);
    let gen2 = tx_claim(&mut state.tx).unwrap();
    assert_eq!(gen2, 2, "second claim should return generation 2");
    tx_reset(&mut state.tx);
}

#[test]
fn tx_claim_rejects_when_starting() {
    let mut state = State::new();
    state.tx.tx_state.value = TxState::Starting;
    assert_eq!(tx_claim(&mut state.tx).unwrap_err(), "Already transmitting");
}

#[test]
fn tx_claim_rejects_when_running() {
    let mut state = State::new();
    state.tx.tx_state.value = TxState::Running(1);
    assert_eq!(tx_claim(&mut state.tx).unwrap_err(), "Already transmitting");
    assert!(matches!(state.tx.tx_state.value, TxState::Running(1)));
}

#[test]
fn tx_claim_clears_abort_flag() {
    let mut state = State::new();
    state.tx.tx_abort = true;
    tx_claim(&mut state.tx).unwrap();
    assert!(!state.tx.tx_abort);
    tx_reset(&mut state.tx);
}

#[test]
fn tx_reset_returns_state_to_idle() {
    let mut state = State::new();
    state.tx.tx_state.value = TxState::Starting;
    tx_reset(&mut state.tx);
    assert!(matches!(state.tx.tx_state.value, TxState::Idle));
}

#[test]
fn tx_activate_transitions_starting_to_running() {
    let mut state = State::new();
    let gen = tx_claim(&mut state.tx).unwrap();
    tx_activate(&mut state.tx, 5, gen).unwrap();
    if let TxState::Running(h) = state.tx.tx_state.value {
        assert_eq!(h, 5);
    } else {
        panic!("expected Running");
    }
}

#[test]
fn tx_activate_cancels_when_already_idle() {
    // The race where stop_tx reset the state before activate ran: the thread comes back
    // to be joined.
    let mut state = State::new();
    let gen = tx_claim(&mut state.tx).unwrap();
    state.tx.tx_abort = true;
    state.tx.tx_state.value = TxState::Idle; // simulate stop_tx
    let result = tx_activate(&mut state.tx, 5, gen);
    assert!(result.is_err(), "should return Err on cancellation path");
    assert!(matches!(result, Err(ActivationError::Cancelled(5))));
    assert!(matches!(state.tx.tx_state.value, TxState::Idle));
}

#[test]
fn tx_activate_rejects_wrong_generation() {
    // The ABA race: stop_tx and a new start_tx completed, advancing the generation,
    // before the old start_tx reaches tx_activate.
    let mut state = State::new();
    let old_gen = tx_claim(&mut state.tx).unwrap(); // gen = 1, state = Starting
    state.tx.tx_state.value = TxState::Idle; // simulate stop_tx
    let _new_gen = tx_claim(&mut state.tx).unwrap(); // gen = 2, state = Starting
    state.tx.tx_abort = true;
    let result = tx_activate(&mut state.tx, 5, old_gen);
    assert!(result.is_err(), "old generation should be rejected");
    // State should still be Starting (belonging to the new start)
    assert!(matches!(state.tx.tx_state.value, TxState::Starting));
    tx_reset(&mut state.tx);
}

#[test]
fn tx_activate_returns_err_on_thread_panic() {
    let mut state = State::new();
    let gen = tx_claim(&mut state.tx).unwrap();
    // Reset to Idle so tx_activate takes the cancellation path
    state.tx.tx_state.value = TxState::Idle;
    assert!(tx_activate(&mut state.tx, 5, gen).is_err());
    // The join of the thread reports a panic
    let result = cancelled_activation_text(false);
    assert!(result.contains("panicked"), "expected a panicked error, got: {result:?}");
}

#[test]
fn poisoned_slot_is_corrupted_but_can_be_stopped() {
    let mut tx: TxControl<u32> = TxControl::new();
    tx.tx_state.poisoned = true;
    assert_eq!(tx_claim(&mut tx).unwrap_err(), "TX state corrupted");
    tx.tx_state.value = TxState::Starting;
    assert!(matches!(tx_activate(&mut tx, 1, 0), Err(ActivationError::Corrupted)));
    tx.tx_state.value = TxState::Running(3);
    tx_self_clear(&mut tx, 0);
    assert!(matches!(tx.tx_state.value, TxState::Running(3)));
    assert_eq!(tx_stop(&mut tx), Some(3));
    assert!(tx.tx_abort);
    assert!(matches!(tx.tx_state.value, TxState::Idle));
}

#[test]
fn cancelled_start_gives_back_only_its_own_slot() {
    let mut tx: TxControl<u32> = TxControl::new();
    let old_gen = tx_claim(&mut tx).unwrap();
    assert!(!tx_check_cancelled(&mut tx, old_gen));
    assert!(matches!(tx.tx_state.value, TxState::Starting));
    assert!(tx_stop(&mut tx).is_none());
    let new_gen = tx_claim(&mut tx).unwrap();
    // The new claim has cleared the abort flag, but the generation tells.
    assert!(!tx.tx_abort);
    assert!(tx_check_cancelled(&mut tx, old_gen));
    assert!(matches!(tx.tx_state.value, TxState::Starting));
    tx.tx_abort = true;
    assert!(tx_check_cancelled(&mut tx, new_gen));
    assert!(matches!(tx.tx_state.value, TxState::Idle));
}

#[test]
fn a_stop_is_seen_until_the_next_claim() {
    let mut tx: TxControl<u32> = TxControl::new();
    let gen = tx_claim(&mut tx).unwrap();
    tx_stop(&mut tx);
    tx_reset(&mut tx);
    tx_self_clear(&mut tx, gen);
    assert!(tx_check_cancelled(&mut tx, gen));
    assert!(tx_activate(&mut tx, 1, gen).is_err());
    assert!(tx.tx_abort);
    tx_claim(&mut tx).unwrap();
    assert!(!tx.tx_abort);
}

#[test]
fn late_thread_of_a_stopped_start_never_keys() {
    let mut tx: TxControl<u32> = TxControl::new();
    let old_gen = tx_claim(&mut tx).unwrap();
    assert!(!tx_check_cancelled(&mut tx, old_gen));
    assert!(thread_may_go_on(&tx, old_gen));
    tx_stop(&mut tx);
    assert!(!thread_may_go_on(&tx, old_gen));
    let new_gen = tx_claim(&mut tx).unwrap();
    // The new claim has cleared the abort flag, but not for the old thread.
    assert!(!tx.tx_abort);
    assert!(thread_may_go_on(&tx, new_gen));
    let abort = !thread_may_go_on(&tx, old_gen);
    let (phase, script) = run_tx_thread(ThreadPhase::Entry, ThreadEvent::Entered { abort });
    assert_eq!(words(&script), ["aborted 0"]);
    assert_eq!(phase, ThreadPhase::Ended);
    let (phase, script) =
        run_tx_thread(ThreadPhase::Playing, ThreadEvent::Polled { abort, done: true });
    assert_eq!(words(&script), ["stop", "aborted played", "off"]);
    assert_eq!(phase, ThreadPhase::Ended);
    // Nor does the old thread free the slot of the new one.
    tx_activate(&mut tx, 2, new_gen).unwrap();
    tx_self_clear(&mut tx, old_gen);
    assert!(matches!(tx.tx_state.value, TxState::Running(2)));
}

#[test]
fn self_clear_only_clears_running() {
    let mut tx: TxControl<u32> = TxControl::new();
    tx.tx_state.value = TxState::Starting;
    tx_self_clear(&mut tx, 0);
    assert!(matches!(tx.tx_state.value, TxState::Starting));
    tx.tx_state.value = TxState::Running(1);
    // The thread of another claim has no business here.
    tx_self_clear(&mut tx, 1);
    assert!(matches!(tx.tx_state.value, TxState::Running(1)));
    tx_self_clear(&mut tx, 0);
    assert!(matches!(tx.tx_state.value, TxState::Idle));
}

// -----------------------------------------------------------------------
// ensure_data_mode
// -----------------------------------------------------------------------

struct ModeMock {
    freq_hz: f64,
    current_mode: String,
    freq_err: Option<String>,
    mode_err: Option<String>,
    set_mode_err: Option<String>,
    set_mode_called_with: Option<String>,
    power_lost: bool,
    powers: Vec<u32>,
}

impl ModeMock {
    fn correct_mode() -> Self {
        Self {
            freq_hz: 14_070_000.0,
            current_mode: "DATA-USB".to_string(),
            freq_err: None,
            mode_err: None,
            set_mode_err: None,
            set_mode_called_with: None,
            power_lost: false,
            powers: Vec::new(),
        }
    }
    fn wrong_mode() -> Self {
        Self { current_mode: "USB".to_string(), ..Self::correct_mode() }
    }
    fn freq_error() -> Self {
        Self { freq_hz: 0.0, freq_err: Some("read failed".to_string()), ..Self::wrong_mode() }
    }
    fn mode_read_error() -> Self {
        Self { mode_err: Some("mode read failed".to_string()), ..Self::wrong_mode() }
    }
    fn set_mode_error() -> Self {
        Self { set_mode_err: Some("set failed".to_string()), ..Self::wrong_mode() }
    }
}

impl RadioControl for ModeMock {
    fn ptt_on(&mut self) -> Psk31Result<()> {
        Ok(())
    }
    fn ptt_off(&mut self) -> Psk31Result<()> {
        Ok(())
    }
    fn is_transmitting(&self) -> bool {
        false
    }
    fn get_frequency(&mut self) -> Psk31Result<Frequency> {
        if let Some(ref e) = self.freq_err {
            return Err(Psk31Error::Serial(e.clone()));
        }
        Ok(hz(self.freq_hz))
    }
    fn set_frequency(&mut self, _freq: Frequency) -> Psk31Result<()> {
        Ok(())
    }
    fn get_mode(&mut self) -> Psk31Result<String> {
        if let Some(ref e) = self.mode_err {
            return Err(Psk31Error::Cat(e.clone()));
        }
        Ok(self.current_mode.clone())
    }
    fn set_mode(&mut self, mode: &str) -> Psk31Result<()> {
        self.set_mode_called_with = Some(mode.to_string());
        if let Some(ref e) = self.set_mode_err {
            return Err(Psk31Error::Cat(e.clone()));
        }
        self.current_mode = mode.to_string();
        Ok(())
    }
    fn get_tx_power(&mut self) -> Psk31Result<u32> {
        Ok(25)
    }
    fn set_tx_power(&mut self, watts: u32) -> Psk31Result<()> {
        self.powers.push(watts);
        if self.power_lost {
            return Err(Psk31Error::Serial("gone".to_string()));
        }
        Ok(())
    }
    fn get_signal_strength(&mut self) -> Psk31Result<SignalStrength> {
        Ok(SignalStrength { bits: 0.0f32.to_bits() })
    }
    fn get_status(&mut self) -> Psk31Result<RadioStatus> {
        Ok(RadioStatus {
            frequency_hz: self.freq_hz as u64,
            mode: self.current_mode.clone(),
            is_transmitting: false,
            rit_offset_hz: 0,
            rit_enabled: false,
            split: false,
        })
    }
}

#[test]
fn ensure_data_mode_noop_when_already_correct() {
    let mut mock = ModeMock::correct_mode();
    ensure_data_mode(&mut mock);
    assert!(mock.set_mode_called_with.is_none());
}

#[test]
fn ensure_data_mode_corrects_wrong_mode() {
    let mut mock = ModeMock::wrong_mode();
    ensure_data_mode(&mut mock);
    assert_eq!(mock.set_mode_called_with.as_deref(), Some("DATA-USB"));
}

#[test]
fn ensure_data_mode_skips_on_freq_read_error() {
    let mut mock = ModeMock::freq_error();
    ensure_data_mode(&mut mock);
    assert!(mock.set_mode_called_with.is_none());
}

#[test]
fn ensure_data_mode_skips_on_mode_read_error() {
    let mut mock = ModeMock::mode_read_error();
    ensure_data_mode(&mut mock);
    assert!(mock.set_mode_called_with.is_none());
}

#[test]
fn ensure_data_mode_tolerates_set_mode_failure() {
    let mut mock = ModeMock::set_mode_error();
    ensure_data_mode(&mut mock);
    assert_eq!(mock.set_mode_called_with.as_deref(), Some("DATA-USB"));
}

#[test]
fn ensure_data_mode_lsb_below_10mhz() {
    let mut mock = ModeMock {
        freq_hz: 7_074_000.0,
        current_mode: "USB".to_string(),
        freq_err: None,
        mode_err: None,
        set_mode_err: None,
        set_mode_called_with: None,
        power_lost: false,
        powers: Vec::new(),
    };
    ensure_data_mode(&mut mock);
    assert_eq!(mock.set_mode_called_with.as_deref(), Some("DATA-LSB"));
}

#[test]
fn one_correction_is_enough() {
    let mut mock = ModeMock::wrong_mode();
    ensure_data_mode(&mut mock);
    mock.set_mode_called_with = None;
    ensure_data_mode(&mut mock);
    assert!(mock.set_mode_called_with.is_none());
    assert_eq!(mode_correction(hz(14_070_000.0), "USB"), Some("DATA-USB"));
    assert_eq!(mode_correction(hz(14_070_000.0), "DATA-USB"), None);
    assert_eq!(mode_correction(hz(7_074_000.0), "DATA-USB"), Some("DATA-LSB"));
}

#[test]
fn radio_is_prepared_keyed_and_unkeyed() {
    let mut state = State::new();
    // No radio: nothing happens.
    let reply = prepare_radio(&mut state.link, 33);
    assert!(matches!(reply.result, Err(RadioError::NotConnected)));
    let mut mock = MockRadio::new();
    mock.mode = "USB".to_string();
    state.link.radio.value = Some(mock);
    let reply = prepare_radio(&mut state.link, 33);
    assert!(reply.result.is_ok() && reply.disconnected.is_none());
    key_radio(&mut state.link);
    {
        let radio = state.link.radio.value.as_ref().unwrap();
        assert_eq!(radio.mode, "DATA-USB");
        assert_eq!(radio.tx_power, 33);
        assert!(radio.is_transmitting);
    }
    unkey_radio(&mut state.link);
    assert!(!state.link.radio.value.as_ref().unwrap().is_transmitting);
    key_radio(&mut state.link);
    state.link.radio.poisoned = true;
    unkey_radio(&mut state.link);
    assert!(state.link.radio.value.as_ref().unwrap().is_transmitting);
    state.link.radio.poisoned = false;
    restore_after_tune(&mut state.link, 44);
    let radio = state.link.radio.value.as_ref().unwrap();
    assert!(!radio.is_transmitting);
    assert_eq!(radio.tx_power, 44);
}

/// Prepare a radio on a named port, and see whether it stays.
fn prepare(mock: ModeMock) -> (bool, Option<String>) {
    let mut link = RadioLink {
        radio: Guarded::new(Some(mock)),
        serial_port_name: Some("/dev/ttyUSB0".to_string()),
    };
    let reply = prepare_radio(&mut link, 40);
    assert_eq!(link.radio.value.is_some(), link.serial_port_name.is_some());
    assert_eq!(reply.dropped.is_some(), link.radio.value.is_none());
    if let Some(radio) = reply.dropped {
        assert_eq!(radio.powers, [40]);
    }
    (link.radio.value.is_some(), reply.disconnected.map(|event| event.port))
}

#[test]
fn serial_error_while_preparing_disconnects() {
    let port = Some("/dev/ttyUSB0".to_string());
    assert_eq!(prepare(ModeMock::wrong_mode()), (true, None));
    // The frequency could not be read over the serial port.
    assert_eq!(prepare(ModeMock::freq_error()), (false, port.clone()));
    // Other errors are not fatal.
    assert_eq!(prepare(ModeMock::mode_read_error()), (true, None));
    assert_eq!(prepare(ModeMock::set_mode_error()), (true, None));
    let mock = ModeMock { power_lost: true, ..ModeMock::correct_mode() };
    assert_eq!(prepare(mock), (false, port));
}

#[test]
fn power_is_set_whatever_the_mode_guard_met() {
    let mut mock = ModeMock::freq_error();
    let outcome = prepare_for_transmission(&mut mock, 40);
    assert!(matches!(outcome, Err(Psk31Error::Serial(m)) if m == "read failed"));
    assert_eq!(mock.powers, [40]);
    let mut mock = ModeMock::mode_read_error();
    assert!(prepare_for_transmission(&mut mock, 40).is_ok());
    assert_eq!(mock.powers, [40]);
}

#[test]
fn mode_guard_reports_a_serial_error() {
    assert_eq!(ensure_data_mode(&mut ModeMock::freq_error()).unwrap(), "read failed");
    assert!(ensure_data_mode(&mut ModeMock::mode_read_error()).is_none());
    assert!(ensure_data_mode(&mut ModeMock::set_mode_error()).is_none());
    assert!(ensure_data_mode(&mut ModeMock::wrong_mode()).is_none());
}

// -----------------------------------------------------------------------
// start
// -----------------------------------------------------------------------

fn finish<H>(action: StartAction<H>) -> (Option<String>, Result<(), String>) {
    match action {
        StartAction::Finish { event, result } => (event.map(|e| e.status.text()), result),
        _ => panic!("expected the end"),
    }
}

#[test]
fn start_tx_runs_through() {
    let mut tx: TxControl<u32> = TxControl::new();
    let config = ModemConfig { tx_power_watts: 40, ..ModemConfig::default() };
    let (phase, action) = start_tx(&mut tx);
    assert!(matches!(action, StartAction::ReadConfig));
    let (phase, action) = start_step(phase, &mut tx, StartEvent::Config(config));
    assert!(matches!(action, StartAction::Encode(c) if c == config));
    let (phase, action) = start_step(phase, &mut tx, StartEvent::Encoded(1536));
    assert!(matches!(action, StartAction::PrepareRadio(40)));
    let (phase, action) = start_step(phase, &mut tx, StartEvent::RadioPrepared);
    assert!(matches!(action, StartAction::Spawn(1)));
    let (phase, action) = start_step(phase, &mut tx, StartEvent::Spawned(9));
    assert!(matches!(phase, StartPhase::Finished));
    assert_eq!(finish(action), (None, Ok(())));
    assert!(matches!(tx.tx_state.value, TxState::Running(9)));
    // A second start is refused.
    let (_, action) = start_tx(&mut tx);
    assert_eq!(finish(action).1.unwrap_err(), "Already transmitting");
}

#[test]
fn start_tx_with_nothing_to_send_gives_the_slot_back() {
    let mut tx: TxControl<u32> = TxControl::new();
    let (phase, _) = start_tx(&mut tx);
    let (phase, _) = start_step(phase, &mut tx, StartEvent::Config(ModemConfig::default()));
    let (_, action) = start_step(phase, &mut tx, StartEvent::Encoded(0));
    assert_eq!(finish(action), (None, Err("Nothing to transmit".to_string())));
    assert!(matches!(tx.tx_state.value, TxState::Idle));
}

#[test]
fn start_tune_uses_ten_watts() {
    let mut tx: TxControl<u32> = TxControl::new();
    let (phase, action) = start_tune(&mut tx);
    assert!(matches!(action, StartAction::ReadConfig));
    let config = ModemConfig { tx_power_watts: 90, ..ModemConfig::default() };
    let (phase, action) = start_step(phase, &mut tx, StartEvent::Config(config));
    assert!(matches!(action, StartAction::PrepareRadio(10)));
    let (phase, _) = start_step(phase, &mut tx, StartEvent::RadioPrepared);
    let (_, action) = start_step(phase, &mut tx, StartEvent::Spawned(2));
    assert!(finish(action).1.is_ok());
}

#[test]
fn stop_during_slow_work_cancels_the_start() {
    let mut tx: TxControl<u32> = TxControl::new();
    let (phase, _) = start_tune(&mut tx);
    let (phase, _) = start_step(phase, &mut tx, StartEvent::Config(ModemConfig::default()));
    assert!(stop_tx(&mut tx).is_none());
    let (_, action) = start_step(phase, &mut tx, StartEvent::RadioPrepared);
    assert_eq!(
        finish(action),
        (Some("aborted".to_string()), Err("Cancelled before transmitting".to_string()))
    );
    assert!(matches!(tx.tx_state.value, TxState::Idle));
}

#[test]
fn stop_and_restart_do_not_confuse_two_starts() {
    let mut tx: TxControl<u32> = TxControl::new();
    let (old, _) = start_tune(&mut tx);
    let (old, _) = start_step(old, &mut tx, StartEvent::Config(ModemConfig::default()));
    let (old, _) = start_step(old, &mut tx, StartEvent::RadioPrepared);
    stop_tune(&mut tx);
    let (new, _) = start_tune(&mut tx);
    let (new, _) = start_step(new, &mut tx, StartEvent::Config(ModemConfig::default()));
    let (new, _) = start_step(new, &mut tx, StartEvent::RadioPrepared);
    // The old start comes too late, and its thread has to be joined.
    let (old, action) = start_step(old, &mut tx, StartEvent::Spawned(1));
    assert!(matches!(action, StartAction::Join(1)));
    let (_, action) = start_step(old, &mut tx, StartEvent::Joined(true));
    assert_eq!(finish(action).1.unwrap_err(), "Cancelled before activation");
    // The new one is not disturbed.
    let (_, action) = start_step(new, &mut tx, StartEvent::Spawned(2));
    assert!(finish(action).1.is_ok());
    assert!(matches!(tx.tx_state.value, TxState::Running(2)));
}

#[test]
fn start_failures_after_spawning() {
    let mut tx: TxControl<u32> = TxControl::new();
    let (_, action) =
        start_step(StartPhase::AwaitJoin, &mut tx, StartEvent::Joined(false));
    assert_eq!(finish(action).1.unwrap_err(), "TX thread panicked during cancellation");
    let (phase, _) = start_tune(&mut tx);
    let (phase, _) = start_step(phase, &mut tx, StartEvent::Config(ModemConfig::default()));
    let (phase, _) = start_step(phase, &mut tx, StartEvent::RadioPrepared);
    tx.tx_state.poisoned = true;
    let (_, action) = start_step(phase, &mut tx, StartEvent::Spawned(1));
    assert_eq!(finish(action).1.unwrap_err(), "TX state corrupted");
    let (_, action) = start_tx(&mut tx);
    assert_eq!(finish(action).1.unwrap_err(), "TX state corrupted");
}

// -----------------------------------------------------------------------
// stop_tx_inner
// -----------------------------------------------------------------------

/// Stop, with every thread ending well.
fn stop_transmission(state: &mut State) -> Result<(), String> {
    let joined = stop_tx(&mut state.tx).map(|_handle| true);
    stop_tx_inner(&mut state.link, joined)
}

fn stop_tuning(state: &mut State) -> Result<(), String> {
    let joined = stop_tune(&mut state.tx).map(|_handle| true);
    stop_tune_inner(&mut state.link, joined, state.config.value.tx_power_watts)
}

#[test]
fn stop_tx_inner_when_idle_ok() {
    let mut state = State::new();
    stop_transmission(&mut state).unwrap();
    assert!(state.tx.tx_abort, "abort flag must be set");
    assert!(matches!(state.tx.tx_state.value, TxState::Idle));
}

#[test]
fn stop_tx_inner_when_starting_sets_abort_and_idles() {
    let mut state = State::new();
    state.tx.tx_state.value = TxState::Starting;
    stop_transmission(&mut state).unwrap();
    assert!(state.tx.tx_abort);
    assert!(matches!(state.tx.tx_state.value, TxState::Idle));
}

#[test]
fn stop_tx_inner_calls_ptt_off_when_radio_present() {
    let mut state = State::new();
    let mut radio = MockRadio::new();
    radio.ptt_on().unwrap();
    state.link.radio.value = Some(radio);
    stop_transmission(&mut state).unwrap();
    assert!(!state.link.radio.value.unwrap().is_transmitting);
}

#[test]
fn stop_tx_inner_joins_thread() {
    let mut state = State::new();
    state.tx.tx_state.value = TxState::Running(4);
    assert_eq!(stop_tx(&mut state.tx), Some(4));
    stop_tx_inner(&mut state.link, Some(true)).unwrap();
    assert!(matches!(state.tx.tx_state.value, TxState::Idle));
}

#[test]
fn stop_after_a_panic_fails_and_still_unkeys_the_radio() {
    let mut state = State::new();
    let mut radio = MockRadio::new();
    radio.ptt_on().unwrap();
    state.link.radio.value = Some(radio);
    assert_eq!(stop_tx_inner(&mut state.link, Some(false)).unwrap_err(), "TX thread panicked");
    assert!(!state.link.radio.value.as_ref().unwrap().is_transmitting);
    key_radio(&mut state.link);
    assert_eq!(
        stop_tune_inner(&mut state.link, Some(false), 50).unwrap_err(),
        "Tune thread panicked"
    );
    let radio = state.link.radio.value.unwrap();
    assert!(!radio.is_transmitting);
    // The power is not restored after a panic.
    assert_eq!(radio.tx_power, 25);
}

// -----------------------------------------------------------------------
// stop_tune_inner
// -----------------------------------------------------------------------

#[test]
fn stop_tune_inner_when_idle_ok() {
    let mut state = State::new();
    stop_tuning(&mut state).unwrap();
    assert!(state.tx.tx_abort);
}

#[test]
fn stop_tune_inner_when_starting_sets_abort_and_idles() {
    let mut state = State::new();
    state.tx.tx_state.value = TxState::Starting;
    stop_tuning(&mut state).unwrap();
    assert!(state.tx.tx_abort);
    assert!(matches!(state.tx.tx_state.value, TxState::Idle));
}

#[test]
fn stop_tune_inner_calls_ptt_off_and_restores_tx_power() {
    let mut state = State::new();
    state.config.value.tx_power_watts = 50;
    let mut radio = MockRadio::new();
    radio.ptt_on().unwrap();
    state.link.radio.value = Some(radio);
    stop_tuning(&mut state).unwrap();
    let radio = state.link.radio.value.unwrap();
    assert!(!radio.is_transmitting);
    assert_eq!(radio.tx_power, 50);
}

#[test]
fn stop_tune_inner_joins_thread() {
    let mut state = State::new();
    state.tx.tx_state.value = TxState::Running(4);
    stop_tuning(&mut state).unwrap();
    assert!(matches!(state.tx.tx_state.value, TxState::Idle));
}

// -----------------------------------------------------------------------
// threads
// -----------------------------------------------------------------------

/// A script as short words.
fn words(script: &[ThreadAction]) -> Vec<String> {
    script
        .iter()
        .map(|action| match action {
            ThreadAction::PttOn => "on".to_string(),
            ThreadAction::PttOff => "off".to_string(),
            ThreadAction::Sleep(ms) => format!("sleep {ms}"),
            ThreadAction::Emit(payload) => {
                let progress = match payload.progress {
                    TxProgress::Nothing => "0",
                    TxProgress::Played => "played",
                    TxProgress::Everything => "1",
                };
                format!("{} {progress}", payload.status.text())
            }
            ThreadAction::StartAudio => "start".to_string(),
            ThreadAction::StopAudio => "stop".to_string(),
            ThreadAction::ResetSlot => "reset".to_string(),
            ThreadAction::ClearSlot => "clear".to_string(),
        })
        .collect()
}

#[test]
fn tx_thread_plays_to_the_end() {
    let (phase, script) = run_tx_thread(ThreadPhase::Entry, ThreadEvent::Entered { abort: false });
    assert_eq!(words(&script), ["on", "sleep 50", "transmitting 0", "start"]);
    let (phase, script) = run_tx_thread(phase, ThreadEvent::AudioStarted);
    assert!(script.is_empty());
    let (phase, script) = run_tx_thread(phase, ThreadEvent::Polled { abort: false, done: false });
    assert_eq!(words(&script), ["sleep 5"]);
    let (phase, script) = run_tx_thread(phase, ThreadEvent::Polled { abort: false, done: true });
    assert_eq!(words(&script), ["sleep 30", "stop", "complete 1", "clear", "off"]);
    assert_eq!(phase, ThreadPhase::Ended);
}

#[test]
fn tx_thread_aborts() {
    let (phase, script) = run_tx_thread(ThreadPhase::Entry, ThreadEvent::Entered { abort: true });
    assert_eq!(words(&script), ["aborted 0"]);
    assert_eq!(phase, ThreadPhase::Ended);
    let (phase, script) =
        run_tx_thread(ThreadPhase::Playing, ThreadEvent::Polled { abort: true, done: true });
    assert_eq!(words(&script), ["stop", "aborted played", "off"]);
    assert_eq!(phase, ThreadPhase::Ended);
}

#[test]
fn tx_thread_unkeys_when_the_audio_fails() {
    let (phase, script) = run_tx_thread(
        ThreadPhase::AudioStarting,
        ThreadEvent::AudioFailed("no device".to_string()),
    );
    assert_eq!(words(&script), ["error: no device 0", "off", "reset"]);
    assert_eq!(phase, ThreadPhase::Ended);
}

#[test]
fn tune_thread_runs_until_aborted() {
    let (phase, script) =
        run_tune_thread(ThreadPhase::Entry, ThreadEvent::Entered { abort: false });
    assert_eq!(words(&script), ["on", "sleep 50", "tuning 0", "start"]);
    let (phase, _) = run_tune_thread(phase, ThreadEvent::AudioStarted);
    let (phase, script) = run_tune_thread(phase, ThreadEvent::Polled { abort: false, done: false });
    assert_eq!(words(&script), ["sleep 50"]);
    let (phase, script) = run_tune_thread(phase, ThreadEvent::Polled { abort: true, done: false });
    assert_eq!(words(&script), ["stop", "off", "aborted 0"]);
    assert_eq!(phase, ThreadPhase::Ended);
    let (_, script) = run_tune_thread(ThreadPhase::Entry, ThreadEvent::Entered { abort: true });
    assert_eq!(words(&script), ["aborted 0"]);
    let (phase, script) =
        run_tune_thread(ThreadPhase::AudioStarting, ThreadEvent::AudioFailed("x".to_string()));
    assert_eq!(words(&script), ["off"]);
    assert_eq!(phase, ThreadPhase::Ended);
}

#[test]
fn status_texts() {
    assert_eq!(TxStatus::Transmitting.text(), "transmitting");
    assert_eq!(TxStatus::Tuning.text(), "tuning");
    assert_eq!(TxStatus::Aborted.text(), "aborted");
    assert_eq!(TxStatus::Complete.text(), "complete");
    assert_eq!(TxStatus::Error("x".to_string()).text(), "error: x");
}

// -----------------------------------------------------------------------
// playback
// -----------------------------------------------------------------------

#[test]
fn samples_are_played_once_and_in_order() {
    let samples: Vec<f32> = (1..=10).map(|n| n as f32).collect();
    for size in [1usize, 3, 4, 10, 16] {
        let mut heard = Vec::new();
        let mut position = 0;
        loop {
            let mut buffer = vec![-1.0f32; size];
            let (next, done) = fill_output(&samples, position, 0.0, &mut buffer);
            position = next;
            if done {
                assert!(buffer.iter().all(|s| *s == 0.0));
                break;
            }
            heard.extend_from_slice(&buffer);
        }
        assert_eq!(position, 10);
        assert_eq!(&heard[..10], &samples[..]);
        assert!(heard[10..].iter().all(|s| *s == 0.0));
    }
}

#[test]
fn playing_past_the_end_is_silence() {
    let mut buffer = [9u8; 3];
    assert_eq!(fill_output(&[1, 2], 5, 0, &mut buffer), (5, true));
    assert_eq!(buffer, [0, 0, 0]);
    let mut empty: [u8; 0] = [];
    assert_eq!(fill_output(&[1, 2], 1, 0, &mut empty), (1, false));
}
