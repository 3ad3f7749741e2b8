use baudacious::adapters::audio_devices::{enumerate_devices, HostDevice, HostReport};
use baudacious::adapters::cpal_audio::{
    CpalAudioInput, CpalAudioOutput, StreamOutcome, STREAM_CHANNELS, STREAM_SAMPLE_RATE,
};
use baudacious::domain::error::{Psk31Error, Psk31Result};

fn some(names: &[&str]) -> Vec<Option<String>> {
    names.iter().map(|n| Some(n.to_string())).collect()
}

fn device(name: &str, has_input: bool, has_output: bool) -> HostDevice {
    HostDevice { name: Some(name.to_string()), has_input, has_output }
}

fn audio_text<T>(r: Psk31Result<T>) -> String {
    match r {
        Err(Psk31Error::Audio(text)) => text,
        _ => panic!("expected an audio error"),
    }
}

// --- AudioInput tests ---

#[test]
fn test_new_not_running() {
    let input: CpalAudioInput<u32> = CpalAudioInput::new();
    assert!(!input.is_running());
}

#[test]
fn test_list_devices_ok() {
    let input: CpalAudioInput<u32> = CpalAudioInput::new();
    let silent =
        HostReport { default_input: None, default_output: None, outputs: None, devices: None };
    let result = input.list_devices(&silent);
    assert!(result.is_ok());
    assert!(result.unwrap().is_empty());
}

#[test]
fn test_stop_idempotent() {
    let mut input: CpalAudioInput<u32> = CpalAudioInput::new();
    assert!(input.stop().is_ok());
    assert!(input.stop().is_ok());
}

#[test]
fn test_start_bad_device_errors() {
    let mut input: CpalAudioInput<u32> = CpalAudioInput::new();
    let result = input.start(
        &Ok(some(&["Built-in Microphone"])),
        "nonexistent-device-that-does-not-exist",
    );
    assert!(result.is_err());
    assert_eq!(
        audio_text(result),
        "Audio device not found: nonexistent-device-that-does-not-exist"
    );
    assert!(!input.is_running());
}

// --- AudioOutput tests ---

#[test]
fn test_output_new_not_running() {
    let output: CpalAudioOutput<u32> = CpalAudioOutput::new();
    assert!(!output.is_running());
}

#[test]
fn test_output_stop_idempotent() {
    let mut output: CpalAudioOutput<u32> = CpalAudioOutput::new();
    assert!(output.stop().is_ok());
    assert!(output.stop().is_ok());
}

// --- Streams ---

#[test]
fn input_start_runs_and_stops() {
    let mut input = CpalAudioInput::new();
    let mut names = some(&["A", "B", "B"]);
    names.insert(0, None);
    assert_eq!(input.start(&Ok(names), "B").unwrap(), 2);
    assert!(input.is_running());
    input.attach(StreamOutcome::Playing(7u32)).unwrap();
    assert_eq!(input.stream, Some(7));
    assert_eq!(audio_text(input.start(&Ok(some(&["A"])), "A")), "Audio stream already running");
    input.stream_error();
    assert!(!input.is_running());
    assert_eq!(input.stream, Some(7));
    input.stop().unwrap();
    assert!(input.stream.is_none());
}

#[test]
fn input_failures_keep_the_flag_until_stopped() {
    let mut input: CpalAudioInput<u32> = CpalAudioInput::new();
    assert_eq!(
        audio_text(input.start(&Err("no host".to_string()), "A")),
        "Failed to enumerate devices: no host"
    );
    assert!(!input.is_running());
    input.start(&Ok(some(&["A"])), "A").unwrap();
    assert_eq!(
        audio_text(input.attach(StreamOutcome::BuildFailed("busy".to_string()))),
        "Failed to build stream: busy"
    );
    assert_eq!(
        audio_text(input.attach(StreamOutcome::PlayFailed("busy".to_string()))),
        "Failed to start stream: busy"
    );
    assert!(input.is_running());
    assert!(input.stream.is_none());
    input.stop().unwrap();
    assert!(!input.is_running());
}

#[test]
fn output_texts_are_its_own() {
    let mut output = CpalAudioOutput::new();
    assert_eq!(
        audio_text(output.start(&Ok(some(&["A"])), "C")),
        "Audio output device not found: C"
    );
    assert_eq!(
        audio_text(output.start(&Err("no host".to_string()), "A")),
        "Failed to enumerate devices: no host"
    );
    assert_eq!(output.start(&Ok(some(&["A"])), "A").unwrap(), 0);
    assert_eq!(
        audio_text(output.start(&Err("no host".to_string()), "A")),
        "Audio output already running"
    );
    assert_eq!(
        audio_text(output.attach(StreamOutcome::BuildFailed("x".to_string()))),
        "Failed to build output stream: x"
    );
    assert_eq!(
        audio_text(output.attach(StreamOutcome::PlayFailed("x".to_string()))),
        "Failed to start output stream: x"
    );
    output.attach(StreamOutcome::Playing(1u8)).unwrap();
    assert_eq!(output.stream, Some(1));
    output.stream_error();
    assert!(!output.is_running());
    output.stop().unwrap();
    assert!(output.stream.is_none());
}

#[test]
fn streams_are_mono_at_48_khz() {
    assert_eq!(STREAM_CHANNELS, 1);
    assert_eq!(STREAM_SAMPLE_RATE, 48_000);
}

// --- Device list ---

#[test]
fn duplicate_devices_are_merged_in_order() {
    let devices = vec![
        device("USB Audio CODEC", false, false),
        device("Built-in Microphone", true, false),
        device("Dock", true, false),
        device("USB Audio CODEC", true, false),
        HostDevice { name: None, has_input: false, has_output: false },
        device("Dock", false, true),
        device("Speakers", false, true),
    ];
    let host = HostReport {
        default_input: Some("Built-in Microphone".to_string()),
        default_output: Some("USB Audio CODEC".to_string()),
        outputs: Some(vec![
            None,
            Some("USB Audio CODEC".to_string()),
            Some("Speakers".to_string()),
        ]),
        devices: Some(devices),
    };
    let list = enumerate_devices(&host).unwrap();
    let names: Vec<&str> = list.iter().map(|d| d.name.as_str()).collect();
    assert_eq!(names, ["USB Audio CODEC", "Built-in Microphone", "Dock", "Unknown", "Speakers"]);
    assert!(list.iter().all(|d| d.id == d.name));
    let inputs: Vec<bool> = list.iter().map(|d| d.is_input).collect();
    assert_eq!(inputs, [true, true, true, false, false]);
    // A microphone is no output.
    let outputs: Vec<bool> = list.iter().map(|d| d.is_output).collect();
    assert_eq!(outputs, [true, false, true, false, true]);
    let defaults: Vec<bool> = list.iter().map(|d| d.is_default).collect();
    assert_eq!(defaults, [true, true, false, false, false]);
    let unverified: Vec<bool> = list.iter().map(|d| d.output_unverified).collect();
    assert_eq!(unverified, [false, false, true, false, false]);
    let output: CpalAudioOutput<u32> = CpalAudioOutput::new();
    assert_eq!(output.list_devices(&host).unwrap().len(), 5);
}

#[test]
fn without_a_list_of_outputs_the_configuration_decides() {
    let host = HostReport {
        default_input: None,
        default_output: None,
        outputs: None,
        devices: Some(vec![device("A", false, true), device("B", true, false)]),
    };
    let list = enumerate_devices(&host).unwrap();
    assert!(list[0].is_output && list[0].output_unverified);
    assert!(!list[1].is_output && !list[1].output_unverified);
}
