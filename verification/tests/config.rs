use baudacious::adapters::mock_radio::MockRadio;
use baudacious::commands::config::{
    config_step, delete_configuration, list_configurations, load_configuration, save_configuration,
    send_tx_power, set_tx_power_config, validate_tx_power, ConfigAction, ConfigEvent,
    ConfigOutcome, ConfigPhase,
};
use baudacious::commands::config_list::{profile_names, text_not_after};
use baudacious::commands::config_name::{
    config_file_name, name_may_hold, profile_of_file, sanitize_name, ProfileName,
};
use baudacious::commands::tx::{start_step, start_tx, StartAction, StartEvent};
use baudacious::domain::types::{Configuration, ModemConfig};
use baudacious::state::{Guarded, RadioLink, TxControl};
use baudacious::text::{decimal_text, join3, same_text};

/// The settings that pass through are a text here.
type Phase = ConfigPhase<&'static str>;
type Action = ConfigAction<&'static str>;

fn profile(name: &str, watts: u32) -> Configuration<&'static str> {
    Configuration { name: name.to_string(), tx_power_watts: watts, settings: "kept" }
}

fn failure(step: (Phase, Action)) -> String {
    match step {
        (ConfigPhase::Finished, ConfigAction::Finish(Err(text))) => text,
        _ => panic!("expected a failure"),
    }
}

fn is_done(step: &(Phase, Action)) -> bool {
    matches!(step, (ConfigPhase::Finished, ConfigAction::Finish(Ok(ConfigOutcome::Done))))
}

fn text(s: &str) -> String {
    s.to_string()
}

#[test]
fn sanitize_name_rejects_path_traversal() {
    assert!(sanitize_name("../evil").is_err());
    assert!(sanitize_name("foo/bar").is_err());
    assert!(sanitize_name("foo\\bar").is_err());
    assert!(sanitize_name("").is_err());
    assert!(sanitize_name("  ").is_err());
}

#[test]
fn sanitize_name_accepts_valid_names() {
    assert_eq!(sanitize_name("Default").unwrap(), "Default");
    assert_eq!(sanitize_name("FT-991A Home").unwrap(), "FT-991A Home");
    assert_eq!(sanitize_name("my_config_2").unwrap(), "my_config_2");
}

#[test]
fn sanitize_name_rejects_special_characters() {
    assert!(sanitize_name("config<>").is_err());
    assert!(sanitize_name("config;drop").is_err());
    assert!(sanitize_name("config|pipe").is_err());
}

#[test]
fn set_tx_power_config_rejects_over_100w() {
    assert!(validate_tx_power(101).is_err());
    let err = validate_tx_power(101).unwrap_err();
    assert!(err.contains("exceeds maximum"));
}

#[test]
fn set_tx_power_config_accepts_0w() {
    assert!(validate_tx_power(0).is_ok());
}

#[test]
fn set_tx_power_config_accepts_boundary_values() {
    assert!(validate_tx_power(25).is_ok());
    assert!(validate_tx_power(100).is_ok());
}

#[test]
fn sanitize_name_texts() {
    assert_eq!(sanitize_name(" \t").unwrap_err(), "Configuration name cannot be empty");
    assert_eq!(sanitize_name("a..b").unwrap_err(), "Invalid configuration name");
    assert_eq!(sanitize_name("a/b").unwrap_err(), "Invalid configuration name");
    assert_eq!(sanitize_name("a\\b").unwrap_err(), "Invalid configuration name");
    assert_eq!(
        sanitize_name("a.b").unwrap_err(),
        "Configuration name contains invalid characters"
    );
    assert_eq!(
        sanitize_name("tab\tinside").unwrap_err(),
        "Configuration name contains invalid characters"
    );
}

#[test]
fn sanitize_name_trims_unicode_white_space() {
    assert_eq!(sanitize_name("\u{3000} Heim \u{a0}\u{2028}").unwrap(), "Heim");
    // A zero-width space is no white space, and no letter either.
    assert!(sanitize_name("\u{200b}Heim").is_err());
    // Every character that counts as white space, and nothing else, is taken away.
    for code in 0..=0x10ffffu32 {
        if let Some(c) = char::from_u32(code) {
            let listed = matches!(
                code,
                0x09..=0x0d | 0x20 | 0x85 | 0xa0 | 0x1680 | 0x2000..=0x200a | 0x2028 | 0x2029
                    | 0x202f | 0x205f | 0x3000
            );
            assert_eq!(c.is_whitespace(), listed);
        }
    }
}

#[test]
fn sanitize_name_accepts_letters_of_any_script() {
    assert_eq!(sanitize_name("Küche 2").unwrap(), "Küche 2");
    assert_eq!(sanitize_name("無線機").unwrap(), "無線機");
    assert!(sanitize_name("radio\u{1f4fb}").is_err());
    for code in 0..0x80u32 {
        let c = char::from_u32(code).unwrap();
        assert_eq!(c.is_alphanumeric(), c.is_ascii_alphanumeric());
    }
}

#[test]
fn sanitizing_twice_changes_nothing() {
    for name in ["Default", "  FT-991A Home ", "a_b-c 1", "\u{2003}Ü\u{2003}"] {
        let once = sanitize_name(name).unwrap();
        assert_eq!(sanitize_name(&once).unwrap(), once);
        assert_eq!(ProfileName::new(name).unwrap().as_str(), once);
    }
    assert!(ProfileName::new("..").is_err());
}

#[test]
fn name_characters() {
    for c in [' ', '-', '_'] {
        assert!(name_may_hold(c, false));
    }
    assert!(name_may_hold('ß', true));
    assert!(!name_may_hold('.', false));
    assert!(!name_may_hold('/', false));
}

#[test]
fn small_texts() {
    assert_eq!(decimal_text(0), "0");
    assert_eq!(decimal_text(7), "7");
    assert_eq!(decimal_text(1_234_567_890), "1234567890");
    assert_eq!(decimal_text(u32::MAX), "4294967295");
    assert_eq!(join3("a", "", "c"), "ac");
    assert!(same_text("x", "x"));
    assert!(!same_text("x", "y"));
}

#[test]
fn power_text_is_exact() {
    assert_eq!(validate_tx_power(101).unwrap_err(), "TX power 101 W exceeds maximum (100 W)");
    assert_eq!(
        validate_tx_power(u32::MAX).unwrap_err(),
        "TX power 4294967295 W exceeds maximum (100 W)"
    );
}

#[test]
fn files_and_profiles() {
    assert_eq!(config_file_name("Home"), "Home.json");
    assert_eq!(profile_of_file("Home.json").unwrap(), "Home");
    assert_eq!(profile_of_file("FT-991A Home.json").unwrap(), "FT-991A Home");
    assert_eq!(profile_of_file("Küche.json").unwrap(), "Küche");
    assert!(profile_of_file(".json").is_none());
    assert!(profile_of_file("..json").is_none());
    assert!(profile_of_file("json").is_none());
    assert!(profile_of_file("Home.JSON").is_none());
    assert!(profile_of_file("Home.toml").is_none());
    assert!(profile_of_file(" Home.json").is_none());
    assert!(profile_of_file("Home .json").is_none());
    assert!(profile_of_file("a.b.json").is_none());
    assert!(profile_of_file("\u{fffd}.json").is_none());
}

#[test]
fn profiles_are_sorted_like_strings() {
    let files: Vec<String> =
        ["b.json", "Z.json", "a b.json", "notes.txt", "a.json", "Ä.json", "a-b.json", "..json"]
            .iter()
            .map(|s| s.to_string())
            .collect();
    let names = profile_names(&files);
    let mut expected = vec!["b", "Z", "a b", "a", "Ä", "a-b"];
    expected.sort();
    assert_eq!(names, expected);
    let mut reversed = files;
    reversed.reverse();
    assert_eq!(profile_names(&reversed), names);
}

#[test]
fn text_order_is_that_of_strings() {
    let samples = ["", "a", "A", "ab", "b", "z", "é", "\u{ffff}", "\u{10000}", "a\u{10000}"];
    for a in samples {
        for b in samples {
            assert_eq!(text_not_after(a, b), a <= b, "{a:?} {b:?}");
        }
    }
}

#[test]
fn save_writes_the_file_of_the_profile() {
    let (phase, action) = save_configuration(profile(" Home ", 40));
    assert!(matches!(action, ConfigAction::OpenDir));
    let (phase, action) = config_step(phase, ConfigEvent::DirReady);
    match action {
        ConfigAction::WriteFile { file, config } => {
            assert_eq!(file, "Home.json");
            assert_eq!(config.name, " Home ");
            assert_eq!(config.tx_power_watts, 40);
        }
        _ => panic!("expected a write"),
    }
    assert!(is_done(&config_step(phase, ConfigEvent::Written)));
}

#[test]
fn save_failures() {
    assert_eq!(
        failure(save_configuration(profile("../evil", 1))),
        "Invalid configuration name"
    );
    let (phase, _) = save_configuration(profile("Home", 1));
    assert_eq!(
        failure(config_step(phase, ConfigEvent::DataDirFailed(text("unknown")))),
        "Failed to get app data dir: unknown"
    );
    let (phase, _) = save_configuration(profile("Home", 1));
    assert_eq!(
        failure(config_step(phase, ConfigEvent::CreateDirFailed(text("denied")))),
        "Failed to create configs dir: denied"
    );
    assert_eq!(
        failure(config_step(ConfigPhase::SaveWrite, ConfigEvent::SerializeFailed(text("bad")))),
        "Serialization error: bad"
    );
    assert_eq!(
        failure(config_step(ConfigPhase::SaveWrite, ConfigEvent::WriteFailed(text("full")))),
        "Failed to write config: full"
    );
}

#[test]
fn load_reads_what_save_wrote() {
    let (saving, _) = save_configuration(profile("Home", 40));
    let (_, saved) = config_step(saving, ConfigEvent::DirReady);
    let (phase, action) = load_configuration("  Home");
    assert!(matches!(action, ConfigAction::OpenDir));
    let (phase, action) = config_step(phase, ConfigEvent::DirReady);
    match (saved, action) {
        (ConfigAction::WriteFile { file, .. }, ConfigAction::ReadFile(read)) => {
            assert_eq!(file, read)
        }
        _ => panic!("expected a write and a read"),
    }
    let (phase, action) = config_step(phase, ConfigEvent::FileRead);
    assert!(matches!(action, ConfigAction::Parse));
    match config_step(phase, ConfigEvent::Parsed(profile("Home", 40))) {
        (ConfigPhase::Finished, ConfigAction::Finish(Ok(ConfigOutcome::Loaded(config)))) => {
            assert_eq!(config.name, "Home");
            assert_eq!(config.tx_power_watts, 40);
        }
        _ => panic!("expected the profile"),
    }
}

#[test]
fn load_failures() {
    assert_eq!(
        failure(load_configuration("a;b")),
        "Configuration name contains invalid characters"
    );
    let (phase, _) = load_configuration("Home");
    let (phase, _) = config_step(phase, ConfigEvent::DirReady);
    assert_eq!(
        failure(config_step(phase, ConfigEvent::ReadFailed(text("no such file")))),
        "Failed to read config 'Home': no such file"
    );
    let (phase, _) = load_configuration("Home");
    let (phase, _) = config_step(phase, ConfigEvent::DirReady);
    let (phase, _) = config_step(phase, ConfigEvent::FileRead);
    assert_eq!(
        failure(config_step(phase, ConfigEvent::ParseFailed(text("EOF")))),
        "Failed to parse config 'Home': EOF"
    );
}

#[test]
fn list_returns_sorted_names() {
    let (phase, action): (Phase, Action) = list_configurations();
    assert!(matches!(action, ConfigAction::OpenDir));
    let (phase, action) = config_step(phase, ConfigEvent::DirReady);
    assert!(matches!(action, ConfigAction::ListFiles));
    let files = vec![text("b.json"), text("x.tmp"), text("a.json")];
    match config_step(phase, ConfigEvent::Files(files)) {
        (_, ConfigAction::Finish(Ok(ConfigOutcome::Names(names)))) => {
            assert_eq!(names, ["a", "b"])
        }
        _ => panic!("expected names"),
    }
    assert_eq!(
        failure(config_step(ConfigPhase::ListRead, ConfigEvent::ListFailed(text("denied")))),
        "Failed to read configs dir: denied"
    );
}

#[test]
fn delete_removes_the_file() {
    let (phase, action) = delete_configuration("Home");
    assert!(matches!(action, ConfigAction::OpenDir));
    let (phase, action) = config_step(phase, ConfigEvent::DirReady);
    assert!(matches!(action, ConfigAction::CheckFile(f) if f == "Home.json"));
    let (phase, action) = config_step(phase, ConfigEvent::Checked(true));
    assert!(matches!(action, ConfigAction::RemoveFile(f) if f == "Home.json"));
    assert!(is_done(&config_step(phase, ConfigEvent::Removed)));
}

#[test]
fn delete_failures() {
    assert_eq!(failure(delete_configuration("")), "Configuration name cannot be empty");
    assert_eq!(
        failure(delete_configuration(" Default ")),
        "Cannot delete the Default configuration"
    );
    let (phase, _) = delete_configuration("Home");
    let (phase, _) = config_step(phase, ConfigEvent::DirReady);
    assert_eq!(
        failure(config_step(phase, ConfigEvent::Checked(false))),
        "Configuration 'Home' not found"
    );
    let (phase, _) = delete_configuration("Home");
    let (phase, _) = config_step(phase, ConfigEvent::DirReady);
    let (phase, _) = config_step(phase, ConfigEvent::Checked(true));
    assert_eq!(
        failure(config_step(phase, ConfigEvent::RemoveFailed(text("busy")))),
        "Failed to delete config 'Home': busy"
    );
}

/// Bring a change of the transmit power to the point where the profile is checked for.
fn power_checked(watts: u32) -> Phase {
    let mut modem = Guarded::new(ModemConfig::default());
    let (phase, action) = set_tx_power_config(&mut modem, watts);
    assert_eq!(modem.value.tx_power_watts, watts);
    assert!(matches!(action, ConfigAction::SendTxPower(w) if w == watts));
    let (phase, action) = config_step(phase, ConfigEvent::PowerSent);
    assert!(matches!(action, ConfigAction::OpenDir));
    let (phase, action) = config_step(phase, ConfigEvent::DirReady);
    assert!(matches!(action, ConfigAction::CheckFile(f) if f == "Default.json"));
    phase
}

#[test]
fn power_change_updates_the_default_profile() {
    let (phase, action) = config_step(power_checked(60), ConfigEvent::Checked(true));
    assert!(matches!(action, ConfigAction::ReadFile(f) if f == "Default.json"));
    let (phase, action) = config_step(phase, ConfigEvent::FileRead);
    assert!(matches!(action, ConfigAction::Parse));
    let (phase, action) = config_step(phase, ConfigEvent::Parsed(profile("Default", 25)));
    match action {
        ConfigAction::WriteFile { file, config } => {
            assert_eq!(file, "Default.json");
            assert_eq!(config.name, "Default");
            assert_eq!(config.tx_power_watts, 60);
            assert_eq!(config.settings, "kept");
        }
        _ => panic!("expected a write"),
    }
    assert!(is_done(&config_step(phase, ConfigEvent::Written)));
}

#[test]
fn power_change_goes_back_to_the_file_it_came_from() {
    for name in ["Home", "a/b", "", " Default "] {
        let (phase, _) = config_step(power_checked(60), ConfigEvent::Checked(true));
        let (phase, _) = config_step(phase, ConfigEvent::FileRead);
        let (phase, action) = config_step(phase, ConfigEvent::Parsed(profile(name, 25)));
        match action {
            ConfigAction::WriteFile { file, config } => {
                assert_eq!(file, "Default.json");
                assert_eq!(config.name, name);
                assert_eq!(config.tx_power_watts, 60);
                assert_eq!(config.settings, "kept");
            }
            _ => panic!("expected a write"),
        }
        assert!(is_done(&config_step(phase, ConfigEvent::Written)));
    }
}

#[test]
fn power_change_without_a_stored_profile_is_done() {
    assert!(is_done(&config_step(power_checked(0), ConfigEvent::Checked(false))));
}

#[test]
fn power_change_failures() {
    let mut modem = Guarded::new(ModemConfig::default());
    assert_eq!(
        failure(set_tx_power_config(&mut modem, 101)),
        "TX power 101 W exceeds maximum (100 W)"
    );
    assert_eq!(modem.value.tx_power_watts, 25);
    modem.poisoned = true;
    assert_eq!(failure(set_tx_power_config(&mut modem, 50)), "config lock poisoned");
    assert_eq!(modem.value.tx_power_watts, 25);

    let (phase, _) = config_step(power_checked(5), ConfigEvent::Checked(true));
    assert_eq!(
        failure(config_step(phase, ConfigEvent::ReadFailed(text("denied")))),
        "Failed to read config 'Default': denied"
    );
    let (phase, _) = config_step(power_checked(5), ConfigEvent::Checked(true));
    let (phase, _) = config_step(phase, ConfigEvent::FileRead);
    assert_eq!(
        failure(config_step(phase, ConfigEvent::ParseFailed(text("EOF")))),
        "Failed to parse config 'Default': EOF"
    );
    let (phase, _) = config_step(power_checked(5), ConfigEvent::Checked(true));
    let (phase, _) = config_step(phase, ConfigEvent::FileRead);
    let (phase, _) = config_step(phase, ConfigEvent::Parsed(profile("Default", 1)));
    assert_eq!(
        failure(config_step(phase, ConfigEvent::WriteFailed(text("full")))),
        "Failed to write config: full"
    );
}

#[test]
fn accepted_power_is_used_by_the_next_start() {
    let mut modem = Guarded::new(ModemConfig::default());
    let (_, action): (Phase, Action) = set_tx_power_config(&mut modem, 80);
    assert!(matches!(action, ConfigAction::SendTxPower(80)));
    let mut tx: TxControl<u32> = TxControl::new();
    let (phase, _) = start_tx(&mut tx);
    let (phase, _) = start_step(phase, &mut tx, StartEvent::Config(modem.value));
    let (_, action) = start_step(phase, &mut tx, StartEvent::Encoded(1536));
    assert!(matches!(action, StartAction::PrepareRadio(80)));
}

#[test]
fn power_is_sent_to_a_connected_radio() {
    let mut link: RadioLink<MockRadio> = RadioLink::new();
    assert!(send_tx_power(&mut link, 70).result.is_err());
    link.radio.value = Some(MockRadio::new());
    assert!(send_tx_power(&mut link, 70).result.is_ok());
    assert_eq!(link.radio.value.unwrap().tx_power, 70);
}
