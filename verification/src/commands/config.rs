//! Configuration profiles: save, load, list, delete, and the transmit power.
//!
//! Each command runs in steps. Between two steps the program around the library does one
//! thing with the directory of the profiles, and reports what came of it. The causes of
//! failures arrive as text.

use crate::commands::config_list::{profile_names, profiles, sorted, texts};
use crate::commands::config_name::{
    clean_name_stays_inside, config_file_name, file_of, files_tell_names_apart, name_error_text,
    sanitized, stays_inside, ProfileName,
};
use crate::commands::radio::{one_request, request_made, with_radio, RadioReply};
use crate::commands::tx::{start_steps, StartAction, StartEvent, StartKind, StartPhase};
use crate::domain::error::Psk31Result;
use crate::domain::types::{Configuration, ModemConfig};
use crate::ports::radio::{RadioCall, RadioControl};
use crate::state::{Guarded, RadioLink, TxControl};
use crate::text::{decimal, decimal_text, join3, same_text};
use vstd::prelude::*;

verus! {

/// The highest transmit power, in watts.
pub const MAX_TX_POWER_WATTS: u32 = 100;

/// How far a command has come.
pub enum ConfigPhase<S> {
    SaveDir { config: Configuration<S>, name: ProfileName },
    SaveWrite,
    LoadDir { name: ProfileName },
    LoadRead { name: ProfileName },
    LoadParse { name: ProfileName },
    ListDir,
    ListRead,
    DeleteDir { name: ProfileName },
    DeleteCheck { name: ProfileName },
    DeleteRemove { name: ProfileName },
    PowerSend { watts: u32 },
    PowerDir { watts: u32 },
    PowerCheck { watts: u32 },
    PowerRead { watts: u32 },
    PowerParse { watts: u32 },
    Finished,
}

/// What a command learns between two steps.
pub enum ConfigEvent<S> {
    /// The directory of the profiles is there.
    DirReady,
    DataDirFailed(String),
    CreateDirFailed(String),
    /// Whether the file exists.
    Checked(bool),
    FileRead,
    ReadFailed(String),
    Parsed(Configuration<S>),
    ParseFailed(String),
    Written,
    SerializeFailed(String),
    WriteFailed(String),
    Removed,
    RemoveFailed(String),
    /// The names of all files in the directory.
    Files(Vec<String>),
    ListFailed(String),
    PowerSent,
}

/// What a command wants done next. Files are files in the directory of the profiles.
pub enum ConfigAction<S> {
    /// Find the directory, and create it if needed.
    OpenDir,
    CheckFile(String),
    ReadFile(String),
    /// Parse what was read last.
    Parse,
    /// Serialize the profile, and write it to the file.
    WriteFile { file: String, config: Configuration<S> },
    RemoveFile(String),
    ListFiles,
    /// Call [`send_tx_power`] with this power.
    SendTxPower(u32),
    Finish(Result<ConfigOutcome<S>, String>),
}

/// What a command returns.
#[derive(Debug)]
pub enum ConfigOutcome<S> {
    Done,
    Loaded(Configuration<S>),
    Names(Vec<String>),
}

impl<S> ConfigPhase<S> {
    /// A command that removes a file is not about the default profile.
    pub open spec fn wf(self) -> bool {
        match self {
            ConfigPhase::DeleteDir { name } => name@ != "Default"@,
            ConfigPhase::DeleteCheck { name } => name@ != "Default"@,
            ConfigPhase::DeleteRemove { name } => name@ != "Default"@,
            _ => true,
        }
    }

    /// The event can answer what was asked for.
    pub open spec fn expects(self, event: ConfigEvent<S>) -> bool {
        match self {
            ConfigPhase::SaveDir { .. } | ConfigPhase::LoadDir { .. } | ConfigPhase::ListDir
            | ConfigPhase::DeleteDir { .. } | ConfigPhase::PowerDir { .. } => event is DirReady
                || event is DataDirFailed || event is CreateDirFailed,
            ConfigPhase::SaveWrite => event is Written || event is SerializeFailed
                || event is WriteFailed,
            ConfigPhase::LoadRead { .. } | ConfigPhase::PowerRead { .. } => event is FileRead
                || event is ReadFailed,
            ConfigPhase::LoadParse { .. } | ConfigPhase::PowerParse { .. } => event is Parsed
                || event is ParseFailed,
            ConfigPhase::ListRead => event is Files || event is ListFailed,
            ConfigPhase::DeleteCheck { .. } | ConfigPhase::PowerCheck { .. } => event is Checked,
            ConfigPhase::DeleteRemove { .. } => event is Removed || event is RemoveFailed,
            ConfigPhase::PowerSend { .. } => event is PowerSent,
            ConfigPhase::Finished => false,
        }
    }
}

/// The command has failed with this text.
pub open spec fn fails<S>(next: ConfigPhase<S>, action: ConfigAction<S>, text: Seq<char>) -> bool {
    &&& next is Finished
    &&& action matches ConfigAction::Finish(Err(shown))
    &&& shown@ == text
}

/// The command has succeeded.
pub open spec fn succeeds<S>(
    next: ConfigPhase<S>,
    action: ConfigAction<S>,
    outcome: ConfigOutcome<S>,
) -> bool {
    &&& next is Finished
    &&& action == ConfigAction::Finish(Ok(outcome))
}

/// `'name'` in the text of a failure.
pub open spec fn about(before: Seq<char>, name: Seq<char>, after: Seq<char>) -> Seq<char> {
    before + name + after
}

/// What a command does first with a profile that is to be saved.
pub open spec fn save_begins<S>(
    config: Configuration<S>,
    next: ConfigPhase<S>,
    action: ConfigAction<S>,
) -> bool {
    match sanitized(config.name@) {
        Ok(kept) => {
            &&& next matches ConfigPhase::SaveDir { config: saved, name }
            &&& saved == config
            &&& name@ == kept
            &&& action is OpenDir
        },
        Err(error) => fails(next, action, name_error_text(error)),
    }
}

/// What a command does first to load a profile.
pub open spec fn load_begins<S>(
    name: Seq<char>,
    next: ConfigPhase<S>,
    action: ConfigAction<S>,
) -> bool {
    match sanitized(name) {
        Ok(kept) => {
            &&& next matches ConfigPhase::LoadDir { name: clean }
            &&& clean@ == kept
            &&& action is OpenDir
        },
        Err(error) => fails(next, action, name_error_text(error)),
    }
}

/// What a command does first to delete a profile.
pub open spec fn delete_begins<S>(
    name: Seq<char>,
    next: ConfigPhase<S>,
    action: ConfigAction<S>,
) -> bool {
    match sanitized(name) {
        Ok(kept) => if kept == "Default"@ {
            fails(next, action, "Cannot delete the Default configuration"@)
        } else {
            &&& next matches ConfigPhase::DeleteDir { name: clean }
            &&& clean@ == kept
            &&& action is OpenDir
        },
        Err(error) => fails(next, action, name_error_text(error)),
    }
}

/// What a command does first to change the transmit power.
pub open spec fn power_begins<S>(
    watts: u32,
    before: Guarded<ModemConfig>,
    after: Guarded<ModemConfig>,
    next: ConfigPhase<S>,
    action: ConfigAction<S>,
) -> bool {
    if watts > MAX_TX_POWER_WATTS {
        &&& after == before
        &&& fails(
            next,
            action,
            about("TX power "@, decimal(watts as nat), " W exceeds maximum (100 W)"@),
        )
    } else if before.poisoned {
        &&& after == before
        &&& fails(next, action, "config lock poisoned"@)
    } else {
        &&& after == Guarded::sound(ModemConfig { tx_power_watts: watts, ..before.value })
        &&& next == ConfigPhase::<S>::PowerSend { watts }
        &&& action == ConfigAction::<S>::SendTxPower(watts)
    }
}

/// The text of a directory that is not there.
pub open spec fn dir_failure<S>(event: ConfigEvent<S>) -> Seq<char> {
    match event {
        ConfigEvent::DataDirFailed(cause) => "Failed to get app data dir: "@ + cause@,
        ConfigEvent::CreateDirFailed(cause) => "Failed to create configs dir: "@ + cause@,
        _ => Seq::empty(),
    }
}

/// Every step of a command after the first.
pub open spec fn config_steps<S>(
    phase: ConfigPhase<S>,
    event: ConfigEvent<S>,
    next: ConfigPhase<S>,
    action: ConfigAction<S>,
) -> bool {
    match (phase, event) {
        // Whatever the command, it needs the directory.
        (_, ConfigEvent::DataDirFailed(_)) => fails(next, action, dir_failure(event)),
        (_, ConfigEvent::CreateDirFailed(_)) => fails(next, action, dir_failure(event)),
        // Save
        (ConfigPhase::SaveDir { config, name }, _) => {
            &&& next is SaveWrite
            &&& action matches ConfigAction::WriteFile { file, config: written }
            &&& file@ == file_of(name@)
            &&& written == config
        },
        (ConfigPhase::SaveWrite, ConfigEvent::SerializeFailed(cause)) => fails(
            next,
            action,
            "Serialization error: "@ + cause@,
        ),
        (ConfigPhase::SaveWrite, ConfigEvent::WriteFailed(cause)) => fails(
            next,
            action,
            "Failed to write config: "@ + cause@,
        ),
        (ConfigPhase::SaveWrite, _) => succeeds(next, action, ConfigOutcome::Done),
        // Load
        (ConfigPhase::LoadDir { name }, _) => {
            &&& next == ConfigPhase::<S>::LoadRead { name }
            &&& action matches ConfigAction::ReadFile(file)
            &&& file@ == file_of(name@)
        },
        (ConfigPhase::LoadRead { name }, ConfigEvent::ReadFailed(cause)) => fails(
            next,
            action,
            about("Failed to read config '"@, name@, "': "@) + cause@,
        ),
        (ConfigPhase::LoadRead { name }, _) => {
            &&& next == ConfigPhase::<S>::LoadParse { name }
            &&& action is Parse
        },
        (ConfigPhase::LoadParse { name }, ConfigEvent::Parsed(config)) => succeeds(
            next,
            action,
            ConfigOutcome::Loaded(config),
        ),
        (ConfigPhase::LoadParse { name }, ConfigEvent::ParseFailed(cause)) => fails(
            next,
            action,
            about("Failed to parse config '"@, name@, "': "@) + cause@,
        ),
        // List
        (ConfigPhase::ListDir, _) => {
            &&& next is ListRead
            &&& action is ListFiles
        },
        (ConfigPhase::ListRead, ConfigEvent::ListFailed(cause)) => fails(
            next,
            action,
            "Failed to read configs dir: "@ + cause@,
        ),
        (ConfigPhase::ListRead, ConfigEvent::Files(files)) => {
            &&& next is Finished
            &&& action matches ConfigAction::Finish(Ok(ConfigOutcome::Names(names)))
            &&& sorted(texts(names@))
            &&& texts(names@).to_multiset() == profiles(texts(files@)).to_multiset()
        },
        // Delete
        (ConfigPhase::DeleteDir { name }, _) => {
            &&& next == ConfigPhase::<S>::DeleteCheck { name }
            &&& action matches ConfigAction::CheckFile(file)
            &&& file@ == file_of(name@)
        },
        (ConfigPhase::DeleteCheck { name }, ConfigEvent::Checked(exists_)) => if exists_ {
            &&& next == ConfigPhase::<S>::DeleteRemove { name }
            &&& action matches ConfigAction::RemoveFile(file)
            &&& file@ == file_of(name@)
        } else {
            fails(next, action, about("Configuration '"@, name@, "' not found"@))
        },
        (ConfigPhase::DeleteRemove { name }, ConfigEvent::RemoveFailed(cause)) => fails(
            next,
            action,
            about("Failed to delete config '"@, name@, "': "@) + cause@,
        ),
        (ConfigPhase::DeleteRemove { name }, _) => succeeds(next, action, ConfigOutcome::Done),
        // Transmit power
        (ConfigPhase::PowerSend { watts }, _) => {
            &&& next == ConfigPhase::<S>::PowerDir { watts }
            &&& action is OpenDir
        },
        (ConfigPhase::PowerDir { watts }, _) => {
            &&& next == ConfigPhase::<S>::PowerCheck { watts }
            &&& action matches ConfigAction::CheckFile(file)
            &&& file@ == file_of("Default"@)
        },
        // Where no default profile has been stored there is nothing to update.
        (ConfigPhase::PowerCheck { watts }, ConfigEvent::Checked(exists_)) => if exists_ {
            &&& next == ConfigPhase::<S>::PowerRead { watts }
            &&& action matches ConfigAction::ReadFile(file)
            &&& file@ == file_of("Default"@)
        } else {
            succeeds(next, action, ConfigOutcome::Done)
        },
        (ConfigPhase::PowerRead { watts }, ConfigEvent::ReadFailed(cause)) => fails(
            next,
            action,
            about("Failed to read config '"@, "Default"@, "': "@) + cause@,
        ),
        (ConfigPhase::PowerRead { watts }, _) => {
            &&& next == ConfigPhase::<S>::PowerParse { watts }
            &&& action is Parse
        },
        // Whatever name the profile bears, it goes back to the file that it was read from.
        (ConfigPhase::PowerParse { watts }, ConfigEvent::Parsed(config)) => {
            &&& next is SaveWrite
            &&& action matches ConfigAction::WriteFile { file, config: written }
            &&& file@ == file_of("Default"@)
            &&& written == Configuration { tx_power_watts: watts, ..config }
        },
        (ConfigPhase::PowerParse { watts }, ConfigEvent::ParseFailed(cause)) => fails(
            next,
            action,
            about("Failed to parse config '"@, "Default"@, "': "@) + cause@,
        ),
        _ => false,
    }
}

impl<S> ConfigAction<S> {
    /// The file that an action is about.
    pub open spec fn file(self) -> Option<Seq<char>> {
        match self {
            ConfigAction::CheckFile(file) => Some(file@),
            ConfigAction::ReadFile(file) => Some(file@),
            ConfigAction::WriteFile { file, .. } => Some(file@),
            ConfigAction::RemoveFile(file) => Some(file@),
            _ => None,
        }
    }
}

proof fn lemma_default_file_stays_inside()
    ensures
        stays_inside(file_of("Default"@)),
{
    reveal_strlit("Default");
    reveal_strlit(".json");
    let file = file_of("Default"@);
    assert(file =~= seq!['D', 'e', 'f', 'a', 'u', 'l', 't', '.', 'j', 's', 'o', 'n']);
    assert forall|i: int| 0 <= i < file.len() - 1 implies !(#[trigger] file[i] == '.' && file[i + 1]
        == '.') by {
        assert(i != 7 ==> file[i] != '.');
    }
}

fn file_for(name: &ProfileName) -> (file: String)
    ensures
        file@ == file_of(name@),
        stays_inside(file@),
        name@ != "Default"@ ==> file@ != file_of("Default"@),
{
    let text: &str = name.as_str();
    proof {
        clean_name_stays_inside(text@);
        if file_of(text@) == file_of("Default"@) {
            files_tell_names_apart(text@, "Default"@);
        }
    }
    config_file_name(text)
}

fn fail<S>(text: String) -> (r: (ConfigPhase<S>, ConfigAction<S>))
    ensures
        fails(r.0, r.1, text@),
{
    (ConfigPhase::Finished, ConfigAction::Finish(Err(text)))
}

fn fail_because<S>(text: &str, cause: &str) -> (r: (ConfigPhase<S>, ConfigAction<S>))
    ensures
        fails(r.0, r.1, text@ + cause@),
{
    let mut shown: String = text.to_owned();
    shown.append(cause);
    fail(shown)
}

fn fail_about<S>(before: &str, name: &str, after: &str, cause: &str) -> (r: (
    ConfigPhase<S>,
    ConfigAction<S>,
))
    ensures
        fails(r.0, r.1, about(before@, name@, after@) + cause@),
{
    let mut shown: String = join3(before, name, after);
    shown.append(cause);
    fail(shown)
}

fn succeed<S>(outcome: ConfigOutcome<S>) -> (r: (ConfigPhase<S>, ConfigAction<S>))
    ensures
        succeeds(r.0, r.1, outcome),
{
    (ConfigPhase::Finished, ConfigAction::Finish(Ok(outcome)))
}

/// Begin to save a profile.
pub fn save_configuration<S>(config: Configuration<S>) -> (r: (ConfigPhase<S>, ConfigAction<S>))
    ensures
        save_begins(config, r.0, r.1),
        r.0.wf(),
{
    match ProfileName::new(config.name.as_str()) {
        Ok(name) => (ConfigPhase::SaveDir { config, name }, ConfigAction::OpenDir),
        Err(text) => fail(text),
    }
}

/// Begin to load a profile.
pub fn load_configuration<S>(name: &str) -> (r: (ConfigPhase<S>, ConfigAction<S>))
    ensures
        load_begins(name@, r.0, r.1),
        r.0.wf(),
{
    match ProfileName::new(name) {
        Ok(name) => (ConfigPhase::LoadDir { name }, ConfigAction::OpenDir),
        Err(text) => fail(text),
    }
}

/// Begin to list the profiles.
pub fn list_configurations<S>() -> (r: (ConfigPhase<S>, ConfigAction<S>))
    ensures
        r == (ConfigPhase::<S>::ListDir, ConfigAction::<S>::OpenDir),
        r.0.wf(),
{
    (ConfigPhase::ListDir, ConfigAction::OpenDir)
}

/// Begin to delete a profile. The default profile stays.
pub fn delete_configuration<S>(name: &str) -> (r: (ConfigPhase<S>, ConfigAction<S>))
    ensures
        delete_begins(name@, r.0, r.1),
        r.0.wf(),
{
    match ProfileName::new(name) {
        Ok(name) => {
            if same_text(name.as_str(), "Default") {
                return fail("Cannot delete the Default configuration".to_owned());
            }
            (ConfigPhase::DeleteDir { name }, ConfigAction::OpenDir)
        },
        Err(text) => fail(text),
    }
}

/// Check a transmit power: from 0 to 100 W.
pub fn validate_tx_power(watts: u32) -> (r: Result<(), String>)
    ensures
        r is Ok <==> watts <= MAX_TX_POWER_WATTS,
        r matches Err(text) ==> text@ == about(
            "TX power "@,
            decimal(watts as nat),
            " W exceeds maximum (100 W)"@,
        ),
{
    if watts > MAX_TX_POWER_WATTS {
        return Err(
            join3("TX power ", decimal_text(watts).as_str(), " W exceeds maximum (100 W)"),
        );
    }
    Ok(())
}

/// Begin to change the transmit power. The running settings change at once, so that the
/// next transmission uses the new power; the radio and the default profile follow.
pub fn set_tx_power_config<S>(modem: &mut Guarded<ModemConfig>, watts: u32) -> (r: (
    ConfigPhase<S>,
    ConfigAction<S>,
))
    ensures
        power_begins(watts, *old(modem), *final(modem), r.0, r.1),
        r.0.wf(),
{
    match validate_tx_power(watts) {
        Err(text) => fail(text),
        Ok(()) => {
            if modem.poisoned {
                return fail("config lock poisoned".to_owned());
            }
            modem.value.tx_power_watts = watts;
            (ConfigPhase::PowerSend { watts }, ConfigAction::SendTxPower(watts))
        },
    }
}

/// Tell a connected radio the new transmit power.
pub fn send_tx_power<R: RadioControl>(link: &mut RadioLink<R>, watts: u32) -> (reply: RadioReply<
    R,
    (),
>)
    ensures
        one_request(
            *old(link),
            *final(link),
            reply,
            |r: Psk31Result<()>| RadioCall::SetTxPower(watts, r),
        ),
{
    with_radio(
        link,
        |radio: &mut R| -> (r: Psk31Result<()>)
            ensures
                request_made(*old(radio), *final(radio), RadioCall::SetTxPower(watts, r))
        {
            radio.set_tx_power(watts)
        },
    )
}

/// Take the next step of a command.
pub fn config_step<S>(phase: ConfigPhase<S>, event: ConfigEvent<S>) -> (r: (
    ConfigPhase<S>,
    ConfigAction<S>,
))
    requires
        phase.wf(),
        phase.expects(event),
    ensures
        config_steps(phase, event, r.0, r.1),
        r.0.wf(),
        r.1.file() matches Some(file) ==> stays_inside(file),
        r.1 matches ConfigAction::RemoveFile(file) ==> file@ != file_of("Default"@),
{
    proof {
        lemma_default_file_stays_inside();
    }
    match (phase, event) {
        (_, ConfigEvent::DataDirFailed(cause)) => fail_because(
            "Failed to get app data dir: ",
            cause.as_str(),
        ),
        (_, ConfigEvent::CreateDirFailed(cause)) => fail_because(
            "Failed to create configs dir: ",
            cause.as_str(),
        ),
        (ConfigPhase::SaveDir { config, name }, _) => {
            let file: String = file_for(&name);
            (ConfigPhase::SaveWrite, ConfigAction::WriteFile { file, config })
        },
        (ConfigPhase::SaveWrite, ConfigEvent::SerializeFailed(cause)) => fail_because(
            "Serialization error: ",
            cause.as_str(),
        ),
        (ConfigPhase::SaveWrite, ConfigEvent::WriteFailed(cause)) => fail_because(
            "Failed to write config: ",
            cause.as_str(),
        ),
        (ConfigPhase::SaveWrite, _) => succeed(ConfigOutcome::Done),
        (ConfigPhase::LoadDir { name }, _) => {
            let file: String = file_for(&name);
            (ConfigPhase::LoadRead { name }, ConfigAction::ReadFile(file))
        },
        (ConfigPhase::LoadRead { name }, ConfigEvent::ReadFailed(cause)) => fail_about(
            "Failed to read config '",
            name.as_str(),
            "': ",
            cause.as_str(),
        ),
        (ConfigPhase::LoadRead { name }, _) => (
            ConfigPhase::LoadParse { name },
            ConfigAction::Parse,
        ),
        (ConfigPhase::LoadParse { name: _ }, ConfigEvent::Parsed(config)) => succeed(
            ConfigOutcome::Loaded(config),
        ),
        (ConfigPhase::LoadParse { name }, ConfigEvent::ParseFailed(cause)) => fail_about(
            "Failed to parse config '",
            name.as_str(),
            "': ",
            cause.as_str(),
        ),
        (ConfigPhase::ListDir, _) => (ConfigPhase::ListRead, ConfigAction::ListFiles),
        (ConfigPhase::ListRead, ConfigEvent::ListFailed(cause)) => fail_because(
            "Failed to read configs dir: ",
            cause.as_str(),
        ),
        (ConfigPhase::ListRead, ConfigEvent::Files(files)) => succeed(
            ConfigOutcome::Names(profile_names(&files)),
        ),
        (ConfigPhase::DeleteDir { name }, _) => {
            let file: String = file_for(&name);
            (ConfigPhase::DeleteCheck { name }, ConfigAction::CheckFile(file))
        },
        (ConfigPhase::DeleteCheck { name }, ConfigEvent::Checked(found)) => {
            if found {
                let file: String = file_for(&name);
                (ConfigPhase::DeleteRemove { name }, ConfigAction::RemoveFile(file))
            } else {
                fail(join3("Configuration '", name.as_str(), "' not found"))
            }
        },
        (ConfigPhase::DeleteRemove { name }, ConfigEvent::RemoveFailed(cause)) => fail_about(
            "Failed to delete config '",
            name.as_str(),
            "': ",
            cause.as_str(),
        ),
        (ConfigPhase::DeleteRemove { name: _ }, _) => succeed(ConfigOutcome::Done),
        (ConfigPhase::PowerSend { watts }, _) => (
            ConfigPhase::PowerDir { watts },
            ConfigAction::OpenDir,
        ),
        (ConfigPhase::PowerDir { watts }, _) => (
            ConfigPhase::PowerCheck { watts },
            ConfigAction::CheckFile(config_file_name("Default")),
        ),
        (ConfigPhase::PowerCheck { watts }, ConfigEvent::Checked(found)) => {
            if found {
                (
                    ConfigPhase::PowerRead { watts },
                    ConfigAction::ReadFile(config_file_name("Default")),
                )
            } else {
                succeed(ConfigOutcome::Done)
            }
        },
        (ConfigPhase::PowerRead { watts: _ }, ConfigEvent::ReadFailed(cause)) => fail_about(
            "Failed to read config '",
            "Default",
            "': ",
            cause.as_str(),
        ),
        (ConfigPhase::PowerRead { watts }, _) => (
            ConfigPhase::PowerParse { watts },
            ConfigAction::Parse,
        ),
        (ConfigPhase::PowerParse { watts }, ConfigEvent::Parsed(config)) => (
            ConfigPhase::SaveWrite,
            ConfigAction::WriteFile {
                file: config_file_name("Default"),
                config: Configuration { tx_power_watts: watts, ..config },
            },
        ),
        (ConfigPhase::PowerParse { watts: _ }, ConfigEvent::ParseFailed(cause)) => fail_about(
            "Failed to parse config '",
            "Default",
            "': ",
            cause.as_str(),
        ),
        _ => {
            assert(false);
            fail(String::new())
        },
    }
}

/// What was saved is what is loaded: loading under any spelling of a name that sanitizes
/// to the name of the saved profile reads the file that saving wrote.
pub proof fn load_reads_what_save_wrote<S>(
    config: Configuration<S>,
    name: Seq<char>,
    saving: (ConfigPhase<S>, ConfigAction<S>),
    saved: (ConfigPhase<S>, ConfigAction<S>),
    loading: (ConfigPhase<S>, ConfigAction<S>),
    loaded: (ConfigPhase<S>, ConfigAction<S>),
)
    requires
        sanitized(name) is Ok,
        sanitized(name) == sanitized(config.name@),
        save_begins(config, saving.0, saving.1),
        config_steps(saving.0, ConfigEvent::DirReady, saved.0, saved.1),
        load_begins(name, loading.0, loading.1),
        config_steps(loading.0, ConfigEvent::DirReady, loaded.0, loaded.1),
    ensures
        saved.1 is WriteFile,
        saved.1->config == config,
        loaded.1 is ReadFile,
        loaded.1.file() == saved.1.file(),
{
}

/// A change of the transmit power survives a restart and changes nothing else: the profile
/// goes back to the file that it was read from, with the new power and everything else as
/// it was.
pub proof fn power_change_keeps_the_profile<S>(
    watts: u32,
    profile: Configuration<S>,
    reading: (ConfigPhase<S>, ConfigAction<S>),
    saved: (ConfigPhase<S>, ConfigAction<S>),
)
    requires
        config_steps(
            (ConfigPhase::PowerCheck { watts }),
            ConfigEvent::Checked(true),
            reading.0,
            reading.1,
        ),
        config_steps(
            (ConfigPhase::PowerParse { watts }),
            ConfigEvent::Parsed(profile),
            saved.0,
            saved.1,
        ),
    ensures
        saved.1 is WriteFile,
        saved.1->config == (Configuration { tx_power_watts: watts, ..profile }),
        saved.1.file() == reading.1.file(),
        saved.1.file() == Some(file_of("Default"@)),
{
}

/// An accepted power is used by the very next transmission, and a refused one by none: the
/// settings that a start reads hold it, and the radio is prepared with it.
pub proof fn accepted_power_is_used<S, H>(
    watts: u32,
    before: Guarded<ModemConfig>,
    after: Guarded<ModemConfig>,
    began: (ConfigPhase<S>, ConfigAction<S>),
    my_gen: u64,
    samples: usize,
    slot: TxControl<H>,
    encoding: (StartPhase, StartAction<H>),
    preparing: (StartPhase, StartAction<H>),
)
    requires
        power_begins(watts, before, after, began.0, began.1),
        samples > 0,
        start_steps(
            (StartPhase::AwaitConfig { kind: StartKind::Transmit, my_gen }),
            StartEvent::Config(after.value),
            slot,
            slot,
            encoding.0,
            encoding.1,
        ),
        start_steps(
            encoding.0,
            StartEvent::Encoded(samples),
            slot,
            slot,
            preparing.0,
            preparing.1,
        ),
    ensures
        watts <= MAX_TX_POWER_WATTS && !before.poisoned ==> preparing.1
            == StartAction::<H>::PrepareRadio(watts),
        watts > MAX_TX_POWER_WATTS ==> preparing.1 == StartAction::<H>::PrepareRadio(
            before.value.tx_power_watts,
        ),
{
}

} // verus!
