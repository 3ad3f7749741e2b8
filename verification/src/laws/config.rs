//! Commands on configuration profiles.
//!
//! A command is a run of steps: it begins with the call of the user interface, and every
//! further step answers one event.

use crate::commands::config::{
    config_step, delete_configuration, list_configurations, load_configuration, save_configuration,
    set_tx_power_config, validate_tx_power, ConfigAction, ConfigEvent, ConfigOutcome, ConfigPhase,
};
use crate::commands::config_name::sanitized;
use crate::domain::types::{Configuration, ModemConfig};
use crate::laws::names::{blank, lemma_sanitized, sanitizes_to, tight};
use crate::laws::profiles::{lemma_list, lists_profiles};
use crate::state::Guarded;
use crate::text::decimal_text;
use vstd::prelude::*;

verus! {

/// Powers of up to 100 W are accepted and no others. The text of a refusal gives the power
/// in decimal.
pub proof fn powers_up_to_the_limit(watts: u32, r: Result<(), String>, shown: String)
    requires
        call_ensures(validate_tx_power, (watts,), r),
        call_ensures(decimal_text, (watts,), shown),
    ensures
        r is Ok <==> watts <= 100,
        r is Err ==> r->Err_0@ == "TX power "@ + shown@ + " W exceeds maximum (100 W)"@,
{
}

/// A change of the power that is accepted is in the running settings at once, and nothing
/// else in them changes; it is sent to the radio next. One that is refused changes nothing
/// and says why: the power is too high, or else the lock is poisoned.
pub proof fn accepted_power_is_in_the_settings<S>(watts: u32, shown: String)
    requires
        call_ensures(decimal_text, (watts,), shown),
    ensures
        forall|modem: &mut Guarded<ModemConfig>, r: (ConfigPhase<S>, ConfigAction<S>)| #[trigger]
            call_ensures(set_tx_power_config::<S>, (modem, watts), r) ==> {
                let before = *modem;
                let after = *final(modem);
                &&& after.poisoned == before.poisoned
                &&& after.value.carrier_freq == before.value.carrier_freq
                &&& after.value.sample_rate == before.value.sample_rate
                &&& watts <= 100 && !before.poisoned ==> {
                    &&& after.value.tx_power_watts == watts
                    &&& r.0 is PowerSend
                    &&& r.0->PowerSend_watts == watts
                    &&& r.1 is SendTxPower
                    &&& r.1->SendTxPower_0 == watts
                }
                &&& watts > 100 ==> fails_with(
                    r,
                    "TX power "@ + shown@ + " W exceeds maximum (100 W)"@,
                )
                &&& watts <= 100 && before.poisoned ==> fails_with(r, "config lock poisoned"@)
                &&& watts > 100 || before.poisoned ==> after.value.tx_power_watts
                    == before.value.tx_power_watts
            },
{
}

/// The command has ended with this failure.
pub open spec fn fails_with<S>(r: (ConfigPhase<S>, ConfigAction<S>), text: Seq<char>) -> bool {
    &&& r.0 is Finished
    &&& r.1 is Finish
    &&& r.1->Finish_0 is Err
    &&& r.1->Finish_0->Err_0@ == text
}

/// The command has ended well, with this outcome.
pub open spec fn ends_well<S>(r: (ConfigPhase<S>, ConfigAction<S>), outcome: ConfigOutcome<S>) -> bool {
    &&& r.0 is Finished
    &&& r.1 is Finish
    &&& r.1->Finish_0 is Ok
    &&& r.1->Finish_0->Ok_0 == outcome
}

/// The steps that follow each other on these events.
pub open spec fn is_run<S>(
    run: Seq<(ConfigPhase<S>, ConfigAction<S>)>,
    events: Seq<ConfigEvent<S>>,
) -> bool {
    &&& run.len() == events.len() + 1
    &&& forall|i: int|
        0 <= i < events.len() ==> call_ensures(
            config_step::<S>,
            (run[i].0, #[trigger] events[i]),
            run[i + 1],
        )
}

/// The file that an action reads, writes, looks for or removes.
pub open spec fn touches<S>(action: ConfigAction<S>, file: Seq<char>) -> bool {
    match action {
        ConfigAction::CheckFile(f) => f@ == file,
        ConfigAction::ReadFile(f) => f@ == file,
        ConfigAction::WriteFile { file: f, .. } => f@ == file,
        ConfigAction::RemoveFile(f) => f@ == file,
        _ => true,
    }
}

// ---------------------------------------------------------------------------
// Transmit power
// ---------------------------------------------------------------------------

/// The phase belongs to a change of the power to `watts`.
spec fn changes_power<S>(phase: ConfigPhase<S>, watts: u32) -> bool {
    match phase {
        ConfigPhase::PowerSend { watts: w } => w == watts,
        ConfigPhase::PowerDir { watts: w } => w == watts,
        ConfigPhase::PowerCheck { watts: w } => w == watts,
        ConfigPhase::PowerRead { watts: w } => w == watts,
        ConfigPhase::PowerParse { watts: w } => w == watts,
        ConfigPhase::SaveWrite => true,
        ConfigPhase::Finished => true,
        _ => false,
    }
}

/// Over a whole change of the power, whatever happens: the power that was asked for is the
/// one that every step carries and that is sent to the radio; no file but `Default.json` is
/// touched, and none is removed; and what is written is what was read just before, with that
/// power and nothing else changed.
pub proof fn power_change_writes_the_power<S>(
    watts: u32,
    run: Seq<(ConfigPhase<S>, ConfigAction<S>)>,
    events: Seq<ConfigEvent<S>>,
    k: int,
)
    requires
        is_run(run, events),
        exists|modem: &mut Guarded<ModemConfig>| #[trigger]
            call_ensures(set_tx_power_config::<S>, (modem, watts), run[0]),
        0 <= k < run.len(),
    ensures
        run[k].0 is PowerSend ==> run[k].0->PowerSend_watts == watts,
        run[k].0 is PowerDir ==> run[k].0->PowerDir_watts == watts,
        run[k].0 is PowerCheck ==> run[k].0->PowerCheck_watts == watts,
        run[k].0 is PowerRead ==> run[k].0->PowerRead_watts == watts,
        run[k].0 is PowerParse ==> run[k].0->PowerParse_watts == watts,
        run[k].1 is SendTxPower ==> run[k].1->SendTxPower_0 == watts && watts <= 100,
        touches(run[k].1, "Default.json"@),
        !(run[k].1 is RemoveFile),
        run[k].1 is WriteFile ==> {
            &&& k > 0
            &&& events[k - 1] is Parsed
            &&& run[k].1->config.tx_power_watts == watts
            &&& run[k].1->config.name == events[k - 1]->Parsed_0.name
            &&& run[k].1->config.settings == events[k - 1]->Parsed_0.settings
        },
{
    lemma_default_file();
    lemma_power_run(watts, run, events, k);
}

proof fn lemma_default_file()
    ensures
        "Default"@ + ".json"@ == "Default.json"@,
{
    reveal_strlit("Default");
    reveal_strlit(".json");
    reveal_strlit("Default.json");
    assert("Default"@ + ".json"@ =~= "Default.json"@);
}

proof fn lemma_power_run<S>(
    watts: u32,
    run: Seq<(ConfigPhase<S>, ConfigAction<S>)>,
    events: Seq<ConfigEvent<S>>,
    k: int,
)
    requires
        is_run(run, events),
        exists|modem: &mut Guarded<ModemConfig>| #[trigger]
            call_ensures(set_tx_power_config::<S>, (modem, watts), run[0]),
        0 <= k < run.len(),
    ensures
        changes_power(run[k].0, watts),
        run[k].1 is SendTxPower ==> run[k].1->SendTxPower_0 == watts && watts <= 100,
        touches(run[k].1, "Default.json"@),
        !(run[k].1 is RemoveFile),
        run[k].1 is WriteFile ==> {
            &&& k > 0
            &&& events[k - 1] is Parsed
            &&& run[k].1->config == (Configuration {
                tx_power_watts: watts,
                ..events[k - 1]->Parsed_0
            })
        },
    decreases k,
{
    lemma_default_file();
    if k > 0 {
        let first = choose|modem: &mut Guarded<ModemConfig>| #[trigger]
            call_ensures(set_tx_power_config::<S>, (modem, watts), run[0]);
        assert(call_ensures(set_tx_power_config::<S>, (first, watts), run[0]));
        lemma_power_run(watts, run, events, k - 1);
        assert(call_ensures(config_step::<S>, (run[k - 1].0, events[k - 1]), run[k - 1 + 1]));
    }
}

/// How a change of the power goes on: the directory is asked for, then the stored profile
/// is looked for, and where there is none the change is done; otherwise it is read, parsed
/// and written. Failures name the profile and the cause.
pub proof fn power_change_goes_on<S>(
    phase: ConfigPhase<S>,
    event: ConfigEvent<S>,
    r: (ConfigPhase<S>, ConfigAction<S>),
)
    requires
        call_ensures(config_step::<S>, (phase, event), r),
    ensures
        phase is PowerSend && event is PowerSent ==> r.0 is PowerDir && r.1 is OpenDir,
        phase is PowerDir && event is DirReady ==> r.0 is PowerCheck && r.1 is CheckFile,
        phase is PowerCheck && event == ConfigEvent::<S>::Checked(true) ==> r.0 is PowerRead
            && r.1 is ReadFile,
        phase is PowerCheck && event == ConfigEvent::<S>::Checked(false) ==> ends_well(
            r,
            ConfigOutcome::Done,
        ),
        phase is PowerRead && event is FileRead ==> r.0 is PowerParse && r.1 is Parse,
        phase is PowerParse && event is Parsed ==> r.0 is SaveWrite && r.1 is WriteFile,
        phase is PowerRead && event is ReadFailed ==> fails_with(
            r,
            "Failed to read config 'Default': "@ + event->ReadFailed_0@,
        ),
        phase is PowerParse && event is ParseFailed ==> fails_with(
            r,
            "Failed to parse config 'Default': "@ + event->ParseFailed_0@,
        ),
        phase is PowerDir ==> directory_failures(event, r),
{
    reveal_strlit("Default");
    reveal_strlit("': ");
    reveal_strlit("Failed to read config '");
    reveal_strlit("Failed to read config 'Default': ");
    reveal_strlit("Failed to parse config '");
    reveal_strlit("Failed to parse config 'Default': ");
    assert("Failed to read config '"@ + "Default"@ + "': "@
        =~= "Failed to read config 'Default': "@);
    assert("Failed to parse config '"@ + "Default"@ + "': "@
        =~= "Failed to parse config 'Default': "@);
}

/// A command that cannot have its directory ends with the cause.
pub open spec fn directory_failures<S>(
    event: ConfigEvent<S>,
    r: (ConfigPhase<S>, ConfigAction<S>),
) -> bool {
    &&& event is DataDirFailed ==> fails_with(
        r,
        "Failed to get app data dir: "@ + event->DataDirFailed_0@,
    )
    &&& event is CreateDirFailed ==> fails_with(
        r,
        "Failed to create configs dir: "@ + event->CreateDirFailed_0@,
    )
}

// ---------------------------------------------------------------------------
// Save
// ---------------------------------------------------------------------------

/// Saving begins if the name of the profile is one, and otherwise ends with what is wrong
/// with it. Over the whole command, whatever happens: what is written is the profile as it
/// was given, once, to the file of its name, and no other file is touched.
pub proof fn saving_writes_the_profile<S>(
    config: Configuration<S>,
    before: Seq<char>,
    kept: Seq<char>,
    after: Seq<char>,
    run: Seq<(ConfigPhase<S>, ConfigAction<S>)>,
    events: Seq<ConfigEvent<S>>,
    k: int,
)
    requires
        is_run(run, events),
        call_ensures(save_configuration::<S>, (config,), run[0]),
        config.name@ == before + kept + after,
        blank(before),
        blank(after),
        tight(kept),
        0 <= k < run.len(),
    ensures
        run[0].1 is OpenDir || run[0].1 is Finish,
        run[0].1 is Finish ==> run[0].0 is Finished && run[0].1->Finish_0 is Err && sanitizes_to(
            kept,
            Err(run[0].1->Finish_0->Err_0@),
        ),
        run[0].1 is OpenDir ==> run[0].0 is SaveDir && sanitizes_to(kept, Ok(kept)),
        touches(run[k].1, kept + ".json"@),
        !(run[k].1 is RemoveFile),
        !(run[k].1 is ReadFile),
        run[k].1 is WriteFile ==> run[k].1->config == config && k == 1,
        run[k].1 is Finish && run[k].1->Finish_0 is Ok ==> k > 0 && run[k].1->Finish_0->Ok_0 is Done
            && run[k - 1].0 is SaveWrite,
{
    lemma_sanitizes_to(before, kept, after);
    lemma_save_run(config, kept, run, events, k);
    if k > 0 {
        lemma_save_run(config, kept, run, events, k - 1);
    }
}

/// Sanitizing in the words of the contracts.
proof fn lemma_sanitizes_to(before: Seq<char>, kept: Seq<char>, after: Seq<char>)
    requires
        blank(before),
        blank(after),
        tight(kept),
    ensures
        sanitizes_to(
            kept,
            match sanitized(before + kept + after) {
                Ok(clean) => Ok(clean),
                Err(error) => Err(crate::commands::config_name::name_error_text(error)),
            },
        ),
        sanitized(before + kept + after) is Ok ==> sanitized(before + kept + after)->Ok_0 == kept
            && sanitizes_to(kept, Ok(kept)),
{
    lemma_sanitized(before, kept, after);
}

proof fn lemma_save_run<S>(
    config: Configuration<S>,
    kept: Seq<char>,
    run: Seq<(ConfigPhase<S>, ConfigAction<S>)>,
    events: Seq<ConfigEvent<S>>,
    k: int,
)
    requires
        is_run(run, events),
        call_ensures(save_configuration::<S>, (config,), run[0]),
        sanitized(config.name@) is Ok ==> sanitized(config.name@)->Ok_0 == kept,
        0 <= k < run.len(),
    ensures
        k == 0 ==> run[k].0 is SaveDir || run[k].0 is Finished,
        run[k].0 is SaveDir ==> k == 0 && run[k].0->SaveDir_config == config
            && run[k].0->SaveDir_name@ == kept,
        run[k].0 is SaveDir || run[k].0 is SaveWrite || run[k].0 is Finished,
        touches(run[k].1, kept + ".json"@),
        !(run[k].1 is RemoveFile),
        !(run[k].1 is ReadFile),
        run[k].1 is WriteFile ==> run[k].1->config == config && k == 1,
        run[k].1 is Finish && run[k].1->Finish_0 is Ok ==> k > 0 && run[k].1->Finish_0->Ok_0 is Done
            && run[k - 1].0 is SaveWrite,
    decreases k,
{
    if k > 0 {
        lemma_save_run(config, kept, run, events, k - 1);
        assert(call_ensures(config_step::<S>, (run[k - 1].0, events[k - 1]), run[k - 1 + 1]));
    }
}

/// How saving goes on: with the directory there, the profile is written, and then it is
/// done. Failures name the cause.
pub proof fn saving_goes_on<S>(
    phase: ConfigPhase<S>,
    event: ConfigEvent<S>,
    r: (ConfigPhase<S>, ConfigAction<S>),
)
    requires
        call_ensures(config_step::<S>, (phase, event), r),
    ensures
        phase is SaveDir && event is DirReady ==> r.0 is SaveWrite && r.1 is WriteFile,
        phase is SaveWrite && event is Written ==> ends_well(r, ConfigOutcome::Done),
        phase is SaveWrite && event is SerializeFailed ==> fails_with(
            r,
            "Serialization error: "@ + event->SerializeFailed_0@,
        ),
        phase is SaveWrite && event is WriteFailed ==> fails_with(
            r,
            "Failed to write config: "@ + event->WriteFailed_0@,
        ),
        phase is SaveDir ==> directory_failures(event, r),
{
}

// ---------------------------------------------------------------------------
// Load
// ---------------------------------------------------------------------------

/// Loading begins if the name is one, and otherwise ends with what is wrong with it. Over
/// the whole command, whatever happens: every step is about that name, its file is read and
/// none is touched otherwise; and what comes out is what was parsed, as it was.
pub proof fn loading_reads_the_profile<S>(
    name: &str,
    before: Seq<char>,
    kept: Seq<char>,
    after: Seq<char>,
    run: Seq<(ConfigPhase<S>, ConfigAction<S>)>,
    events: Seq<ConfigEvent<S>>,
    k: int,
)
    requires
        is_run(run, events),
        call_ensures(load_configuration::<S>, (name,), run[0]),
        name@ == before + kept + after,
        blank(before),
        blank(after),
        tight(kept),
        0 <= k < run.len(),
    ensures
        run[0].1 is OpenDir || run[0].1 is Finish,
        run[0].1 is Finish ==> run[0].0 is Finished && run[0].1->Finish_0 is Err && sanitizes_to(
            kept,
            Err(run[0].1->Finish_0->Err_0@),
        ),
        run[0].1 is OpenDir ==> run[0].0 is LoadDir && sanitizes_to(kept, Ok(kept)),
        run[k].0 is LoadDir ==> run[k].0->LoadDir_name@ == kept,
        run[k].0 is LoadRead ==> run[k].0->LoadRead_name@ == kept,
        run[k].0 is LoadParse ==> run[k].0->LoadParse_name@ == kept,
        touches(run[k].1, kept + ".json"@),
        !(run[k].1 is RemoveFile),
        !(run[k].1 is WriteFile),
        run[k].1 is Finish && run[k].1->Finish_0 is Ok ==> k > 0 && events[k - 1] is Parsed
            && run[k].1->Finish_0->Ok_0 == ConfigOutcome::Loaded(events[k - 1]->Parsed_0),
{
    lemma_sanitizes_to(before, kept, after);
    lemma_load_run(name, kept, run, events, k);
}

proof fn lemma_load_run<S>(
    name: &str,
    kept: Seq<char>,
    run: Seq<(ConfigPhase<S>, ConfigAction<S>)>,
    events: Seq<ConfigEvent<S>>,
    k: int,
)
    requires
        is_run(run, events),
        call_ensures(load_configuration::<S>, (name,), run[0]),
        sanitized(name@) is Ok ==> sanitized(name@)->Ok_0 == kept,
        0 <= k < run.len(),
    ensures
        run[k].0 is LoadDir ==> run[k].0->LoadDir_name@ == kept,
        run[k].0 is LoadRead ==> run[k].0->LoadRead_name@ == kept,
        run[k].0 is LoadParse ==> run[k].0->LoadParse_name@ == kept,
        run[k].0 is LoadDir || run[k].0 is LoadRead || run[k].0 is LoadParse
            || run[k].0 is Finished,
        touches(run[k].1, kept + ".json"@),
        !(run[k].1 is RemoveFile),
        !(run[k].1 is WriteFile),
        run[k].1 is Finish && run[k].1->Finish_0 is Ok ==> k > 0 && events[k - 1] is Parsed
            && run[k].1->Finish_0->Ok_0 == ConfigOutcome::Loaded(events[k - 1]->Parsed_0),
    decreases k,
{
    if k > 0 {
        lemma_load_run(name, kept, run, events, k - 1);
        assert(call_ensures(config_step::<S>, (run[k - 1].0, events[k - 1]), run[k - 1 + 1]));
    }
}

/// How loading goes on: the file is read, parsed and handed out. Failures name the profile
/// and the cause.
pub proof fn loading_goes_on<S>(
    phase: ConfigPhase<S>,
    event: ConfigEvent<S>,
    r: (ConfigPhase<S>, ConfigAction<S>),
)
    requires
        call_ensures(config_step::<S>, (phase, event), r),
    ensures
        phase is LoadDir && event is DirReady ==> r.0 is LoadRead && r.1 is ReadFile,
        phase is LoadRead && event is FileRead ==> r.0 is LoadParse && r.1 is Parse,
        phase is LoadParse && event is Parsed ==> ends_well(
            r,
            ConfigOutcome::Loaded(event->Parsed_0),
        ),
        phase is LoadRead && event is ReadFailed ==> fails_with(
            r,
            "Failed to read config '"@ + phase->LoadRead_name@ + "': "@ + event->ReadFailed_0@,
        ),
        phase is LoadParse && event is ParseFailed ==> fails_with(
            r,
            "Failed to parse config '"@ + phase->LoadParse_name@ + "': "@ + event->ParseFailed_0@,
        ),
        phase is LoadDir ==> directory_failures(event, r),
{
}

/// What was saved is what is loaded: if a profile was written to a file and the name that it
/// is loaded by is the same but for white space around it, that very file is read.
pub proof fn loading_finds_what_was_saved<S>(
    config: Configuration<S>,
    name: &str,
    margins: (Seq<char>, Seq<char>, Seq<char>, Seq<char>),
    kept: Seq<char>,
    saving: (ConfigPhase<S>, ConfigAction<S>),
    saved: (ConfigPhase<S>, ConfigAction<S>),
    loading: (ConfigPhase<S>, ConfigAction<S>),
    loaded: (ConfigPhase<S>, ConfigAction<S>),
)
    requires
        config.name@ == margins.0 + kept + margins.1,
        name@ == margins.2 + kept + margins.3,
        blank(margins.0) && blank(margins.1) && blank(margins.2) && blank(margins.3),
        tight(kept),
        call_ensures(save_configuration::<S>, (config,), saving),
        call_ensures(config_step::<S>, (saving.0, ConfigEvent::DirReady), saved),
        call_ensures(load_configuration::<S>, (name,), loading),
        call_ensures(config_step::<S>, (loading.0, ConfigEvent::DirReady), loaded),
        saving.1 is OpenDir,
    ensures
        saved.1 is WriteFile,
        loaded.1 is ReadFile,
        loaded.1->ReadFile_0@ == saved.1->WriteFile_file@,
        saved.1->config == config,
{
    lemma_sanitizes_to(margins.0, kept, margins.1);
    lemma_sanitizes_to(margins.2, kept, margins.3);
    lemma_sanitized(margins.0, kept, margins.1);
    lemma_sanitized(margins.2, kept, margins.3);
}

// ---------------------------------------------------------------------------
// List
// ---------------------------------------------------------------------------

/// Over the whole command no file is touched, and what comes out are the names of the
/// profiles in the directory, in order.
pub proof fn listing_lists_the_profiles<S>(
    run: Seq<(ConfigPhase<S>, ConfigAction<S>)>,
    events: Seq<ConfigEvent<S>>,
    k: int,
)
    requires
        is_run(run, events),
        call_ensures(list_configurations::<S>, (), run[0]),
        0 <= k < run.len(),
    ensures
        run[0].0 is ListDir && run[0].1 is OpenDir,
        run[k].1 is OpenDir || run[k].1 is ListFiles || run[k].1 is Finish,
        run[k].1 is Finish && run[k].1->Finish_0 is Ok ==> {
            &&& k > 0
            &&& events[k - 1] is Files
            &&& run[k].1->Finish_0->Ok_0 is Names
            &&& lists_profiles(events[k - 1]->Files_0@, run[k].1->Finish_0->Ok_0->Names_0@)
        },
{
    lemma_list_run(run, events, k);
}

proof fn lemma_list_run<S>(
    run: Seq<(ConfigPhase<S>, ConfigAction<S>)>,
    events: Seq<ConfigEvent<S>>,
    k: int,
)
    requires
        is_run(run, events),
        call_ensures(list_configurations::<S>, (), run[0]),
        0 <= k < run.len(),
    ensures
        run[k].0 is ListDir || run[k].0 is ListRead || run[k].0 is Finished,
        run[k].1 is OpenDir || run[k].1 is ListFiles || run[k].1 is Finish,
        run[k].1 is Finish && run[k].1->Finish_0 is Ok ==> {
            &&& k > 0
            &&& events[k - 1] is Files
            &&& run[k].1->Finish_0->Ok_0 is Names
            &&& lists_profiles(events[k - 1]->Files_0@, run[k].1->Finish_0->Ok_0->Names_0@)
        },
    decreases k,
{
    if k > 0 {
        lemma_list_run(run, events, k - 1);
        assert(call_ensures(config_step::<S>, (run[k - 1].0, events[k - 1]), run[k - 1 + 1]));
        if events[k - 1] is Files && run[k].1 is Finish && run[k].1->Finish_0 is Ok {
            lemma_list(events[k - 1]->Files_0@, run[k].1->Finish_0->Ok_0->Names_0@);
        }
    }
}

/// How listing goes on: the files of the directory are asked for, and then it is done.
/// Failures name the cause.
pub proof fn listing_goes_on<S>(
    phase: ConfigPhase<S>,
    event: ConfigEvent<S>,
    r: (ConfigPhase<S>, ConfigAction<S>),
)
    requires
        call_ensures(config_step::<S>, (phase, event), r),
    ensures
        phase is ListDir && event is DirReady ==> r.0 is ListRead && r.1 is ListFiles,
        phase is ListRead && event is Files ==> r.0 is Finished && r.1 is Finish
            && r.1->Finish_0 is Ok && r.1->Finish_0->Ok_0 is Names,
        phase is ListRead && event is ListFailed ==> fails_with(
            r,
            "Failed to read configs dir: "@ + event->ListFailed_0@,
        ),
        phase is ListDir ==> directory_failures(event, r),
{
}

// ---------------------------------------------------------------------------
// Delete
// ---------------------------------------------------------------------------

/// Deleting begins if the name is one and not the one of the default profile, and otherwise
/// ends with what is wrong with it. Over the whole command, whatever happens: every step is
/// about that name, no file but its own is touched, that one is not the default profile, and it is removed
/// only once it was found.
pub proof fn deleting_removes_the_profile<S>(
    name: &str,
    before: Seq<char>,
    kept: Seq<char>,
    after: Seq<char>,
    run: Seq<(ConfigPhase<S>, ConfigAction<S>)>,
    events: Seq<ConfigEvent<S>>,
    k: int,
)
    requires
        is_run(run, events),
        call_ensures(delete_configuration::<S>, (name,), run[0]),
        name@ == before + kept + after,
        blank(before),
        blank(after),
        tight(kept),
        0 <= k < run.len(),
    ensures
        run[0].1 is OpenDir || run[0].1 is Finish,
        run[0].1 is OpenDir ==> run[0].0 is DeleteDir && sanitizes_to(kept, Ok(kept)) && kept
            != "Default"@,
        run[0].1 is Finish ==> run[0].0 is Finished && run[0].1->Finish_0 is Err,
        run[k].0 is DeleteDir ==> run[k].0->DeleteDir_name@ == kept,
        run[k].0 is DeleteCheck ==> run[k].0->DeleteCheck_name@ == kept,
        run[k].0 is DeleteRemove ==> run[k].0->DeleteRemove_name@ == kept,
        run[0].1 is Finish && kept == "Default"@ && sanitizes_to(kept, Ok(kept))
            ==> run[0].1->Finish_0->Err_0@ == "Cannot delete the Default configuration"@,
        run[0].1 is Finish && !(kept == "Default"@ && sanitizes_to(kept, Ok(kept)))
            ==> sanitizes_to(kept, Err(run[0].1->Finish_0->Err_0@)),
        touches(run[k].1, kept + ".json"@),
        !(run[k].1 is ReadFile),
        !(run[k].1 is WriteFile),
        run[k].1 is RemoveFile ==> k > 0 && events[k - 1] == ConfigEvent::<S>::Checked(true)
            && kept != "Default"@,
        run[k].1 is Finish && run[k].1->Finish_0 is Ok ==> k > 0 && run[k].1->Finish_0->Ok_0 is Done
            && run[k - 1].0 is DeleteRemove,
{
    lemma_sanitizes_to(before, kept, after);
    lemma_delete_run(name, kept, run, events, k);
    if k > 0 {
        lemma_delete_run(name, kept, run, events, k - 1);
    }
}

proof fn lemma_delete_run<S>(
    name: &str,
    kept: Seq<char>,
    run: Seq<(ConfigPhase<S>, ConfigAction<S>)>,
    events: Seq<ConfigEvent<S>>,
    k: int,
)
    requires
        is_run(run, events),
        call_ensures(delete_configuration::<S>, (name,), run[0]),
        sanitized(name@) is Ok ==> sanitized(name@)->Ok_0 == kept,
        0 <= k < run.len(),
    ensures
        run[k].0 is DeleteDir ==> run[k].0->DeleteDir_name@ == kept && kept != "Default"@,
        run[k].0 is DeleteCheck ==> run[k].0->DeleteCheck_name@ == kept && kept != "Default"@,
        run[k].0 is DeleteRemove ==> run[k].0->DeleteRemove_name@ == kept && kept != "Default"@,
        run[k].0 is DeleteDir || run[k].0 is DeleteCheck || run[k].0 is DeleteRemove
            || run[k].0 is Finished,
        touches(run[k].1, kept + ".json"@),
        !(run[k].1 is ReadFile),
        !(run[k].1 is WriteFile),
        run[k].1 is RemoveFile ==> k > 0 && events[k - 1] == ConfigEvent::<S>::Checked(true)
            && kept != "Default"@,
        run[k].1 is Finish && run[k].1->Finish_0 is Ok ==> k > 0 && run[k].1->Finish_0->Ok_0 is Done
            && run[k - 1].0 is DeleteRemove,
    decreases k,
{
    if k > 0 {
        lemma_delete_run(name, kept, run, events, k - 1);
        assert(call_ensures(config_step::<S>, (run[k - 1].0, events[k - 1]), run[k - 1 + 1]));
    }
}

/// How deleting goes on: the file is looked for, removed if it is there, and then it is
/// done. Failures name the profile and the cause.
pub proof fn deleting_goes_on<S>(
    phase: ConfigPhase<S>,
    event: ConfigEvent<S>,
    r: (ConfigPhase<S>, ConfigAction<S>),
)
    requires
        call_ensures(config_step::<S>, (phase, event), r),
    ensures
        phase is DeleteDir && event is DirReady ==> r.0 is DeleteCheck && r.1 is CheckFile,
        phase is DeleteCheck && event == ConfigEvent::<S>::Checked(true) ==> r.0 is DeleteRemove
            && r.1 is RemoveFile,
        phase is DeleteCheck && event == ConfigEvent::<S>::Checked(false) ==> fails_with(
            r,
            "Configuration '"@ + phase->DeleteCheck_name@ + "' not found"@,
        ),
        phase is DeleteRemove && event is Removed ==> ends_well(r, ConfigOutcome::Done),
        phase is DeleteRemove && event is RemoveFailed ==> fails_with(
            r,
            "Failed to delete config '"@ + phase->DeleteRemove_name@ + "': "@
                + event->RemoveFailed_0@,
        ),
        phase is DeleteDir ==> directory_failures(event, r),
{
}

} // verus!
