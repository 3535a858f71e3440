//! Reading and saving settings, and small queries of the settings window.
//!
//! Saving the file and registering hotkeys is the host's.

use crate::commands::actions;
use crate::commands::actions::{acts, emit_text, nothing, Act, Action};
use crate::commands::error_history::{ErrorHistory, ErrorRecord};
use crate::config::presentation;
use crate::config::schema;
use crate::config::{ApiKeyMask, AppConfig, ConfigCache};
use crate::error;
use crate::error::{AppError, CommandError};
use crate::hotkey::windows;
use crate::hotkey::windows::HotkeySpec;
use crate::llm::LLMClient;
use crate::perf;
use crate::perf::{PerfHistory, PerfMetrics};
use crate::text;
use vstd::prelude::*;

verus! {

/// How long the registration of a hotkey may take, in seconds.
pub const REGISTRATION_TIMEOUT_SECS: u64 = 5;

/// Whether the program can be started with the system: in a release build always, in a debug build
/// where the environment variable says so.
pub fn is_autostart_available(debug_build: bool, variable: Option<&str>) -> (r: bool)
    ensures
        r == (!debug_build || (variable matches Some(v) && v@ == "1"@)),
{
    if debug_build {
        match variable {
            Some(v) => text::same_text(v, "1"),
            None => false,
        }
    } else {
        true
    }
}

/// The configuration as the settings window sees it: the API key is masked.
pub fn get_config(cache: &ConfigCache) -> (c: AppConfig)
    ensures
        c == (AppConfig { llm_api_key: c.llm_api_key, ..cache@ }),
        c.llm_api_key@ == presentation::masked(cache@.llm_api_key@),
{
    let cached = cache.read_cached();
    let mut config: AppConfig = (*cached).clone();
    config.llm_api_key = ApiKeyMask::mask(config.llm_api_key.as_str());
    config
}

/// Settings that are to be saved.
pub struct SettingsChange {
    pub config: AppConfig,
    /// The hotkeys before and after, where they differ.
    pub hotkey: Option<(HotkeySpec, HotkeySpec)>,
}

/// Take over submitted settings: they must be valid, and a masked API key stands for the saved one.
pub fn save_settings(cache: &ConfigCache, config: AppConfig) -> (r: Result<
    SettingsChange,
    CommandError,
>)
    ensures
        schema::config_fault(config) matches Some(fault) ==> error::refused(r, "CONFIG"@, fault),
        schema::config_fault(config) is None ==> {
            &&& r matches Ok(change)
            &&& change.config == (AppConfig { llm_api_key: change.config.llm_api_key, ..config })
            &&& change.config.llm_api_key@ == presentation::unmasked(
                config.llm_api_key@,
                cache@.llm_api_key@,
            )
            &&& change.hotkey == (if config.hotkey != cache@.hotkey {
                Some((cache@.hotkey, config.hotkey))
            } else {
                None
            })
        },
{
    if let Err(e) = config.validate() {
        return Err(CommandError::from(e));
    }
    let old_config = cache.read_cached();
    let hotkey = if config.hotkey != old_config.hotkey {
        Some((old_config.hotkey, config.hotkey))
    } else {
        None
    };
    let mut config = config;
    config.llm_api_key = ApiKeyMask::unmask_or_keep(
        config.llm_api_key.as_str(),
        old_config.llm_api_key.as_str(),
    );
    Ok(SettingsChange { config, hotkey })
}

/// The settings have been written to disk, or not: only then they take effect. Hands out the hotkeys
/// before and after, where they are to be exchanged.
pub fn settings_saved(
    cache: &mut ConfigCache,
    change: SettingsChange,
    saved: Result<(), AppError>,
) -> (r: Result<Option<(HotkeySpec, HotkeySpec)>, CommandError>)
    ensures
        match saved {
            Ok(_) => {
                &&& final(cache)@ == change.config
                &&& r == Ok::<Option<(HotkeySpec, HotkeySpec)>, CommandError>(change.hotkey)
            },
            Err(e) => {
                &&& final(cache)@ == old(cache)@
                &&& error::refused(r, e.category(), e.detail())
            },
        },
{
    match cache.save_cached(&change.config, saved) {
        Ok(_) => Ok(change.hotkey),
        Err(e) => Err(CommandError::from(e)),
    }
}

/// What came of exchanging a hotkey.
pub enum Reregistration {
    Done,
    /// The hotkeys could not be reached.
    LockFailed(String),
    /// The old hotkey could not be given up.
    UnregisterFailed(String),
    /// The new hotkey could not be registered; the old one was registered again.
    RegisterFailed(String),
    /// There was no answer in time.
    TimedOut,
}

/// How far an exchange of hotkeys has come.
pub enum ExchangeState {
    /// The old hotkey is being given up.
    Unregistering,
    /// The new hotkey is being registered.
    Registering,
    /// The new hotkey could not be registered, for this reason; the old one is being registered
    /// again.
    FallingBack(String),
}

/// What is done next in an exchange of hotkeys.
pub enum ExchangeStep {
    /// Register the new hotkey.
    RegisterNew,
    /// The new hotkey could not be registered, for this reason: register the old one again.
    RegisterOld(String),
    /// The exchange is over.
    End(Reregistration),
}

/// Go on with an exchange of hotkeys, given what came of the last step. Where the new hotkey cannot
/// be had, the old one is registered again, whatever comes of that.
pub fn exchange_step(state: ExchangeState, last: Result<(), String>) -> (next: ExchangeStep)
    ensures
        match state {
            ExchangeState::Unregistering => match last {
                Ok(_) => next is RegisterNew,
                Err(e) => next == ExchangeStep::End(Reregistration::UnregisterFailed(e)),
            },
            ExchangeState::Registering => match last {
                Ok(_) => next == ExchangeStep::End(Reregistration::Done),
                Err(e) => next == ExchangeStep::RegisterOld(e),
            },
            ExchangeState::FallingBack(e) => next == ExchangeStep::End(
                Reregistration::RegisterFailed(e),
            ),
        },
{
    match state {
        ExchangeState::Unregistering => match last {
            Ok(_) => ExchangeStep::RegisterNew,
            Err(e) => ExchangeStep::End(Reregistration::UnregisterFailed(e)),
        },
        ExchangeState::Registering => match last {
            Ok(_) => ExchangeStep::End(Reregistration::Done),
            Err(e) => ExchangeStep::RegisterOld(e),
        },
        ExchangeState::FallingBack(e) => ExchangeStep::End(Reregistration::RegisterFailed(e)),
    }
}

/// The message about an exchange that failed, if it failed.
pub open spec fn reregistration_fault(outcome: Reregistration, old_key: HotkeySpec) -> Option<
    Seq<char>,
> {
    match outcome {
        Reregistration::Done => None,
        Reregistration::LockFailed(e) => Some("lock failed: "@ + e@),
        Reregistration::UnregisterFailed(e) => Some("unregister failed: "@ + e@),
        Reregistration::RegisterFailed(e) => Some(
            "新热键注册失败("@ + e@ + ")，已回退到旧热键: "@ + windows::shown_spec(old_key),
        ),
        Reregistration::TimedOut => Some("hotkey re-registration timed out"@),
    }
}

/// The hotkey has been exchanged, or not. A failure is reported; where there was an answer, also by
/// an event. The settings stay saved in any case.
pub fn hotkey_reregistered(outcome: Reregistration, old_key: HotkeySpec) -> (r: (
    Vec<Action>,
    Result<(), CommandError>,
))
    ensures
        match reregistration_fault(outcome, old_key) {
            None => r.1 is Ok && acts(r.0@) == Seq::<Act>::empty(),
            Some(fault) => {
                &&& error::refused(r.1, "HOTKEY"@, fault)
                &&& acts(r.0@) == (if outcome is TimedOut {
                    seq![]
                } else {
                    seq![actions::text_event("hotkey-error"@, fault)]
                })
            },
        },
{
    let mut v = nothing();
    let message = match outcome {
        Reregistration::Done => {
            return (v, Ok(()));
        },
        Reregistration::TimedOut => {
            return (v, Err(CommandError::new("HOTKEY", "hotkey re-registration timed out")));
        },
        Reregistration::LockFailed(e) => "lock failed: ".to_owned().concat(e.as_str()),
        Reregistration::UnregisterFailed(e) => "unregister failed: ".to_owned().concat(e.as_str()),
        Reregistration::RegisterFailed(e) => "新热键注册失败(".to_owned().concat(
            e.as_str(),
        ).concat(")，已回退到旧热键: ").concat(old_key.display().as_str()),
    };
    emit_text(&mut v, "hotkey-error", message.as_str());
    assert(acts(v@) =~= seq![actions::text_event("hotkey-error"@, message@)]);
    (v, Err(CommandError::new("HOTKEY", message.as_str())))
}

/// The client for a connection test: a masked API key stands for the saved one.
pub fn test_llm_connection(cache: &ConfigCache, api_url: String, api_key: &str, model: String) -> (c:
    LLMClient)
    ensures
        c == (LLMClient { api_url, api_key: c.api_key, model }),
        c.api_key@ == presentation::unmasked(api_key@, cache@.llm_api_key@),
{
    let config = cache.read_cached();
    let api_key = ApiKeyMask::unmask_or_keep(api_key, config.llm_api_key.as_str());
    LLMClient::new(api_url, api_key, model)
}

/// The metrics of the latest cycles, by default ten.
pub fn get_perf_history(history: &PerfHistory, n: Option<usize>) -> (v: Vec<PerfMetrics>)
    ensures
        v@ == perf::last_of(
            history.entries(),
            match n {
                Some(k) => k as nat,
                None => 10,
            },
        ),
{
    history.recent(n.unwrap_or(10))
}

/// The latest errors, by default three.
pub fn get_last_errors(history: &ErrorHistory, n: Option<usize>) -> (v: Vec<ErrorRecord>)
    ensures
        v@ == perf::last_of(
            history.entries(),
            match n {
                Some(k) => k as nat,
                None => 3,
            },
        ),
{
    history.recent(n)
}

/// Submitting the configuration that was shown changes nothing: the masked key stands for the saved
/// one.
pub proof fn submitting_what_was_shown_keeps_the_key(saved: AppConfig, shown: AppConfig)
    requires
        shown.llm_api_key@ == presentation::masked(saved.llm_api_key@),
    ensures
        presentation::unmasked(shown.llm_api_key@, saved.llm_api_key@) == saved.llm_api_key@,
{
    presentation::masking_round_trips(saved.llm_api_key@);
}

/// The settings window sees every setting as it is, but for the key, and what it hands back
/// unchanged changes nothing.
pub proof fn what_was_shown_changes_nothing(
    cache: ConfigCache,
    shown: AppConfig,
    r: Result<SettingsChange, CommandError>,
)
    requires
        call_ensures(get_config, (&cache,), shown),
        call_ensures(save_settings, (&cache, shown), r),
    ensures
        shown.hotkey == cache@.hotkey && shown.language == cache@.language && shown.whisper_model
            == cache@.whisper_model && shown.llm_enabled == cache@.llm_enabled && shown.llm_api_url
            == cache@.llm_api_url && shown.llm_model == cache@.llm_model && shown.data_saving_path
            == cache@.data_saving_path && shown.review_before_paste == cache@.review_before_paste
            && shown.realtime_transcription == cache@.realtime_transcription
            && shown.record_only_enabled == cache@.record_only_enabled,
        cache@.llm_api_key@.len() > 0 ==> shown.llm_api_key@ == "__MASKED__"@,
        cache@.llm_api_key@.len() == 0 ==> shown.llm_api_key@.len() == 0,
        r is Ok ==> r->Ok_0.hotkey is None && r->Ok_0.config.llm_api_key@ == cache@.llm_api_key@
            && r->Ok_0.config == (AppConfig { llm_api_key: r->Ok_0.config.llm_api_key, ..cache@ }),
{
    submitting_what_was_shown_keeps_the_key(cache@, shown);
}

/// Settings are taken over as they were submitted if they are valid; a hotkey that changed is to be
/// exchanged, and a new key takes the place of the saved one.
pub proof fn valid_settings_are_taken_over(
    cache: ConfigCache,
    config: AppConfig,
    valid: Result<(), AppError>,
    r: Result<SettingsChange, CommandError>,
)
    requires
        call_ensures(AppConfig::validate, (&config,), valid),
        call_ensures(save_settings, (&cache, config), r),
    ensures
        r is Ok <==> valid is Ok,
        r is Err ==> r->Err_0.code@ == "CONFIG"@ && r->Err_0.message@ == valid->Err_0.detail(),
        r is Ok ==> {
            let c = r->Ok_0.config;
            &&& c == (AppConfig { llm_api_key: c.llm_api_key, ..config })
            &&& config.llm_api_key@.len() > 0 && config.llm_api_key@ != "__MASKED__"@
                ==> c.llm_api_key@ == config.llm_api_key@
            &&& config.llm_api_key@ == "__MASKED__"@ ==> c.llm_api_key@ == cache@.llm_api_key@
            &&& config.llm_api_key@.len() == 0 ==> c.llm_api_key@ == cache@.llm_api_key@
            &&& r->Ok_0.hotkey is Some <==> config.hotkey != cache@.hotkey
            &&& r->Ok_0.hotkey is Some ==> r->Ok_0.hotkey->0 == (cache@.hotkey, config.hotkey)
        },
{
    if r is Ok && config.llm_api_key@.len() == 0 && cache@.llm_api_key@.len() == 0 {
        assert(config.llm_api_key@ =~= cache@.llm_api_key@);
    }
}

/// Settings take effect once they are written, and not otherwise.
pub proof fn settings_take_effect_once_written(
    cache: &mut ConfigCache,
    change: SettingsChange,
    saved: Result<(), AppError>,
    r: Result<Option<(HotkeySpec, HotkeySpec)>, CommandError>,
)
    requires
        call_ensures(settings_saved, (cache, change, saved), r),
    ensures
        r is Ok <==> saved is Ok,
        saved is Ok ==> final(cache)@ == change.config && r->Ok_0 == change.hotkey,
        saved is Err ==> final(cache)@ == old(cache)@,
{
}

/// A failed exchange of hotkeys is told, with an event unless there was no answer; the message of a
/// hotkey that could not be had names the one that came back.
pub proof fn a_failed_exchange_is_told(
    outcome: Reregistration,
    old_key: HotkeySpec,
    shown: String,
    r: (Vec<Action>, Result<(), CommandError>),
)
    requires
        call_ensures(hotkey_reregistered, (outcome, old_key), r),
        call_ensures(HotkeySpec::display, (&old_key,), shown),
    ensures
        r.1 is Ok <==> outcome is Done,
        r.1 is Err ==> r.1->Err_0.code@ == "HOTKEY"@,
        outcome is Done || outcome is TimedOut ==> r.0@.len() == 0,
        r.1 is Err && !(outcome is TimedOut) ==> acts(r.0@) == seq![
            Act::Emit(
                "hotkey-error"@,
                crate::commands::Content::Text(r.1->Err_0.message@),
            ),
        ],
        outcome matches Reregistration::RegisterFailed(e) ==> r.1->Err_0.message@
            == "新热键注册失败("@ + e@ + ")，已回退到旧热键: "@ + shown@,
        outcome matches Reregistration::UnregisterFailed(e) ==> r.1->Err_0.message@
            == "unregister failed: "@ + e@,
{
    assert(acts(r.0@).len() == r.0@.len());
}

/// A hotkey is exchanged in at most three steps: the old one is given up, the new one registered,
/// and where that fails the old one registered again, and then the failure is told.
pub proof fn an_exchange_falls_back_to_the_old_hotkey(
    given_up: Result<(), String>,
    first: ExchangeStep,
    registered: Result<(), String>,
    second: ExchangeStep,
    back: Result<(), String>,
    reason: String,
    third: ExchangeStep,
)
    requires
        call_ensures(exchange_step, (ExchangeState::Unregistering, given_up), first),
        call_ensures(exchange_step, (ExchangeState::Registering, registered), second),
        call_ensures(exchange_step, (ExchangeState::FallingBack(reason), back), third),
    ensures
        given_up is Ok <==> first is RegisterNew,
        given_up is Err ==> first == ExchangeStep::End(
            Reregistration::UnregisterFailed(given_up->Err_0),
        ),
        registered is Ok ==> second == ExchangeStep::End(Reregistration::Done),
        registered is Err ==> second == ExchangeStep::RegisterOld(registered->Err_0),
        third == ExchangeStep::End(Reregistration::RegisterFailed(reason)),
{
}

/// A connection is tested with what is being edited, and with the saved key where it is masked; the
/// program starts with the system in release builds, and in debug builds if the variable is 1.
pub proof fn a_connection_is_tested_as_edited(
    cache: ConfigCache,
    api_url: String,
    api_key: &str,
    model: String,
    c: LLMClient,
    debug_build: bool,
    variable: Option<&str>,
    available: bool,
)
    requires
        call_ensures(test_llm_connection, (&cache, api_url, api_key, model), c),
        call_ensures(is_autostart_available, (debug_build, variable), available),
    ensures
        c.api_url == api_url && c.model == model,
        api_key@ == "__MASKED__"@ ==> c.api_key@ == cache@.llm_api_key@,
        api_key@.len() > 0 && api_key@ != "__MASKED__"@ ==> c.api_key@ == api_key@,
        !debug_build ==> available,
        debug_build ==> (available <==> variable is Some && variable->0@ == "1"@),
{
}

/// The settings window shows the latest ten cycles and the latest three errors unless it asks for
/// another number.
pub proof fn the_latest_are_shown(
    cycles: PerfHistory,
    errors: ErrorHistory,
    n: Option<usize>,
    v: Vec<PerfMetrics>,
    w: Vec<ErrorRecord>,
    j: int,
)
    requires
        call_ensures(get_perf_history, (&cycles, n), v),
        call_ensures(get_last_errors, (&errors, n), w),
    ensures
        v@.len() == ({
            let asked = if n is Some {
                n->0 as int
            } else {
                10
            };
            if asked < cycles.entries().len() {
                asked
            } else {
                cycles.entries().len() as int
            }
        }),
        0 <= j < v@.len() ==> v@[v@.len() - 1 - j] == cycles.entries()[cycles.entries().len() - 1
            - j],
        w@.len() == ({
            let asked = if n is Some {
                n->0 as int
            } else {
                3
            };
            if asked < errors.entries().len() {
                asked
            } else {
                errors.entries().len() as int
            }
        }),
        0 <= j < w@.len() ==> w@[w@.len() - 1 - j] == errors.entries()[errors.entries().len() - 1
            - j],
{
}

} // verus!
