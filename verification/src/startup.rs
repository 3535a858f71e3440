//! What is decided while the program starts, and when one of its windows is closed.

use crate::config::schema;
use crate::config::AppConfig;
use crate::error::AppError;
use crate::hotkey::windows::{HotkeySpec, SlotKind};
use crate::text;
use vstd::prelude::*;

verus! {

/// The configuration to start with: the default one where none could be loaded.
pub fn config_or_default(loaded: Result<AppConfig, AppError>) -> (c: AppConfig)
    ensures
        match loaded {
            Ok(config) => c == config,
            Err(_) => schema::is_default(c),
        },
{
    match loaded {
        Ok(config) => config,
        Err(_) => AppConfig::default(),
    }
}

/// What is done about starting the program with the system.
#[derive(Debug, Clone, Copy, PartialEq, Eq, Structural)]
pub enum AutostartStep {
    Enable,
    Disable,
    Leave,
}

/// Bring the system in line with the configuration, where the build may do so.
pub fn autostart_step(available: bool, wanted: bool) -> (s: AutostartStep)
    ensures
        s == (if !available {
            AutostartStep::Leave
        } else if wanted {
            AutostartStep::Enable
        } else {
            AutostartStep::Disable
        }),
{
    if !available {
        AutostartStep::Leave
    } else if wanted {
        AutostartStep::Enable
    } else {
        AutostartStep::Disable
    }
}

/// Whether recordings that a crash has truncated are looked for: where a directory is configured.
pub fn looks_for_truncated_recordings(config: &AppConfig) -> (r: bool)
    ensures
        r == (text::trimmed(config.data_saving_path@).len() > 0),
{
    !text::trim(config.data_saving_path.as_str()).as_str().is_empty()
}

/// The hotkeys that a configuration asks for: that of dictation, and that of record-only mode where
/// it is switched on.
pub fn hotkeys_to_register(config: &AppConfig) -> (v: Vec<(SlotKind, HotkeySpec)>)
    ensures
        v@ == (if config.record_only_enabled {
            seq![
                (SlotKind::Primary, config.hotkey),
                (SlotKind::RecordOnly, config.record_only_hotkey),
            ]
        } else {
            seq![(SlotKind::Primary, config.hotkey)]
        }),
{
    if config.record_only_enabled {
        vec![
            (SlotKind::Primary, config.hotkey),
            (SlotKind::RecordOnly, config.record_only_hotkey),
        ]
    } else {
        vec![(SlotKind::Primary, config.hotkey)]
    }
}

/// What is done about a request to close a window.
#[derive(Debug, Clone, Copy, PartialEq, Eq, Structural)]
pub enum CloseStep {
    /// The window may close.
    Close,
    /// The window is hidden instead.
    Hide,
    /// The window is hidden instead, and the transcription that it shows is given up.
    EndTranscriptionAndHide,
}

/// Windows close only when the program ends; until then they are hidden.
pub fn close_step(label: &str, shutting_down: bool) -> (s: CloseStep)
    ensures
        s == (if shutting_down {
            CloseStep::Close
        } else if label@ == "transcribe"@ {
            CloseStep::EndTranscriptionAndHide
        } else {
            CloseStep::Hide
        }),
{
    if shutting_down {
        CloseStep::Close
    } else if text::same_text(label, "transcribe") {
        CloseStep::EndTranscriptionAndHide
    } else {
        CloseStep::Hide
    }
}

/// A configuration that was loaded is used as it is; without one the program starts as after a fresh
/// installation.
pub proof fn a_loaded_configuration_is_used(
    loaded: Result<AppConfig, AppError>,
    c: AppConfig,
    fresh: AppConfig,
)
    requires
        call_ensures(config_or_default, (loaded,), c),
        call_ensures(<AppConfig as Default>::default, (), fresh),
    ensures
        loaded is Ok ==> c == loaded->Ok_0,
        loaded is Err ==> c.hotkey == fresh.hotkey && c.language == fresh.language
            && !c.llm_enabled && !c.record_only_enabled && !c.data_saving_enabled,
{
}

/// Starting with the system is switched on and off as wanted, where the build may do so.
pub proof fn autostart_is_as_wanted(available: bool, wanted: bool, s: AutostartStep)
    requires
        call_ensures(autostart_step, (available, wanted), s),
    ensures
        s is Enable <==> available && wanted,
        s is Disable <==> available && !wanted,
{
}

/// Both hotkeys are registered where record-only mode is switched on, and that of dictation in any
/// case.
pub proof fn hotkeys_in_use_are_registered(
    config: AppConfig,
    v: Vec<(SlotKind, HotkeySpec)>,
    look: bool,
)
    requires
        call_ensures(hotkeys_to_register, (&config,), v),
        call_ensures(looks_for_truncated_recordings, (&config,), look),
    ensures
        v@.len() > 0 && v@[0].0 is Primary && v@[0].1 == config.hotkey,
        v@.len() == (if config.record_only_enabled {
            2int
        } else {
            1
        }),
        config.record_only_enabled ==> v@[1].0 is RecordOnly && v@[1].1
            == config.record_only_hotkey,
        look <==> exists|i: int|
            0 <= i < config.data_saving_path@.len() && !text::white_space(
                #[trigger] config.data_saving_path@[i],
            ),
{
    let p = config.data_saving_path@;
    let b = text::trimmed_is_what_lies_between(p);
    if text::trimmed(p).len() > 0 {
        assert(!text::white_space(p[b.0]));
    } else {
        assert(forall|k: int| 0 <= k < p.len() ==> text::white_space(#[trigger] p[k]));
    }
}

/// Windows close when the program ends; before that they are hidden, and closing that of a
/// transcription gives the transcription up.
pub proof fn windows_are_hidden_until_the_end(label: &str, shutting_down: bool, s: CloseStep)
    requires
        call_ensures(close_step, (label, shutting_down), s),
    ensures
        s is Close <==> shutting_down,
        s is EndTranscriptionAndHide <==> !shutting_down && label@ == "transcribe"@,
{
}

} // verus!
