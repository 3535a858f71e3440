//! Settings, and what is decided while the program starts.

use dl_voice_typing::commands::actions::Action;
use dl_voice_typing::commands::settings::{
    exchange_step, get_config, get_perf_history, hotkey_reregistered, is_autostart_available, save_settings,
    settings_saved, test_llm_connection as llm_client_for_test, ExchangeState,
    ExchangeStep, Reregistration,
};
use dl_voice_typing::commands::Payload;
use dl_voice_typing::config::{AppConfig, ConfigCache};
use dl_voice_typing::error::AppError;
use dl_voice_typing::hotkey::windows::{HotkeySpec, SlotKind};
use dl_voice_typing::perf::{PerfHistory, PerfMetrics};
use dl_voice_typing::startup::{
    autostart_step, close_step, config_or_default, hotkeys_to_register,
    looks_for_truncated_recordings, AutostartStep, CloseStep,
};

fn keyed() -> AppConfig {
    AppConfig { llm_api_key: "sk-1234567890abcdef".to_string(), ..Default::default() }
}

fn f9() -> HotkeySpec {
    HotkeySpec { ctrl: false, shift: false, alt: false, vk: 0x78 }
}

#[test]
fn the_key_is_shown_masked_and_kept() {
    let mut cache = ConfigCache::new(keyed());
    let shown = get_config(&cache);
    assert_ne!(shown.llm_api_key, "sk-1234567890abcdef");
    let change = save_settings(&cache, shown).ok().unwrap();
    assert!(change.hotkey.is_none());
    assert_eq!(change.config.llm_api_key, "sk-1234567890abcdef");
    let kept = settings_saved(&mut cache, change, Ok(())).ok().unwrap();
    assert!(kept.is_none());
    let fresh = AppConfig { llm_api_key: "sk-new".to_string(), ..Default::default() };
    assert_eq!(save_settings(&cache, fresh).ok().unwrap().config.llm_api_key, "sk-new");
    let masked = get_config(&cache).llm_api_key;
    let client = llm_client_for_test(&cache, "u".to_string(), &masked, "m".to_string());
    assert!(client.matches_config("u", "sk-1234567890abcdef", "m"));
}

#[test]
fn a_failed_save_changes_nothing() {
    let mut cache = ConfigCache::new(AppConfig::default());
    let wanted = AppConfig { hotkey: f9(), ..Default::default() };
    let change = save_settings(&cache, wanted).ok().unwrap();
    assert!(change.hotkey.is_some());
    let e = settings_saved(&mut cache, change, Err(AppError::Io("full".to_string())))
        .err()
        .unwrap();
    assert_eq!((e.code.as_str(), e.message.as_str()), ("IO", "full"));
    assert_eq!(get_config(&cache).hotkey, AppConfig::default().hotkey);
    let wanted = AppConfig { hotkey: f9(), ..Default::default() };
    let change = save_settings(&cache, wanted).ok().unwrap();
    let (old, new) = settings_saved(&mut cache, change, Ok(())).ok().unwrap().unwrap();
    assert_eq!(old, AppConfig::default().hotkey);
    assert_eq!(new, f9());
    assert_eq!(get_config(&cache).hotkey, f9());
}

#[test]
fn invalid_settings_are_refused() {
    let cache = ConfigCache::new(AppConfig::default());
    let wanted = AppConfig { llm_enabled: true, ..Default::default() };
    assert_eq!(save_settings(&cache, wanted).err().unwrap().code, "CONFIG");
}

#[test]
fn failed_exchanges_of_hotkeys_are_reported() {
    let (acts, r) = hotkey_reregistered(Reregistration::Done, f9());
    assert!(acts.is_empty() && r.is_ok());
    let (acts, r) = hotkey_reregistered(Reregistration::TimedOut, f9());
    assert!(acts.is_empty());
    assert_eq!(r.err().unwrap().message, "hotkey re-registration timed out");
    let (acts, r) = hotkey_reregistered(Reregistration::RegisterFailed("taken".to_string()), f9());
    let e = r.err().unwrap();
    assert_eq!(e.code, "HOTKEY");
    assert_eq!(e.message, "新热键注册失败(taken)，已回退到旧热键: F9");
    assert!(matches!(&acts[..], [Action::Emit("hotkey-error", Payload::Text(t))] if *t == e.message));
    let (_, r) = hotkey_reregistered(Reregistration::LockFailed("x".to_string()), f9());
    assert_eq!(r.err().unwrap().message, "lock failed: x");
    let (_, r) = hotkey_reregistered(Reregistration::UnregisterFailed("x".to_string()), f9());
    assert_eq!(r.err().unwrap().message, "unregister failed: x");
}

#[test]
fn a_hotkey_is_exchanged_or_the_old_one_comes_back() {
    let taken = || Err("taken".to_string());
    assert!(matches!(exchange_step(ExchangeState::Unregistering, Ok(())), ExchangeStep::RegisterNew));
    let next = exchange_step(ExchangeState::Unregistering, taken());
    assert!(matches!(next, ExchangeStep::End(Reregistration::UnregisterFailed(e)) if e == "taken"));
    let next = exchange_step(ExchangeState::Registering, Ok(()));
    assert!(matches!(next, ExchangeStep::End(Reregistration::Done)));
    let ExchangeStep::RegisterOld(reason) = exchange_step(ExchangeState::Registering, taken()) else {
        panic!("the old hotkey is not registered again")
    };
    assert_eq!(reason, "taken");
    for outcome in [Ok(()), Err("gone".to_string())] {
        let next = exchange_step(ExchangeState::FallingBack(reason.clone()), outcome);
        assert!(matches!(next, ExchangeStep::End(Reregistration::RegisterFailed(e)) if e == "taken"));
    }
}

#[test]
fn the_settings_window_asks_for_ten_cycles() {
    let mut h = PerfHistory::new();
    for i in 0..12 {
        h.record(PerfMetrics::new(i));
    }
    let v = get_perf_history(&h, None);
    assert_eq!(v.len(), 10);
    assert_eq!(v[9].cycle_id, 11);
    assert_eq!(get_perf_history(&h, Some(2)).len(), 2);
}

#[test]
fn autostart_is_left_alone_in_debug_builds() {
    assert!(is_autostart_available(false, None));
    assert!(!is_autostart_available(true, None));
    assert!(!is_autostart_available(true, Some("0")));
    assert!(is_autostart_available(true, Some("1")));
    assert_eq!(autostart_step(true, true), AutostartStep::Enable);
    assert_eq!(autostart_step(true, false), AutostartStep::Disable);
    assert_eq!(autostart_step(false, true), AutostartStep::Leave);
}

#[test]
fn a_start_without_a_configuration_uses_the_default() {
    let c = config_or_default(Err(AppError::Config("broken".to_string())));
    assert_eq!(c.hotkey, AppConfig::default().hotkey);
    assert!(!looks_for_truncated_recordings(&c));
    let c = config_or_default(Ok(AppConfig { data_saving_path: " d ".to_string(), ..keyed() }));
    assert_eq!(c.llm_api_key, "sk-1234567890abcdef");
    assert!(looks_for_truncated_recordings(&c));
    let blank = AppConfig { data_saving_path: "  ".to_string(), ..Default::default() };
    assert!(!looks_for_truncated_recordings(&blank));
}

#[test]
fn the_second_hotkey_is_registered_on_demand() {
    let mut c = AppConfig { hotkey: f9(), ..Default::default() };
    assert_eq!(hotkeys_to_register(&c).len(), 1);
    c.record_only_enabled = true;
    let keys = hotkeys_to_register(&c);
    assert_eq!(keys[0].1, f9());
    assert!(matches!(keys[1].0, SlotKind::RecordOnly));
    assert_eq!(keys[1].1, c.record_only_hotkey);
}

#[test]
fn windows_are_hidden_until_the_program_ends() {
    assert_eq!(close_step("settings", false), CloseStep::Hide);
    assert_eq!(close_step("transcribe", false), CloseStep::EndTranscriptionAndHide);
    assert_eq!(close_step("transcribe", true), CloseStep::Close);
}
