//! Hotkeys: matching, routing and registration.

use dl_voice_typing::hotkey::windows::{
    accept_key_event, after_cancel_request, all_slots_empty, decode_key_event, dispatch_key_event, esc_should_swallow, find_callback,
    modifiers_match, route_event, update_modifiers, validate_no_conflict, HookAction, HookState,
    HotkeySpec, KeyEvent, ModifiersDown, SlotKind, WindowsHotkeyManager, LLKHF_INJECTED, VK_ESCAPE,
    WM_KEYDOWN, WM_SYSKEYUP,
};
use dl_voice_typing::hotkey::HotkeyEvent;
use std::sync::Arc;

type Slot = Arc<dyn Fn(HotkeyEvent) + Send + Sync>;

type Cancel = Arc<dyn Fn() -> bool + Send + Sync>;

type State = HookState<Slot, Cancel>;

fn dummy_callback() -> Slot {
    Arc::new(|_| {})
}

fn default_primary() -> HotkeySpec {
    HotkeySpec { ctrl: false, shift: false, alt: false, vk: 0xA3 }
}

fn default_record_only() -> HotkeySpec {
    HotkeySpec { ctrl: false, shift: false, alt: false, vk: 0xA5 }
}

fn hook_state_with(primary: Option<HotkeySpec>, record_only: Option<HotkeySpec>, cancel: bool) -> State {
    let cancel_esc: Option<Cancel> = if cancel { Some(Arc::new(|| true)) } else { None };
    State {
        primary: primary.map(|s| (s, dummy_callback())),
        record_only: record_only.map(|s| (s, dummy_callback())),
        cancel_esc,
        mods: ModifiersDown::default(),
    }
}

fn assert_send_sync<T: Send + Sync>() {}

#[test]
fn test_hotkey_manager_is_send_sync_via_mutex() {
    assert_send_sync::<std::sync::Mutex<WindowsHotkeyManager>>();
}

#[test]
fn test_new_manager() {
    let manager = WindowsHotkeyManager::new();
    assert!(!manager.is_registered());
}

#[test]
fn test_find_callback_dispatches_by_vk() {
    let primary_cb = dummy_callback();
    let record_cb = dummy_callback();
    let hs = State {
        primary: Some((default_primary(), primary_cb.clone())),
        record_only: Some((default_record_only(), record_cb.clone())),
        cancel_esc: None,
        mods: ModifiersDown::default(),
    };
    let found_primary = find_callback(&hs, 0xA3, ModifiersDown::default(), true);
    assert!(found_primary.is_some());
    let found_record = find_callback(&hs, 0xA5, ModifiersDown::default(), true);
    assert!(found_record.is_some());
    if let (Some(p), Some(r)) = (found_primary, found_record) {
        assert!(!Arc::ptr_eq(&p, &r));
        assert!(Arc::ptr_eq(&p, &primary_cb));
        assert!(Arc::ptr_eq(&r, &record_cb));
    }
}

#[test]
fn test_find_callback_returns_none_for_unregistered_vk() {
    let hs = State {
        primary: Some((default_primary(), dummy_callback())),
        record_only: Some((default_record_only(), dummy_callback())),
        cancel_esc: None,
        mods: ModifiersDown::default(),
    };
    assert!(find_callback(&hs, 0x70, ModifiersDown::default(), true).is_none());
}

#[test]
fn test_find_callback_handles_empty_slots() {
    let hs = State::default();
    assert!(find_callback(&hs, 0xA3, ModifiersDown::default(), true).is_none());

    let only_record = State {
        primary: None,
        record_only: Some((default_record_only(), dummy_callback())),
        cancel_esc: None,
        mods: ModifiersDown::default(),
    };
    assert!(only_record.primary.is_none());
    assert!(find_callback(&only_record, 0xA3, ModifiersDown::default(), true).is_none());
    assert!(find_callback(&only_record, 0xA5, ModifiersDown::default(), true).is_some());
}

#[test]
fn dispatch_accumulates_modifiers_across_events_combo_fires() {
    let spec = HotkeySpec {
        ctrl: true,
        shift: false,
        alt: false,
        vk: 0x41, // A
    };
    let mut hs = State {
        primary: Some((spec, dummy_callback())),
        ..Default::default()
    };
    assert!(dispatch_key_event(&mut hs, 0xA2, true).is_none());
    assert_eq!(
        hs.mods,
        ModifiersDown {
            ctrl: true,
            shift: false,
            alt: false
        }
    );
    assert!(dispatch_key_event(&mut hs, 0x41, true).is_some());
    assert!(dispatch_key_event(&mut hs, 0x41, false).is_some());
}

#[test]
fn dispatch_two_modifier_combo_requires_both_events() {
    let spec = HotkeySpec {
        ctrl: true,
        shift: true,
        alt: false,
        vk: 0x41, // A
    };
    let mut hs = State {
        primary: Some((spec, dummy_callback())),
        ..Default::default()
    };
    assert!(dispatch_key_event(&mut hs, 0xA2, true).is_none());
    assert!(dispatch_key_event(&mut hs, 0x41, true).is_none());
    assert!(dispatch_key_event(&mut hs, 0xA0, true).is_none());
    assert!(dispatch_key_event(&mut hs, 0x41, true).is_some());
}

#[test]
fn dispatch_modifier_release_clears_state_next_event_unmatched() {
    let spec = HotkeySpec {
        ctrl: true,
        shift: false,
        alt: false,
        vk: 0x41, // A
    };
    let mut hs = State {
        primary: Some((spec, dummy_callback())),
        ..Default::default()
    };
    assert!(dispatch_key_event(&mut hs, 0xA2, true).is_none());
    assert!(dispatch_key_event(&mut hs, 0xA2, false).is_none());
    assert_eq!(hs.mods, ModifiersDown::default());
    assert!(dispatch_key_event(&mut hs, 0x41, true).is_none());
}

#[test]
fn dispatch_bare_key_still_fires_without_modifiers() {
    let mut hs = State {
        primary: Some((default_primary(), dummy_callback())),
        ..Default::default()
    };
    assert!(dispatch_key_event(&mut hs, 0xA3, true).is_some());
    assert!(dispatch_key_event(&mut hs, 0xA3, false).is_some());
    assert_eq!(hs.mods, ModifiersDown::default());
}

#[test]
fn dispatch_stray_modifier_suppresses_bare_key_exact_match_semantics() {
    let mut hs = State {
        record_only: Some((default_record_only(), dummy_callback())),
        ..Default::default()
    };
    assert!(dispatch_key_event(&mut hs, 0xA2, true).is_none());
    assert!(dispatch_key_event(&mut hs, 0xA5, true).is_none());
    assert!(dispatch_key_event(&mut hs, 0xA2, false).is_none());
    assert!(dispatch_key_event(&mut hs, 0xA5, true).is_some());
}

#[test]
fn esc_swallow_requires_slot_keydown_and_dispatched_cancel() {
    assert!(
        esc_should_swallow(true, true, true),
        "slot+keydown+handled -> swallow"
    );
    assert!(
        !esc_should_swallow(true, true, false),
        "callback declined (idle) -> pass through"
    );
    assert!(
        !esc_should_swallow(true, false, true),
        "keyup / syskeydown always passes"
    );
    assert!(
        !esc_should_swallow(false, true, true),
        "no slot -> pass through"
    );
}

#[test]
fn plain_key_matches_only_without_modifiers() {
    let spec = default_primary();
    let mut mods = ModifiersDown::default();
    assert!(modifiers_match(&spec, mods));
    update_modifiers(&mut mods, 0xA3, true);
    assert!(modifiers_match(&spec, mods));
    update_modifiers(&mut mods, 0xA0, true);
    assert!(
        !modifiers_match(&spec, mods),
        "extra shift held -> no match (strict)"
    );
    let left_ctrl_spec = HotkeySpec {
        ctrl: false,
        shift: false,
        alt: false,
        vk: 0xA2,
    };
    let mut mods = ModifiersDown::default();
    update_modifiers(&mut mods, 0xA3, true);
    assert!(
        modifiers_match(&left_ctrl_spec, mods),
        "LeftCtrl spec matches RightCtrl press (self-family both directions)"
    );
    let mut mods = ModifiersDown::default();
    update_modifiers(&mut mods, 0xA2, true);
    assert!(
        modifiers_match(&left_ctrl_spec, mods),
        "LeftCtrl spec matches LeftCtrl press (own vk)"
    );
    let mut mods = ModifiersDown::default();
    update_modifiers(&mut mods, 0xA2, true);
    assert!(
        modifiers_match(&spec, mods),
        "RightCtrl spec matches LeftCtrl press (self-family both directions)"
    );
}

#[test]
fn combo_matches_only_with_exact_modifiers() {
    let spec = HotkeySpec {
        ctrl: true,
        shift: true,
        alt: false,
        vk: 0x41,
    };
    let mods = ModifiersDown {
        ctrl: true,
        shift: true,
        alt: false,
    };
    assert!(modifiers_match(&spec, mods));
    let mods = ModifiersDown {
        ctrl: true,
        shift: false,
        alt: false,
    };
    assert!(!modifiers_match(&spec, mods));
    let mods = ModifiersDown {
        ctrl: true,
        shift: true,
        alt: true,
    };
    assert!(!modifiers_match(&spec, mods));
    let mods = ModifiersDown {
        ctrl: true,
        shift: true,
        alt: false,
    };
    assert!(modifiers_match(&spec, mods));
}

#[test]
fn released_dispatches_on_main_vk_only() {
    let spec = default_primary();
    let hs = State {
        primary: Some((spec, dummy_callback())),
        record_only: None,
        cancel_esc: None,
        mods: ModifiersDown::default(),
    };
    let mods = ModifiersDown {
        ctrl: false,
        shift: true,
        alt: false,
    };
    let found = find_callback(&hs, 0xA3, mods, false);
    assert!(
        found.is_some(),
        "keyup on main vk matches regardless of mods"
    );
    let not_found = find_callback(&hs, 0xA3, mods, true);
    assert!(
        not_found.is_none(),
        "keydown with strict-mismatch mods rejected"
    );
}

#[test]
fn record_only_conflict_requires_full_spec_equality() {
    let a_ctrl = HotkeySpec {
        ctrl: true,
        shift: false,
        alt: false,
        vk: 0x41,
    };
    let a_shift = HotkeySpec {
        ctrl: false,
        shift: true,
        alt: false,
        vk: 0x41,
    };
    let hs = State::default();
    assert!(validate_no_conflict(a_ctrl, &hs, SlotKind::RecordOnly).is_ok());
    assert!(validate_no_conflict(a_shift, &hs, SlotKind::RecordOnly).is_ok());
    let hs_with_primary = State {
        primary: Some((a_ctrl, dummy_callback())),
        record_only: None,
        cancel_esc: None,
        mods: ModifiersDown::default(),
    };
    let err = validate_no_conflict(a_ctrl, &hs_with_primary, SlotKind::RecordOnly)
        .expect_err("record_only == primary must error");
    let msg = format!("{err:?}");
    assert!(
        msg.contains("record-only hotkey must differ from the primary hotkey"),
        "expected record-only vs primary message, got: {msg}"
    );
    assert!(
        validate_no_conflict(a_shift, &hs_with_primary, SlotKind::RecordOnly).is_ok(),
        "different vk/modifier combos do not collide"
    );
}

#[test]
fn primary_conflict_requires_full_spec_equality() {
    let spec_a = HotkeySpec {
        ctrl: false,
        shift: false,
        alt: false,
        vk: 0xA3,
    };
    let spec_b = HotkeySpec {
        ctrl: false,
        shift: false,
        alt: false,
        vk: 0xA5,
    };
    let hs = State::default();
    assert!(validate_no_conflict(spec_a, &hs, SlotKind::Primary).is_ok());
    let hs_with_record = State {
        primary: None,
        record_only: Some((spec_b, dummy_callback())),
        cancel_esc: None,
        mods: ModifiersDown::default(),
    };
    let err = validate_no_conflict(spec_b, &hs_with_record, SlotKind::Primary)
        .expect_err("primary == record_only must error");
    let msg = format!("{err:?}");
    assert!(
        msg.contains("primary hotkey must differ from the record-only hotkey"),
        "expected primary vs record-only message, got: {msg}"
    );
    assert!(
        validate_no_conflict(spec_a, &hs_with_record, SlotKind::Primary).is_ok(),
        "different vk does not collide"
    );
}

#[test]
fn update_modifiers_table_driven() {
    for vk in [0xA2u32, 0xA3] {
        let mut m = ModifiersDown::default();
        update_modifiers(&mut m, vk, true);
        assert!(m.ctrl, "keydown 0x{vk:x} -> ctrl set");
        update_modifiers(&mut m, vk, false);
        assert!(!m.ctrl, "keyup 0x{vk:x} -> ctrl cleared");
    }
    for vk in [0xA0u32, 0xA1] {
        let mut m = ModifiersDown::default();
        update_modifiers(&mut m, vk, true);
        assert!(m.shift);
        update_modifiers(&mut m, vk, false);
        assert!(!m.shift);
    }
    for vk in [0xA4u32, 0xA5] {
        let mut m = ModifiersDown::default();
        update_modifiers(&mut m, vk, true);
        assert!(m.alt);
        update_modifiers(&mut m, vk, false);
        assert!(!m.alt);
    }
    let mut m = ModifiersDown::default();
    update_modifiers(&mut m, 0xA3, true);
    update_modifiers(&mut m, 0xA3, true);
    update_modifiers(&mut m, 0xA3, true);
    assert!(m.ctrl);
    update_modifiers(&mut m, 0x41, true);
    assert!(!m.shift && !m.alt);
    update_modifiers(&mut m, 0x20, false);
    assert!(!m.shift && !m.alt);
}

#[test]
fn unregister_primary_keeps_other_slots_record_only_and_cancel() {
    let mut hs = hook_state_with(Some(default_primary()), Some(default_record_only()), true);
    hs.primary = None;
    assert!(!all_slots_empty(&hs), "two slots still present");
    assert!(hs.record_only.is_some());
    assert!(hs.cancel_esc.is_some());
}

#[test]
fn unregister_primary_keeps_cancel_esc_when_record_only_absent() {
    let mut hs = hook_state_with(Some(default_primary()), None, true);
    hs.primary = None;
    assert!(
        !all_slots_empty(&hs),
        "cancel_esc alone is enough to keep hook"
    );
    assert!(hs.cancel_esc.is_some());
}

#[test]
fn unregister_primary_with_only_record_only_present() {
    let hs = hook_state_with(None, Some(default_record_only()), true);
    assert!(!all_slots_empty(&hs));
    assert!(hs.primary.is_none());
}

#[test]
fn all_slots_empty_returns_true_only_when_all_three_clear() {
    let hs = hook_state_with(Some(default_primary()), None, false);
    assert!(!all_slots_empty(&hs), "primary alone is not empty");
    let hs = hook_state_with(None, None, true);
    assert!(!all_slots_empty(&hs), "cancel_esc alone is not empty");
    let hs = State::default();
    assert!(all_slots_empty(&hs));
}

#[test]
fn route_event_esc_cancels_before_slot_table() {
    let mut hs = State {
        cancel_esc: Some(Arc::new(|| true)),
        ..Default::default()
    };
    hs.primary = Some((
        HotkeySpec {
            ctrl: false,
            shift: false,
            alt: false,
            vk: 0x1B,
        },
        Arc::new(|_| {}),
    ));
    let action = route_event(
        &mut hs,
        KeyEvent {
            vk: 0x1B,
            is_keydown: true,
            is_sys: false,
        },
    );
    assert!(matches!(action, HookAction::EscCancel(_)));
}

#[test]
fn esc_not_handled_falls_back_to_slot_dispatch() {
    let mut hs = State {
        cancel_esc: Some(Arc::new(|| false)),
        ..Default::default()
    };
    hs.primary = Some((
        HotkeySpec {
            ctrl: false,
            shift: false,
            alt: false,
            vk: 0x1B,
        },
        Arc::new(|_| {}),
    ));
    let action = route_event(
        &mut hs,
        KeyEvent {
            vk: 0x1B,
            is_keydown: true,
            is_sys: false,
        },
    );
    assert!(matches!(action, HookAction::EscCancel(_)));
    let cb = dispatch_key_event(&mut hs, 0x1B, true); // proc's 2nd pass
    assert!(
        cb.is_some(),
        "Esc-down must still match the primary spec after a non-handled cancel"
    );
}

#[test]
fn route_event_excludes_syskeydown_from_esc_cancel() {
    let mut hs = State {
        cancel_esc: Some(Arc::new(|| true)),
        ..Default::default()
    };
    let action = route_event(
        &mut hs,
        KeyEvent {
            vk: 0x1B,
            is_keydown: true,
            is_sys: true,
        },
    );
    assert!(matches!(action, HookAction::Pass));
}

#[test]
fn decode_key_event_maps_windows_messages() {
    assert_eq!(
        decode_key_event(WM_KEYDOWN, 0x41),
        Some(KeyEvent {
            vk: 0x41,
            is_keydown: true,
            is_sys: false
        })
    );
    assert_eq!(
        decode_key_event(WM_SYSKEYUP, 0x41),
        Some(KeyEvent {
            vk: 0x41,
            is_keydown: false,
            is_sys: true
        })
    );
    assert_eq!(decode_key_event(0xdead_u32, 0x41), None);
}

#[test]
fn synthesised_events_are_passed_over() {
    let ev = KeyEvent { vk: 0x41, is_keydown: true, is_sys: false };
    assert_eq!(accept_key_event(0, 0, WM_KEYDOWN, 0x41), Some(ev));
    assert_eq!(accept_key_event(0, LLKHF_INJECTED, WM_KEYDOWN, 0x41), None);
    assert_eq!(accept_key_event(-1, 0, WM_KEYDOWN, 0x41), None);
    assert_eq!(accept_key_event(0, 0, 0x0102, 0x41), None);
}

#[test]
fn an_escape_that_cancelled_is_swallowed() {
    let escape = HotkeySpec { ctrl: false, shift: false, alt: false, vk: VK_ESCAPE };
    let mut hs = hook_state_with(Some(escape), None, true);
    let ev = KeyEvent { vk: VK_ESCAPE, is_keydown: true, is_sys: false };
    let (swallowed, slot) = after_cancel_request(&mut hs, ev, true);
    assert!(swallowed && slot.is_none());
    let (swallowed, slot) = after_cancel_request(&mut hs, ev, false);
    assert!(!swallowed && slot.is_some());
}

#[test]
fn the_hook_lives_as_long_as_there_is_a_slot() {
    let mut manager = WindowsHotkeyManager::new();
    let mut hs: State = HookState::default();
    let refused = manager.register_spec_slot(
        &mut hs,
        default_primary(),
        dummy_callback(),
        SlotKind::Primary,
        Err("denied".to_string()),
    );
    assert!(refused.unwrap_err().to_string().ends_with("failed to set hook: denied"));
    assert!(!manager.is_registered() && hs.primary.is_none());
    manager
        .register_spec_slot(&mut hs, default_primary(), dummy_callback(), SlotKind::Primary, Ok(7))
        .unwrap();
    let clash = manager.register_spec_slot(
        &mut hs,
        default_primary(),
        dummy_callback(),
        SlotKind::RecordOnly,
        Ok(8),
    );
    assert!(clash.is_err() && hs.record_only.is_none());
    manager.register_cancel_esc(&mut hs, Arc::new(|| true));
    assert_eq!(manager.clear_spec_slot(&mut hs, SlotKind::Primary), None);
    assert!(manager.is_registered());
    hs.cancel_esc = None;
    assert_eq!(manager.clear_spec_slot(&mut hs, SlotKind::RecordOnly), Some(7));
    assert!(!manager.is_registered());
    manager.ensure_hook(Ok(9)).unwrap();
    manager.ensure_hook(Err("ignored".to_string())).unwrap();
    assert_eq!(manager.hook_handle(), Some(9));
    assert!(manager.unregister(&mut hs, Ok(())).is_ok());
    assert!(all_slots_empty(&hs) && !manager.is_registered());
}

#[test]
fn slots_outlive_a_hook_that_cannot_be_removed() {
    let mut manager = WindowsHotkeyManager::new();
    let mut hs = hook_state_with(Some(default_primary()), None, true);
    assert!(manager.unregister(&mut hs, Err("no hook".to_string())).is_ok());
    assert!(all_slots_empty(&hs));
    let mut hs = hook_state_with(Some(default_primary()), None, true);
    manager.ensure_hook(Ok(7)).unwrap();
    let e = manager.unregister(&mut hs, Err("denied".to_string())).unwrap_err();
    assert_eq!(e.to_string(), "hotkey error: failed to unhook: denied");
    assert!(!all_slots_empty(&hs) && !manager.is_registered());
    assert!(WindowsHotkeyManager::hook_removed(Ok(())).is_ok());
}
