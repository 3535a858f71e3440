//! Names of keys.

use dl_voice_typing::hotkey::keys::{
    from_key_name, is_resolvable_vk, parse_key_code, vk_to_key_name,
};

#[test]
fn keys_are_found_by_name() {
    assert_eq!(from_key_name("RightCtrl"), Some(0xA3));
    assert_eq!(from_key_name("rctrl"), Some(0xA3));
    assert_eq!(from_key_name("LEFTALT"), Some(0xA4));
    assert_eq!(from_key_name("Esc"), Some(0x1B));
    assert_eq!(from_key_name("F1"), Some(0x70));
    assert_eq!(from_key_name("f9"), Some(0x78));
    assert_eq!(from_key_name("F12"), Some(0x7B));
    assert_eq!(from_key_name("a"), Some(0x41));
    assert_eq!(from_key_name("7"), Some(0x37));
    assert_eq!(parse_key_code("RightAlt"), Some(0xA5));
}

#[test]
fn other_names_stand_for_no_key() {
    for name in ["", "F0", "F13", "F99", "Ctrl", "ab", "VK0xFF", "键"] {
        assert_eq!(from_key_name(name), None, "{name}");
    }
}

#[test]
fn every_code_is_shown_by_a_name_that_leads_back_or_nowhere() {
    for vk in 0..0x200u32 {
        let name = vk_to_key_name(vk);
        let found = from_key_name(&name);
        assert_eq!(found, if is_resolvable_vk(vk) { Some(vk) } else { None }, "{name}");
    }
    assert_eq!(vk_to_key_name(0xFF), "VK0xFF");
    assert_eq!(vk_to_key_name(0), "VK0x0");
    assert!(!is_resolvable_vk(0));
}
