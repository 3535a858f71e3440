//! Hotkeys: key names, hotkey specifications and the routing of key events.

pub mod keys;
pub mod windows;

pub use keys::{from_key_name, is_resolvable_vk, parse_key_code, vk_to_key_name};

use vstd::prelude::*;

verus! {

/// Hotkey event types.
#[derive(Debug, Clone, Copy, PartialEq, Eq, Structural)]
pub enum HotkeyEvent {
    /// Hotkey was pressed (start recording).
    Pressed,
    /// Hotkey was released (stop recording).
    Released,
}

} // verus!
