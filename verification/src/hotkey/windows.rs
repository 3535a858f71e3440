//! Hotkey specifications and the routing of low-level keyboard events.
//!
//! The hook procedure translates a window message into a [`KeyEvent`] and asks [`route_event`]
//! what to do with it. The callbacks are opaque handles: `S` is called with a hotkey event, `C`
//! asks the pipeline to cancel and tells whether it did.

use crate::error::AppError;
use crate::hotkey::keys;
use crate::hotkey::HotkeyEvent;
use vstd::prelude::*;

verus! {

/// Hotkey specification: a main key and the modifiers that have to be held.
#[derive(Debug, Clone, Copy, PartialEq, Eq, Structural)]
pub struct HotkeySpec {
    pub ctrl: bool,
    pub shift: bool,
    pub alt: bool,
    pub vk: u32,
}

impl Default for HotkeySpec {
    fn default() -> (s: Self)
        ensures
            s == (HotkeySpec { ctrl: false, shift: false, alt: false, vk: 0 }),
    {
        HotkeySpec { ctrl: false, shift: false, alt: false, vk: 0 }
    }
}

/// The text of a specification: the modifiers in the order Ctrl, Shift, Alt, then the main key,
/// joined by plus signs.
pub open spec fn shown_spec(s: HotkeySpec) -> Seq<char> {
    (if s.ctrl {
        "Ctrl+"@
    } else {
        seq![]
    }) + (if s.shift {
        "Shift+"@
    } else {
        seq![]
    }) + (if s.alt {
        "Alt+"@
    } else {
        seq![]
    }) + keys::shown_name(s.vk)
}

impl HotkeySpec {
    /// Render the spec as a human-readable string. Examples:
    /// `RightCtrl` (no modifiers), `Ctrl+Shift+A`, `Ctrl+F9`.
    pub fn display(&self) -> (s: String)
        ensures
            s@ == shown_spec(*self),
    {
        let mut s = String::new();
        if self.ctrl {
            s.append("Ctrl+");
        }
        if self.shift {
            s.append("Shift+");
        }
        if self.alt {
            s.append("Alt+");
        }
        s.append(keys::vk_to_key_name(self.vk).as_str());
        assert(s@ =~= shown_spec(*self));
        s
    }

    /// The specification that an older configuration gives as a bare key name: that key with no
    /// modifiers.
    pub fn from_legacy_name(name: &str) -> (r: Result<HotkeySpec, AppError>)
        ensures
            match r {
                Ok(s) => keys::named_code(name@) == Some(s.vk) && !s.ctrl && !s.shift && !s.alt,
                Err(e) => keys::named_code(name@) is None && e is Config && e.detail()
                    == "unknown hotkey: "@ + name@,
            },
    {
        match keys::from_key_name(name) {
            Some(vk) => Ok(HotkeySpec { ctrl: false, shift: false, alt: false, vk }),
            None => Err(AppError::Config("unknown hotkey: ".to_owned().concat(name))),
        }
    }
}

/// Which modifiers are held, accumulated over key events.
#[derive(Debug, Clone, Copy, PartialEq, Eq, Structural)]
pub struct ModifiersDown {
    pub ctrl: bool,
    pub shift: bool,
    pub alt: bool,
}

/// No modifier is held.
pub open spec fn no_modifiers() -> ModifiersDown {
    ModifiersDown { ctrl: false, shift: false, alt: false }
}

impl Default for ModifiersDown {
    fn default() -> (m: Self)
        ensures
            m == no_modifiers(),
    {
        ModifiersDown { ctrl: false, shift: false, alt: false }
    }
}

pub open spec fn ctrl_key(vk: u32) -> bool {
    vk == 0xA2 || vk == 0xA3
}

pub open spec fn shift_key(vk: u32) -> bool {
    vk == 0xA0 || vk == 0xA1
}

pub open spec fn alt_key(vk: u32) -> bool {
    vk == 0xA4 || vk == 0xA5
}

pub fn is_ctrl_vk(vk: u32) -> (r: bool)
    ensures
        r == ctrl_key(vk),
{
    vk == 0xA2 || vk == 0xA3
}

pub fn is_shift_vk(vk: u32) -> (r: bool)
    ensures
        r == shift_key(vk),
{
    vk == 0xA0 || vk == 0xA1
}

pub fn is_alt_vk(vk: u32) -> (r: bool)
    ensures
        r == alt_key(vk),
{
    vk == 0xA4 || vk == 0xA5
}

/// The modifiers held after one key event.
pub open spec fn mods_after(m: ModifiersDown, vk: u32, is_keydown: bool) -> ModifiersDown {
    ModifiersDown {
        ctrl: if ctrl_key(vk) {
            is_keydown
        } else {
            m.ctrl
        },
        shift: if shift_key(vk) {
            is_keydown
        } else {
            m.shift
        },
        alt: if alt_key(vk) {
            is_keydown
        } else {
            m.alt
        },
    }
}

/// Update the modifier state for one key event. Key repeat is idempotent, other keys change
/// nothing.
pub fn update_modifiers(mods: &mut ModifiersDown, vk: u32, is_keydown: bool)
    ensures
        *final(mods) == mods_after(*old(mods), vk, is_keydown),
{
    if is_ctrl_vk(vk) {
        mods.ctrl = is_keydown;
    } else if is_shift_vk(vk) {
        mods.shift = is_keydown;
    } else if is_alt_vk(vk) {
        mods.alt = is_keydown;
    }
}

/// The held modifiers are exactly those of the specification, where a modifier that belongs to
/// the same family as the main key counts as not held.
pub open spec fn satisfies(spec: HotkeySpec, m: ModifiersDown) -> bool {
    &&& spec.ctrl == (m.ctrl && !ctrl_key(spec.vk))
    &&& spec.shift == (m.shift && !shift_key(spec.vk))
    &&& spec.alt == (m.alt && !alt_key(spec.vk))
}

pub fn modifiers_match(spec: &HotkeySpec, mods: ModifiersDown) -> (r: bool)
    ensures
        r == satisfies(*spec, mods),
{
    spec.ctrl == (mods.ctrl && !is_ctrl_vk(spec.vk)) && spec.shift == (mods.shift && !is_shift_vk(
        spec.vk,
    )) && spec.alt == (mods.alt && !is_alt_vk(spec.vk))
}

/// State of the keyboard hook: the primary hotkey, the record-only hotkey and the Esc-cancel
/// dispatcher, with the modifiers held so far.
pub struct HookState<S, C> {
    pub primary: Option<(HotkeySpec, S)>,
    pub record_only: Option<(HotkeySpec, S)>,
    pub cancel_esc: Option<C>,
    pub mods: ModifiersDown,
}

impl<S, C> Default for HookState<S, C> {
    fn default() -> (h: Self)
        ensures
            h == (HookState::<S, C> {
                primary: None,
                record_only: None,
                cancel_esc: None,
                mods: no_modifiers(),
            }),
    {
        HookState { primary: None, record_only: None, cancel_esc: None, mods: ModifiersDown::default() }
    }
}

/// Identifies one of the two slots that hold a hotkey.
#[derive(Debug, Clone, Copy, PartialEq, Eq, Structural)]
pub enum SlotKind {
    Primary,
    RecordOnly,
}

/// Whether a hotkey answers to a key event: a key-down needs the main key with exactly the
/// modifiers of the specification, a key-up only the main key.
pub open spec fn responds(spec: HotkeySpec, vk: u32, m: ModifiersDown, is_keydown: bool) -> bool {
    spec.vk == vk && (!is_keydown || satisfies(spec, m))
}

impl<S, C> HookState<S, C> {
    /// The slot that answers to a key event; the primary slot goes first.
    pub open spec fn slot_for(self, vk: u32, m: ModifiersDown, is_keydown: bool) -> Option<S> {
        if self.primary is Some && responds((self.primary->0).0, vk, m, is_keydown) {
            Some((self.primary->0).1)
        } else if self.record_only is Some && responds((self.record_only->0).0, vk, m, is_keydown) {
            Some((self.record_only->0).1)
        } else {
            None
        }
    }

    /// No slot is filled.
    pub open spec fn vacant(self) -> bool {
        self.primary is None && self.record_only is None && self.cancel_esc is None
    }

    /// The state after the modifiers took note of a key event.
    pub open spec fn noted(self, vk: u32, is_keydown: bool) -> Self {
        HookState { mods: mods_after(self.mods, vk, is_keydown), ..self }
    }
}

/// `found` is a clone of `wanted`, or both are absent.
pub open spec fn handed_out<S: Clone>(wanted: Option<S>, found: Option<S>) -> bool {
    match (wanted, found) {
        (Some(w), Some(f)) => cloned::<S>(w, f),
        (None, None) => true,
        _ => false,
    }
}

/// Dispatch a virtual key code to the matching slot's callback.
pub fn find_callback<S: Clone, C>(
    hs: &HookState<S, C>,
    vk: u32,
    mods: ModifiersDown,
    is_keydown: bool,
) -> (r: Option<S>)
    ensures
        handed_out(hs.slot_for(vk, mods, is_keydown), r),
{
    if let Some((spec, cb)) = &hs.primary {
        if spec.vk == vk && (!is_keydown || modifiers_match(spec, mods)) {
            return Some(cb.clone());
        }
    }
    if let Some((spec, cb)) = &hs.record_only {
        if spec.vk == vk && (!is_keydown || modifiers_match(spec, mods)) {
            return Some(cb.clone());
        }
    }
    None
}

/// Process one key event against the accumulated modifier state and return the matched slot's
/// callback, if any.
pub fn dispatch_key_event<S: Clone, C>(
    hs: &mut HookState<S, C>,
    vk: u32,
    is_keydown: bool,
) -> (r: Option<S>)
    ensures
        *final(hs) == old(hs).noted(vk, is_keydown),
        handed_out(final(hs).slot_for(vk, final(hs).mods, is_keydown), r),
{
    update_modifiers(&mut hs.mods, vk, is_keydown);
    find_callback(hs, vk, hs.mods, is_keydown)
}

/// Whether all three slots are empty, so that the hook can be removed.
pub fn all_slots_empty<S, C>(hs: &HookState<S, C>) -> (r: bool)
    ensures
        r == hs.vacant(),
{
    hs.primary.is_none() && hs.record_only.is_none() && hs.cancel_esc.is_none()
}

/// Whether a new hotkey for `slot` would equal the hotkey in the other slot.
pub open spec fn conflicts<S, C>(spec: HotkeySpec, hs: HookState<S, C>, slot: SlotKind) -> bool {
    match slot {
        SlotKind::Primary => hs.record_only is Some && (hs.record_only->0).0 == spec,
        SlotKind::RecordOnly => hs.primary is Some && (hs.primary->0).0 == spec,
    }
}

/// What a conflict is reported as.
pub open spec fn conflict_message(slot: SlotKind) -> Seq<char> {
    match slot {
        SlotKind::Primary => "primary hotkey must differ from the record-only hotkey"@,
        SlotKind::RecordOnly => "record-only hotkey must differ from the primary hotkey"@,
    }
}

/// Cross-slot conflict check: a new hotkey is rejected when it equals the one in the other slot.
pub fn validate_no_conflict<S, C>(
    spec: HotkeySpec,
    hs: &HookState<S, C>,
    self_slot: SlotKind,
) -> (r: Result<(), AppError>)
    ensures
        match r {
            Ok(_) => !conflicts(spec, *hs, self_slot),
            Err(e) => conflicts(spec, *hs, self_slot) && e is Hotkey && e.detail()
                == conflict_message(self_slot),
        },
{
    match self_slot {
        SlotKind::Primary => {
            if let Some((other, _)) = &hs.record_only {
                if *other == spec {
                    return Err(
                        AppError::Hotkey(
                            "primary hotkey must differ from the record-only hotkey".to_owned(),
                        ),
                    );
                }
            }
        },
        SlotKind::RecordOnly => {
            if let Some((other, _)) = &hs.primary {
                if *other == spec {
                    return Err(
                        AppError::Hotkey(
                            "record-only hotkey must differ from the primary hotkey".to_owned(),
                        ),
                    );
                }
            }
        },
    }
    Ok(())
}

/// Esc-cancel swallow decision: only when a cancel callback is registered, the event is a
/// key-down and the callback handled the cancellation.
pub fn esc_should_swallow(has_slot: bool, is_keydown: bool, cancel_handled: bool) -> (r: bool)
    ensures
        r == (has_slot && is_keydown && cancel_handled),
{
    has_slot && is_keydown && cancel_handled
}

/// Decoded keyboard event.
#[derive(Debug, Clone, Copy, PartialEq, Eq, Structural)]
pub struct KeyEvent {
    pub vk: u32,
    pub is_keydown: bool,
    /// Alt-combined system event.
    pub is_sys: bool,
}

/// What the hook procedure does with an event.
pub enum HookAction<S, C> {
    /// Ask the cancel callback; swallow the event if it handled the cancellation, otherwise
    /// dispatch the event to the slots.
    EscCancel(C),
    /// Call a slot's callback with the event.
    Fire(S, HotkeyEvent),
    /// Pass the event on.
    Pass,
}

pub const VK_ESCAPE: u32 = 0x1B;

pub const WM_KEYDOWN: u32 = 0x0100;

pub const WM_KEYUP: u32 = 0x0101;

pub const WM_SYSKEYDOWN: u32 = 0x0104;

pub const WM_SYSKEYUP: u32 = 0x0105;

/// The hotkey event that a key event stands for.
pub open spec fn hotkey_event(is_keydown: bool) -> HotkeyEvent {
    if is_keydown {
        HotkeyEvent::Pressed
    } else {
        HotkeyEvent::Released
    }
}

/// A plain Esc key-down while a cancel dispatcher is registered.
pub open spec fn cancel_candidate<S, C>(hs: HookState<S, C>, ev: KeyEvent) -> bool {
    ev.vk == VK_ESCAPE && ev.is_keydown && !ev.is_sys && hs.cancel_esc is Some
}

/// Routing decision for one key event: Esc-cancel goes before the slot table.
pub fn route_event<S: Clone, C: Clone>(hs: &mut HookState<S, C>, ev: KeyEvent) -> (r: HookAction<
    S,
    C,
>)
    ensures
        cancel_candidate(*old(hs), ev) ==> *final(hs) == *old(hs) && (r matches HookAction::EscCancel(
            c,
        ) && cloned::<C>(old(hs).cancel_esc->0, c)),
        !cancel_candidate(*old(hs), ev) ==> *final(hs) == old(hs).noted(ev.vk, ev.is_keydown) && ({
            let slot = final(hs).slot_for(ev.vk, final(hs).mods, ev.is_keydown);
            match r {
                HookAction::EscCancel(_) => false,
                HookAction::Fire(s, e) => slot is Some && cloned::<S>(slot->0, s) && e
                    == hotkey_event(ev.is_keydown),
                HookAction::Pass => slot is None,
            }
        }),
{
    if ev.vk == VK_ESCAPE && ev.is_keydown && !ev.is_sys {
        if let Some(cb) = &hs.cancel_esc {
            return HookAction::EscCancel(cb.clone());
        }
    }
    if let Some(cb) = dispatch_key_event(hs, ev.vk, ev.is_keydown) {
        return HookAction::Fire(
            cb,
            if ev.is_keydown {
                HotkeyEvent::Pressed
            } else {
                HotkeyEvent::Released
            },
        );
    }
    HookAction::Pass
}

/// The second half of Esc-cancel: once the cancel callback has answered, the event is swallowed, or
/// goes to the slots after all. Says whether it is swallowed, and which slot answers to it.
pub fn after_cancel_request<S: Clone, C>(
    hs: &mut HookState<S, C>,
    ev: KeyEvent,
    handled: bool,
) -> (r: (bool, Option<S>))
    ensures
        r.0 == (ev.is_keydown && handled),
        r.0 ==> *final(hs) == *old(hs) && r.1 is None,
        !r.0 ==> *final(hs) == old(hs).noted(ev.vk, ev.is_keydown) && handed_out(
            final(hs).slot_for(ev.vk, final(hs).mods, ev.is_keydown),
            r.1,
        ),
{
    if esc_should_swallow(true, ev.is_keydown, handled) {
        (true, None)
    } else {
        (false, dispatch_key_event(hs, ev.vk, ev.is_keydown))
    }
}

/// Map a window message id to a key event. Other messages yield `None`.
pub fn decode_key_event(w_param: u32, vk: u32) -> (r: Option<KeyEvent>)
    ensures
        r == (if w_param == WM_KEYDOWN || w_param == WM_KEYUP || w_param == WM_SYSKEYDOWN || w_param
            == WM_SYSKEYUP {
            Some(
                KeyEvent {
                    vk,
                    is_keydown: w_param == WM_KEYDOWN || w_param == WM_SYSKEYDOWN,
                    is_sys: w_param == WM_SYSKEYDOWN || w_param == WM_SYSKEYUP,
                },
            )
        } else {
            None
        }),
{
    if w_param == WM_KEYDOWN {
        Some(KeyEvent { vk, is_keydown: true, is_sys: false })
    } else if w_param == WM_SYSKEYDOWN {
        Some(KeyEvent { vk, is_keydown: true, is_sys: true })
    } else if w_param == WM_KEYUP {
        Some(KeyEvent { vk, is_keydown: false, is_sys: false })
    } else if w_param == WM_SYSKEYUP {
        Some(KeyEvent { vk, is_keydown: false, is_sys: true })
    } else {
        None
    }
}

/// The flag bit of an event that another program synthesised.
pub const LLKHF_INJECTED: u32 = 0x10;

/// What the hook procedure acts on: nothing for a negative hook code or for a synthesised event,
/// else the decoded event.
pub fn accept_key_event(n_code: i32, flags: u32, w_param: u32, vk: u32) -> (r: Option<KeyEvent>)
    ensures
        n_code < 0 || flags & LLKHF_INJECTED != 0 ==> r is None,
        n_code >= 0 && flags & LLKHF_INJECTED == 0 ==> (r is Some <==> (w_param == WM_KEYDOWN || w_param == WM_KEYUP
            || w_param == WM_SYSKEYDOWN || w_param == WM_SYSKEYUP)),
        r matches Some(ev) ==> ev.vk == vk && ev.is_keydown == (w_param == WM_KEYDOWN || w_param
            == WM_SYSKEYDOWN) && ev.is_sys == (w_param == WM_SYSKEYDOWN || w_param == WM_SYSKEYUP),
{
    if n_code < 0 || flags & LLKHF_INJECTED != 0 {
        None
    } else {
        decode_key_event(w_param, vk)
    }
}

/// Owner of the low-level keyboard hook; the handle is the operating system's.
pub struct WindowsHotkeyManager {
    hook: Option<isize>,
}

impl View for WindowsHotkeyManager {
    type V = Option<isize>;

    closed spec fn view(&self) -> Option<isize> {
        self.hook
    }
}

/// The hook handle after an attempt to make sure that there is one: an installed hook stays, else
/// the handle that the operating system gave is taken.
pub open spec fn hook_after(hook: Option<isize>, installed: Result<isize, String>) -> Option<isize> {
    match (hook, installed) {
        (None, Ok(h)) => Some(h),
        _ => hook,
    }
}

impl WindowsHotkeyManager {
    pub fn new() -> (m: Self)
        ensures
            m@ is None,
    {
        WindowsHotkeyManager { hook: None }
    }

    /// Whether the hook is installed.
    pub fn is_registered(&self) -> (r: bool)
        ensures
            r == (self@ is Some),
    {
        self.hook.is_some()
    }

    /// Take the hook that was asked of the operating system, unless one is installed already.
    pub fn ensure_hook(&mut self, installed: Result<isize, String>) -> (r: Result<(), AppError>)
        ensures
            final(self)@ == hook_after(old(self)@, installed),
            match r {
                Ok(_) => final(self)@ is Some,
                Err(e) => old(self)@ is None && installed is Err && e is Hotkey && e.detail()
                    == "failed to set hook: "@ + installed->Err_0@,
            },
    {
        if self.hook.is_some() {
            return Ok(());
        }
        match installed {
            Ok(h) => {
                self.hook = Some(h);
                Ok(())
            },
            Err(e) => Err(
                AppError::Hotkey("failed to set hook: ".to_owned().concat(e.as_str())),
            ),
        }
    }

    /// Fill a hotkey slot: the hook is ensured first, then the new hotkey must differ from the one
    /// in the other slot. `installed` is the operating system's answer to the request for a hook,
    /// which is only looked at while none is installed.
    pub fn register_spec_slot<S, C>(
        &mut self,
        hs: &mut HookState<S, C>,
        spec: HotkeySpec,
        callback: S,
        slot: SlotKind,
        installed: Result<isize, String>,
    ) -> (r: Result<(), AppError>)
        ensures
            final(self)@ == hook_after(old(self)@, installed),
            match r {
                Ok(_) => {
                    &&& final(self)@ is Some
                    &&& !conflicts(spec, *old(hs), slot)
                    &&& *final(hs) == (match slot {
                        SlotKind::Primary => HookState {
                            primary: Some((spec, callback)),
                            ..*old(hs)
                        },
                        SlotKind::RecordOnly => HookState {
                            record_only: Some((spec, callback)),
                            ..*old(hs)
                        },
                    })
                },
                Err(e) => {
                    &&& *final(hs) == *old(hs)
                    &&& e is Hotkey
                    &&& if final(self)@ is None {
                        installed is Err && e.detail() == "failed to set hook: "@
                            + installed->Err_0@
                    } else {
                        conflicts(spec, *old(hs), slot) && e.detail() == conflict_message(slot)
                    }
                },
            },
    {
        if let Err(e) = self.ensure_hook(installed) {
            return Err(e);
        }
        if let Err(e) = validate_no_conflict(spec, hs, slot) {
            return Err(e);
        }
        match slot {
            SlotKind::Primary => {
                hs.primary = Some((spec, callback));
            },
            SlotKind::RecordOnly => {
                hs.record_only = Some((spec, callback));
            },
        }
        Ok(())
    }

    /// Register the Esc-to-cancel dispatcher. The hook itself is left to the hotkeys.
    pub fn register_cancel_esc<S, C>(&mut self, hs: &mut HookState<S, C>, callback: C)
        ensures
            final(self)@ == old(self)@,
            *final(hs) == (HookState { cancel_esc: Some(callback), ..*old(hs) }),
    {
        hs.cancel_esc = Some(callback);
    }

    /// Clear one hotkey slot. When that leaves all three slots empty the hook is given up: the
    /// handle comes back for the operating system to remove.
    pub fn clear_spec_slot<S, C>(&mut self, hs: &mut HookState<S, C>, slot: SlotKind) -> (r: Option<
        isize,
    >)
        ensures
            *final(hs) == (match slot {
                SlotKind::Primary => HookState { primary: None, ..*old(hs) },
                SlotKind::RecordOnly => HookState { record_only: None, ..*old(hs) },
            }),
            final(hs).vacant() ==> r == old(self)@ && final(self)@ is None,
            !final(hs).vacant() ==> r is None && final(self)@ == old(self)@,
    {
        match slot {
            SlotKind::Primary => {
                hs.primary = None;
            },
            SlotKind::RecordOnly => {
                hs.record_only = None;
            },
        }
        if all_slots_empty(hs) {
            self.hook.take()
        } else {
            None
        }
    }

    /// The handle of the installed hook, which the operating system is asked to remove.
    pub fn hook_handle(&self) -> (r: Option<isize>)
        ensures
            r == self@,
    {
        self.hook
    }

    /// What came of removing a hook that was given up.
    pub fn hook_removed(removed: Result<(), String>) -> (r: Result<(), AppError>)
        ensures
            match removed {
                Ok(_) => r is Ok,
                Err(m) => r matches Err(e) && e is Hotkey && e.detail() == "failed to unhook: "@ + m@,
            },
    {
        match removed {
            Ok(_) => Ok(()),
            Err(e) => Err(AppError::Hotkey("failed to unhook: ".to_owned().concat(e.as_str()))),
        }
    }

    /// Unregister everything. `removed` is what came of removing the hook, which is only looked at
    /// where one was installed. The hook is given up in any case; the slots are emptied unless it
    /// could not be removed.
    pub fn unregister<S, C>(&mut self, hs: &mut HookState<S, C>, removed: Result<(), String>) -> (r:
        Result<(), AppError>)
        ensures
            final(self)@ is None,
            old(self)@ is Some && removed is Err ==> {
                &&& r matches Err(e)
                &&& e is Hotkey
                &&& e.detail() == "failed to unhook: "@ + removed->Err_0@
                &&& *final(hs) == *old(hs)
            },
            old(self)@ is None || removed is Ok ==> {
                &&& r is Ok
                &&& final(hs).vacant()
                &&& final(hs).mods == no_modifiers()
            },
    {
        if self.hook.take().is_some() {
            if let Err(e) = Self::hook_removed(removed) {
                return Err(e);
            }
        }
        *hs = HookState::default();
        Ok(())
    }
}

impl Default for WindowsHotkeyManager {
    fn default() -> (m: Self)
        ensures
            m@ is None,
    {
        Self::new()
    }
}

/// The modifiers held after a series of key events, each a key code with whether it went down.
pub open spec fn mods_after_all(m: ModifiersDown, events: Seq<(u32, bool)>) -> ModifiersDown
    decreases events.len(),
{
    if events.len() == 0 {
        m
    } else {
        mods_after(mods_after_all(m, events.drop_last()), events.last().0, events.last().1)
    }
}

/// Holding a modifier is remembered across events: after a key of a modifier family went down, it
/// counts as held through any further events that are not of that family.
pub proof fn modifiers_persist_across_events(m: ModifiersDown, events: Seq<(u32, bool)>)
    ensures
        (forall|i: int| 0 <= i < events.len() ==> !ctrl_key((#[trigger] events[i]).0))
            ==> mods_after_all(m, events).ctrl == m.ctrl,
        (forall|i: int| 0 <= i < events.len() ==> !shift_key((#[trigger] events[i]).0))
            ==> mods_after_all(m, events).shift == m.shift,
        (forall|i: int| 0 <= i < events.len() ==> !alt_key((#[trigger] events[i]).0))
            ==> mods_after_all(m, events).alt == m.alt,
    decreases events.len(),
{
    if events.len() > 0 {
        let before = events.drop_last();
        modifiers_persist_across_events(m, before);
        assert(forall|i: int| 0 <= i < before.len() ==> before[i] == #[trigger] events[i]);
        assert(events.last() == events[events.len() - 1]);
    }
}

/// Every press that fires a hotkey is paired with its release: the key-up of the main key reaches
/// the same hotkey whatever modifiers are held by then, when no other slot has that main key.
pub proof fn release_reaches_the_pressed_hotkey<S, C>(
    hs: HookState<S, C>,
    vk: u32,
    at_press: ModifiersDown,
    at_release: ModifiersDown,
)
    requires
        hs.slot_for(vk, at_press, true) is Some,
        hs.primary is Some && hs.record_only is Some ==> (hs.primary->0).0.vk
            != (hs.record_only->0).0.vk,
    ensures
        hs.slot_for(vk, at_release, false) == hs.slot_for(vk, at_press, true),
{
}

/// A hotkey that is a bare modifier key fires on its own press, although that press also marks
/// the modifier as held.
pub proof fn bare_modifier_hotkey_fires(spec: HotkeySpec)
    requires
        ctrl_key(spec.vk) || shift_key(spec.vk) || alt_key(spec.vk),
        !spec.ctrl && !spec.shift && !spec.alt,
    ensures
        responds(spec, spec.vk, mods_after(no_modifiers(), spec.vk, true), true),
{
}

/// A hotkey fires when its key goes down with just its modifiers held: each that it names, and no
/// other, leaving out the family of the key itself.
pub proof fn a_hotkey_needs_just_its_modifiers(spec: HotkeySpec, mods: ModifiersDown, r: bool)
    requires
        call_ensures(modifiers_match, (&spec, mods), r),
    ensures
        spec.vk != 0xA0 && spec.vk != 0xA1 && spec.vk != 0xA2 && spec.vk != 0xA3 && spec.vk != 0xA4
            && spec.vk != 0xA5 ==> (r <==> spec.ctrl == mods.ctrl && spec.shift == mods.shift
            && spec.alt == mods.alt),
        spec.vk == 0xA2 || spec.vk == 0xA3 ==> (r <==> !spec.ctrl && spec.shift == mods.shift
            && spec.alt == mods.alt),
        spec.vk == 0xA0 || spec.vk == 0xA1 ==> (r <==> !spec.shift && spec.ctrl == mods.ctrl
            && spec.alt == mods.alt),
        spec.vk == 0xA4 || spec.vk == 0xA5 ==> (r <==> !spec.alt && spec.ctrl == mods.ctrl
            && spec.shift == mods.shift),
{
}

/// A modifier is held from when one of its two keys goes down until one goes up; no other key
/// changes that.
pub proof fn modifiers_are_held_until_released(
    mods: &mut ModifiersDown,
    vk: u32,
    down: bool,
    done: (),
)
    requires
        call_ensures(update_modifiers, (mods, vk, down), done),
    ensures
        vk == 0xA2 || vk == 0xA3 ==> final(mods).ctrl == down,
        vk == 0xA0 || vk == 0xA1 ==> final(mods).shift == down,
        vk == 0xA4 || vk == 0xA5 ==> final(mods).alt == down,
        vk != 0xA2 && vk != 0xA3 ==> final(mods).ctrl == old(mods).ctrl,
        vk != 0xA0 && vk != 0xA1 ==> final(mods).shift == old(mods).shift,
        vk != 0xA4 && vk != 0xA5 ==> final(mods).alt == old(mods).alt,
{
}

/// A key that goes down reaches the hotkey that it and the modifiers make up, that of dictation
/// first; one that goes up reaches the hotkey with this key whatever is held.
pub proof fn keys_reach_their_hotkey<S: Clone, C>(
    hs: HookState<S, C>,
    vk: u32,
    mods: ModifiersDown,
    down: bool,
    r: Option<S>,
    primary_fits: bool,
    record_fits: bool,
)
    requires
        call_ensures(find_callback::<S, C>, (&hs, vk, mods, down), r),
        hs.primary is Some ==> call_ensures(
            modifiers_match,
            (&(hs.primary->0).0, mods),
            primary_fits,
        ),
        hs.record_only is Some ==> call_ensures(
            modifiers_match,
            (&(hs.record_only->0).0, mods),
            record_fits,
        ),
    ensures
        ({
            let first = hs.primary is Some && (hs.primary->0).0.vk == vk && (!down || primary_fits);
            let second = hs.record_only is Some && (hs.record_only->0).0.vk == vk && (!down
                || record_fits);
            &&& r is Some <==> first || second
            &&& first ==> cloned::<S>((hs.primary->0).1, r->0)
            &&& !first && second ==> cloned::<S>((hs.record_only->0).1, r->0)
        }),
{
}

/// The Escape key asks for a cancellation where one can be asked for, before it reaches any hotkey;
/// every other event counts for the modifiers and reaches the hotkey that it makes up.
pub proof fn escape_cancels_first<S: Clone, C: Clone>(
    hs: &mut HookState<S, C>,
    ev: KeyEvent,
    r: HookAction<S, C>,
    found: Option<S>,
)
    requires
        call_ensures(route_event::<S, C>, (hs, ev), r),
        call_ensures(
            find_callback::<S, C>,
            (&*final(hs), ev.vk, final(hs).mods, ev.is_keydown),
            found,
        ),
    ensures
        ({
            let cancels = ev.vk == 0x1B && ev.is_keydown && !ev.is_sys && old(hs).cancel_esc is Some;
            &&& r is EscCancel <==> cancels
            &&& cancels ==> *final(hs) == *old(hs)
            &&& !cancels ==> (r is Fire <==> found is Some)
            &&& r matches HookAction::Fire(_, e) ==> (e is Pressed <==> ev.is_keydown)
            &&& !cancels ==> final(hs).primary == old(hs).primary && final(hs).record_only
                == old(hs).record_only && final(hs).cancel_esc == old(hs).cancel_esc
        }),
{
}

/// Where the cancellation was taken up, the Escape key goes no further; otherwise it goes to the
/// hotkeys as any other key.
pub proof fn escape_goes_on_where_nothing_was_cancelled<S: Clone, C>(
    hs: &mut HookState<S, C>,
    ev: KeyEvent,
    handled: bool,
    r: (bool, Option<S>),
    found: Option<S>,
)
    requires
        call_ensures(after_cancel_request::<S, C>, (hs, ev, handled), r),
        call_ensures(
            find_callback::<S, C>,
            (&*final(hs), ev.vk, final(hs).mods, ev.is_keydown),
            found,
        ),
    ensures
        r.0 <==> ev.is_keydown && handled,
        r.0 ==> r.1 is None && *final(hs) == *old(hs),
        !r.0 ==> (r.1 is Some <==> found is Some),
{
}

/// Events that another program made up, and those that the hook is not to look at, are left alone;
/// of the others, four messages are key events.
pub proof fn only_real_key_events_count(
    n_code: i32,
    flags: u32,
    w_param: u32,
    vk: u32,
    r: Option<KeyEvent>,
)
    requires
        call_ensures(accept_key_event, (n_code, flags, w_param, vk), r),
    ensures
        r is Some <==> n_code >= 0 && flags & 0x10 == 0 && (w_param == 0x100 || w_param == 0x101
            || w_param == 0x104 || w_param == 0x105),
        r matches Some(ev) ==> ev.vk == vk && (ev.is_keydown <==> w_param == 0x100 || w_param
            == 0x104) && (ev.is_sys <==> w_param == 0x104 || w_param == 0x105),
{
}

/// Two hotkeys that are the same cannot both be registered; one that can be takes the place of the
/// one before, and the other stays.
pub proof fn hotkeys_must_differ<S, C>(
    manager: &mut WindowsHotkeyManager,
    hs: &mut HookState<S, C>,
    spec: HotkeySpec,
    callback: S,
    slot: SlotKind,
    installed: Result<isize, String>,
    r: Result<(), AppError>,
)
    requires
        call_ensures(
            WindowsHotkeyManager::register_spec_slot::<S, C>,
            (manager, hs, spec, callback, slot, installed),
            r,
        ),
    ensures
        ({
            let hooked = old(manager)@ is Some || installed is Ok;
            let other = if slot is Primary {
                old(hs).record_only
            } else {
                old(hs).primary
            };
            let clash = other is Some && (other->0).0 == spec;
            &&& r is Ok <==> hooked && !clash
            &&& r is Err ==> *final(hs) == *old(hs) && r->Err_0 is Hotkey
            &&& r is Ok && slot is Primary ==> final(hs).primary == Some((spec, callback))
                && final(hs).record_only == old(hs).record_only
            &&& r is Ok && slot is RecordOnly ==> final(hs).record_only == Some((spec, callback))
                && final(hs).primary == old(hs).primary
            &&& final(hs).cancel_esc == old(hs).cancel_esc && final(hs).mods == old(hs).mods
            &&& final(manager)@ is Some <==> hooked
            &&& old(manager)@ is Some ==> final(manager)@ == old(manager)@
            &&& old(manager)@ is None && installed is Ok ==> final(manager)@ == Some(
                installed->Ok_0,
            )
        }),
{
}

/// Clearing a hotkey leaves everything else in place; with nothing left to watch for, the hook is
/// given up.
pub proof fn the_hook_goes_with_the_last_hotkey<S, C>(
    manager: &mut WindowsHotkeyManager,
    hs: &mut HookState<S, C>,
    slot: SlotKind,
    r: Option<isize>,
)
    requires
        call_ensures(
            WindowsHotkeyManager::clear_spec_slot::<S, C>,
            (manager, hs, slot),
            r,
        ),
    ensures
        slot is Primary ==> final(hs).primary is None && final(hs).record_only
            == old(hs).record_only,
        slot is RecordOnly ==> final(hs).record_only is None && final(hs).primary
            == old(hs).primary,
        final(hs).cancel_esc == old(hs).cancel_esc && final(hs).mods == old(hs).mods,
        ({
            let last = final(hs).primary is None && final(hs).record_only is None
                && final(hs).cancel_esc is None;
            &&& last ==> r == old(manager)@ && final(manager)@ is None
            &&& !last ==> r is None && final(manager)@ == old(manager)@
        }),
{
}

/// Unregistering everything leaves no hotkey, no dispatcher and no held modifier, unless the hook
/// could not be removed.
pub proof fn unregistering_leaves_nothing<S, C>(
    manager: &mut WindowsHotkeyManager,
    hs: &mut HookState<S, C>,
    removed: Result<(), String>,
    r: Result<(), AppError>,
)
    requires
        call_ensures(WindowsHotkeyManager::unregister::<S, C>, (manager, hs, removed), r),
    ensures
        final(manager)@ is None,
        r is Err <==> old(manager)@ is Some && removed is Err,
        r is Ok ==> final(hs).primary is None && final(hs).record_only is None
            && final(hs).cancel_esc is None && !final(hs).mods.ctrl && !final(hs).mods.shift
            && !final(hs).mods.alt,
        r is Err ==> *final(hs) == *old(hs),
{
}

/// A hotkey is shown as its modifiers, in the order Ctrl, Shift, Alt, and its key, with plus signs
/// between them. An older configuration names just a key.
pub proof fn hotkeys_are_shown_with_their_modifiers(
    spec: HotkeySpec,
    shown: String,
    key: String,
    name: &str,
    legacy: Result<HotkeySpec, AppError>,
    code: Option<u32>,
)
    requires
        call_ensures(HotkeySpec::display, (&spec,), shown),
        call_ensures(keys::vk_to_key_name, (spec.vk,), key),
        call_ensures(HotkeySpec::from_legacy_name, (name,), legacy),
        call_ensures(keys::from_key_name, (name,), code),
    ensures
        shown@ == (if spec.ctrl {
            "Ctrl+"@
        } else {
            ""@
        }) + (if spec.shift {
            "Shift+"@
        } else {
            ""@
        }) + (if spec.alt {
            "Alt+"@
        } else {
            ""@
        }) + key@,
        legacy is Ok <==> code is Some,
        legacy matches Ok(s) ==> s.vk == code->0 && !s.ctrl && !s.shift && !s.alt,
{
    reveal_strlit("");
    assert(""@ =~= Seq::<char>::empty());
}

/// Every key event that is not held back counts for the modifiers, and then reaches the hotkey that
/// it makes up.
pub proof fn events_count_before_they_reach_a_hotkey<S: Clone, C: Clone>(
    hs: &mut HookState<S, C>,
    vk: u32,
    down: bool,
    r: Option<S>,
    routed: &mut HookState<S, C>,
    ev: KeyEvent,
    action: HookAction<S, C>,
)
    requires
        call_ensures(dispatch_key_event::<S, C>, (hs, vk, down), r),
        call_ensures(route_event::<S, C>, (routed, ev), action),
        !(action is EscCancel),
    ensures
        vk == 0xA2 || vk == 0xA3 ==> final(hs).mods.ctrl == down,
        vk == 0xA0 || vk == 0xA1 ==> final(hs).mods.shift == down,
        vk == 0xA4 || vk == 0xA5 ==> final(hs).mods.alt == down,
        final(hs).primary == old(hs).primary && final(hs).record_only == old(hs).record_only,
        final(hs).cancel_esc == old(hs).cancel_esc,
        ({
            let first = old(hs).primary is Some && (old(hs).primary->0).0.vk == vk;
            let second = old(hs).record_only is Some && (old(hs).record_only->0).0.vk == vk;
            &&& r is Some ==> first || second
            &&& !down ==> (r is Some <==> first || second)
            &&& !down && first ==> cloned::<S>((old(hs).primary->0).1, r->0)
            &&& !down && !first && second ==> cloned::<S>((old(hs).record_only->0).1, r->0)
        }),
        ev.vk == 0xA2 || ev.vk == 0xA3 ==> final(routed).mods.ctrl == ev.is_keydown,
        ev.vk == 0xA0 || ev.vk == 0xA1 ==> final(routed).mods.shift == ev.is_keydown,
        ev.vk == 0xA4 || ev.vk == 0xA5 ==> final(routed).mods.alt == ev.is_keydown,
        action matches HookAction::Fire(s, _) ==> (final(routed).primary is Some && (
        final(routed).primary->0).0.vk == ev.vk && cloned::<S>((final(routed).primary->0).1, s)) || (
        final(routed).record_only is Some && (final(routed).record_only->0).0.vk == ev.vk
            && cloned::<S>((final(routed).record_only->0).1, s)),
{
}

} // verus!
