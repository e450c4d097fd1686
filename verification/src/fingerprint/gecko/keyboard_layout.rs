//! `navigator.keyboard.getLayoutMap()`: one locked US-QWERTY map in both
//! modes, so the host's keyboard layout is not observable.
use vstd::prelude::*;
use crate::config::schema::Mode;
use crate::fingerprint::interface::{FingerprintOverride, OverrideContext, WebIdlSurface};

verus! {

/// One `code → key value` entry of a layout map.
#[derive(Debug, Clone, Copy, PartialEq, Eq, Hash)]
pub struct KeyboardKeyEntry {
    pub code: &'static str,
    pub value: &'static str,
}

/// The US-QWERTY entries: letters, digits, then punctuation and space.
pub open spec fn spec_us_qwerty_layout() -> Seq<KeyboardKeyEntry> {
    seq![
        KeyboardKeyEntry { code: "KeyQ", value: "q" },
        KeyboardKeyEntry { code: "KeyW", value: "w" },
        KeyboardKeyEntry { code: "KeyE", value: "e" },
        KeyboardKeyEntry { code: "KeyR", value: "r" },
        KeyboardKeyEntry { code: "KeyT", value: "t" },
        KeyboardKeyEntry { code: "KeyY", value: "y" },
        KeyboardKeyEntry { code: "KeyU", value: "u" },
        KeyboardKeyEntry { code: "KeyI", value: "i" },
        KeyboardKeyEntry { code: "KeyO", value: "o" },
        KeyboardKeyEntry { code: "KeyP", value: "p" },
        KeyboardKeyEntry { code: "KeyA", value: "a" },
        KeyboardKeyEntry { code: "KeyS", value: "s" },
        KeyboardKeyEntry { code: "KeyD", value: "d" },
        KeyboardKeyEntry { code: "KeyF", value: "f" },
        KeyboardKeyEntry { code: "KeyG", value: "g" },
        KeyboardKeyEntry { code: "KeyH", value: "h" },
        KeyboardKeyEntry { code: "KeyJ", value: "j" },
        KeyboardKeyEntry { code: "KeyK", value: "k" },
        KeyboardKeyEntry { code: "KeyL", value: "l" },
        KeyboardKeyEntry { code: "KeyZ", value: "z" },
        KeyboardKeyEntry { code: "KeyX", value: "x" },
        KeyboardKeyEntry { code: "KeyC", value: "c" },
        KeyboardKeyEntry { code: "KeyV", value: "v" },
        KeyboardKeyEntry { code: "KeyB", value: "b" },
        KeyboardKeyEntry { code: "KeyN", value: "n" },
        KeyboardKeyEntry { code: "KeyM", value: "m" },
        KeyboardKeyEntry { code: "Digit0", value: "0" },
        KeyboardKeyEntry { code: "Digit1", value: "1" },
        KeyboardKeyEntry { code: "Digit2", value: "2" },
        KeyboardKeyEntry { code: "Digit3", value: "3" },
        KeyboardKeyEntry { code: "Digit4", value: "4" },
        KeyboardKeyEntry { code: "Digit5", value: "5" },
        KeyboardKeyEntry { code: "Digit6", value: "6" },
        KeyboardKeyEntry { code: "Digit7", value: "7" },
        KeyboardKeyEntry { code: "Digit8", value: "8" },
        KeyboardKeyEntry { code: "Digit9", value: "9" },
        KeyboardKeyEntry { code: "Semicolon", value: ";" },
        KeyboardKeyEntry { code: "Quote", value: "'" },
        KeyboardKeyEntry { code: "Comma", value: "," },
        KeyboardKeyEntry { code: "Period", value: "." },
        KeyboardKeyEntry { code: "Slash", value: "/" },
        KeyboardKeyEntry { code: "Backslash", value: "\\" },
        KeyboardKeyEntry { code: "BracketLeft", value: "[" },
        KeyboardKeyEntry { code: "BracketRight", value: "]" },
        KeyboardKeyEntry { code: "Minus", value: "-" },
        KeyboardKeyEntry { code: "Equal", value: "=" },
        KeyboardKeyEntry { code: "Backquote", value: "`" },
        KeyboardKeyEntry { code: "Space", value: " " },
    ]
}

pub fn us_qwerty_layout() -> (r: &'static [KeyboardKeyEntry])
    ensures
        r@ == spec_us_qwerty_layout(),
{
    &[
        KeyboardKeyEntry { code: "KeyQ", value: "q" },
        KeyboardKeyEntry { code: "KeyW", value: "w" },
        KeyboardKeyEntry { code: "KeyE", value: "e" },
        KeyboardKeyEntry { code: "KeyR", value: "r" },
        KeyboardKeyEntry { code: "KeyT", value: "t" },
        KeyboardKeyEntry { code: "KeyY", value: "y" },
        KeyboardKeyEntry { code: "KeyU", value: "u" },
        KeyboardKeyEntry { code: "KeyI", value: "i" },
        KeyboardKeyEntry { code: "KeyO", value: "o" },
        KeyboardKeyEntry { code: "KeyP", value: "p" },
        KeyboardKeyEntry { code: "KeyA", value: "a" },
        KeyboardKeyEntry { code: "KeyS", value: "s" },
        KeyboardKeyEntry { code: "KeyD", value: "d" },
        KeyboardKeyEntry { code: "KeyF", value: "f" },
        KeyboardKeyEntry { code: "KeyG", value: "g" },
        KeyboardKeyEntry { code: "KeyH", value: "h" },
        KeyboardKeyEntry { code: "KeyJ", value: "j" },
        KeyboardKeyEntry { code: "KeyK", value: "k" },
        KeyboardKeyEntry { code: "KeyL", value: "l" },
        KeyboardKeyEntry { code: "KeyZ", value: "z" },
        KeyboardKeyEntry { code: "KeyX", value: "x" },
        KeyboardKeyEntry { code: "KeyC", value: "c" },
        KeyboardKeyEntry { code: "KeyV", value: "v" },
        KeyboardKeyEntry { code: "KeyB", value: "b" },
        KeyboardKeyEntry { code: "KeyN", value: "n" },
        KeyboardKeyEntry { code: "KeyM", value: "m" },
        KeyboardKeyEntry { code: "Digit0", value: "0" },
        KeyboardKeyEntry { code: "Digit1", value: "1" },
        KeyboardKeyEntry { code: "Digit2", value: "2" },
        KeyboardKeyEntry { code: "Digit3", value: "3" },
        KeyboardKeyEntry { code: "Digit4", value: "4" },
        KeyboardKeyEntry { code: "Digit5", value: "5" },
        KeyboardKeyEntry { code: "Digit6", value: "6" },
        KeyboardKeyEntry { code: "Digit7", value: "7" },
        KeyboardKeyEntry { code: "Digit8", value: "8" },
        KeyboardKeyEntry { code: "Digit9", value: "9" },
        KeyboardKeyEntry { code: "Semicolon", value: ";" },
        KeyboardKeyEntry { code: "Quote", value: "'" },
        KeyboardKeyEntry { code: "Comma", value: "," },
        KeyboardKeyEntry { code: "Period", value: "." },
        KeyboardKeyEntry { code: "Slash", value: "/" },
        KeyboardKeyEntry { code: "Backslash", value: "\\" },
        KeyboardKeyEntry { code: "BracketLeft", value: "[" },
        KeyboardKeyEntry { code: "BracketRight", value: "]" },
        KeyboardKeyEntry { code: "Minus", value: "-" },
        KeyboardKeyEntry { code: "Equal", value: "=" },
        KeyboardKeyEntry { code: "Backquote", value: "`" },
        KeyboardKeyEntry { code: "Space", value: " " },
    ]
}

/// Per-mode layout policy: locked in both modes.
#[derive(Debug, Clone, Copy, PartialEq, Eq, Hash)]
pub enum KeyboardLayoutPolicy {
    Locked(&'static [KeyboardKeyEntry]),
}

pub open spec fn is_keyboard_policy_for(mode: Mode, p: KeyboardLayoutPolicy) -> bool {
    p->0@ == spec_us_qwerty_layout()
}

impl KeyboardLayoutPolicy {
    pub fn for_mode(mode: Mode) -> (r: Self)
        ensures
            is_keyboard_policy_for(mode, r),
    {
        KeyboardLayoutPolicy::Locked(us_qwerty_layout())
    }
}

/// Every keyboard pathway the bridge must wire.
#[derive(Debug, Clone, Copy, PartialEq, Eq, Hash, Structural)]
pub enum KeyboardLayoutSurface {
    GetLayoutMap,
    KeyboardLock,
}

pub open spec fn all_keyboard_layout_surfaces() -> Seq<KeyboardLayoutSurface> {
    seq![
        KeyboardLayoutSurface::GetLayoutMap,
        KeyboardLayoutSurface::KeyboardLock,
    ]
}

impl KeyboardLayoutSurface {
    pub fn all() -> (r: &'static [KeyboardLayoutSurface])
        ensures
            r@ == all_keyboard_layout_surfaces(),
    {
        &[
            KeyboardLayoutSurface::GetLayoutMap,
            KeyboardLayoutSurface::KeyboardLock,
        ]
    }
}

/// The override, with its policy resolved once at construction.
#[derive(Debug, Clone, Copy)]
pub struct KeyboardLayoutOverride {
    policy: KeyboardLayoutPolicy,
}

impl KeyboardLayoutOverride {
    pub closed spec fn spec_policy(&self) -> KeyboardLayoutPolicy {
        self.policy
    }

    pub fn new(mode: Mode) -> (r: Self)
        ensures
            is_keyboard_policy_for(mode, r.spec_policy()),
    {
        KeyboardLayoutOverride { policy: KeyboardLayoutPolicy::for_mode(mode) }
    }

    pub fn policy(&self) -> (r: KeyboardLayoutPolicy)
        ensures
            r == self.spec_policy(),
    {
        self.policy
    }
}

impl FingerprintOverride for KeyboardLayoutOverride {
    fn surface(&self) -> (r: WebIdlSurface)
        ensures
            r == WebIdlSurface::KeyboardLayoutMap,
    {
        WebIdlSurface::KeyboardLayoutMap
    }

    fn install(&self, ctx: &OverrideContext) {
    }
}

} // verus!
