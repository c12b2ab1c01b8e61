//! Interpretation of macOS keyboard events: hardware scancodes, logical keys, key locations,
//! modifier flags and the assembly of a complete key event.
use vstd::prelude::*;

use crate::window::Theme;

use crate::keyboard::{
    Key, KeyCode, KeyLocation, KeyView, Modifiers, ModifiersKeys, ModifiersState, NamedKey,
    NativeKey, NativeKeyCode, PhysicalKey, native_key_of, key_text, KEYS_LALT, KEYS_LCONTROL,
    KEYS_LSHIFT, KEYS_LSUPER, KEYS_RALT, KEYS_RCONTROL, KEYS_RSHIFT, KEYS_RSUPER, MODS_ALT,
    MODS_CONTROL, MODS_SHIFT, MODS_SUPER,
};

verus! {

broadcast use {vstd::string::axiom_spec_iter, vstd::string::next_postcondition};

/// Whether a key went down or came up.
#[derive(Clone, Copy, Debug, PartialEq, Eq, Structural, Hash)]
pub enum ElementState {
    Pressed,
    Released,
}

/// The platform-specific part of a key event.
#[derive(Debug, PartialEq, Eq)]
pub struct KeyEventExtra {
    pub text_with_all_modifiers: Option<String>,
    pub key_without_modifiers: Key,
}

/// A keyboard event as delivered to the application.
#[derive(Debug, PartialEq, Eq)]
pub struct KeyEvent {
    pub physical_key: PhysicalKey,
    pub logical_key: Key,
    pub text: Option<String>,
    pub location: KeyLocation,
    pub state: ElementState,
    pub repeat: bool,
    pub platform_specific: KeyEventExtra,
}

/// A mouse button.
#[derive(Clone, Copy, Debug, PartialEq, Eq, Structural, Hash)]
pub enum MouseButton {
    Left,
    Right,
    Middle,
    Back,
    Forward,
    Other(u16),
}

/// An input-method event.
#[derive(Debug, PartialEq, Eq)]
pub enum Ime {
    /// The input method was enabled.
    Enabled,
    /// A new composing text, with the cursor range in it as UTF-8 byte offsets.
    Preedit(String, Option<(usize, usize)>),
    /// The composed text was committed.
    Commit(String),
    /// The input method was disabled.
    Disabled,
}

/// The events of a window: those that the keyboard, IME and mouse-button handling of its
/// view produce, and those of its delegate.
#[derive(Debug, PartialEq, Eq)]
pub enum WindowEvent {
    KeyboardInput { event: KeyEvent, is_synthetic: bool },
    ModifiersChanged(Modifiers),
    Ime(Ime),
    MouseInput { state: ElementState, button: MouseButton },
    CursorEntered,
    CursorLeft,
    /// The window was asked to close.
    CloseRequested,
    /// The window was closed.
    Destroyed,
    /// The window gained (true) or lost (false) the keyboard focus.
    Focused(bool),
    /// The window became hidden from view (true) or visible again (false).
    Occluded(bool),
    /// The system theme of the window changed.
    ThemeChanged(Theme),
}

/// The macOS virtual key table: the key code that each hardware scancode stands for.
pub open spec fn macos_scancode_key(scancode: u32) -> Option<KeyCode> {
    match scancode {
        0x00 => Some(KeyCode::KeyA),
        0x01 => Some(KeyCode::KeyS),
        0x02 => Some(KeyCode::KeyD),
        0x03 => Some(KeyCode::KeyF),
        0x04 => Some(KeyCode::KeyH),
        0x05 => Some(KeyCode::KeyG),
        0x06 => Some(KeyCode::KeyZ),
        0x07 => Some(KeyCode::KeyX),
        0x08 => Some(KeyCode::KeyC),
        0x09 => Some(KeyCode::KeyV),
        0x0b => Some(KeyCode::KeyB),
        0x0c => Some(KeyCode::KeyQ),
        0x0d => Some(KeyCode::KeyW),
        0x0e => Some(KeyCode::KeyE),
        0x0f => Some(KeyCode::KeyR),
        0x10 => Some(KeyCode::KeyY),
        0x11 => Some(KeyCode::KeyT),
        0x12 => Some(KeyCode::Digit1),
        0x13 => Some(KeyCode::Digit2),
        0x14 => Some(KeyCode::Digit3),
        0x15 => Some(KeyCode::Digit4),
        0x16 => Some(KeyCode::Digit6),
        0x17 => Some(KeyCode::Digit5),
        0x18 => Some(KeyCode::Equal),
        0x19 => Some(KeyCode::Digit9),
        0x1a => Some(KeyCode::Digit7),
        0x1b => Some(KeyCode::Minus),
        0x1c => Some(KeyCode::Digit8),
        0x1d => Some(KeyCode::Digit0),
        0x1e => Some(KeyCode::BracketRight),
        0x1f => Some(KeyCode::KeyO),
        0x20 => Some(KeyCode::KeyU),
        0x21 => Some(KeyCode::BracketLeft),
        0x22 => Some(KeyCode::KeyI),
        0x23 => Some(KeyCode::KeyP),
        0x24 => Some(KeyCode::Enter),
        0x25 => Some(KeyCode::KeyL),
        0x26 => Some(KeyCode::KeyJ),
        0x27 => Some(KeyCode::Quote),
        0x28 => Some(KeyCode::KeyK),
        0x29 => Some(KeyCode::Semicolon),
        0x2a => Some(KeyCode::Backslash),
        0x2b => Some(KeyCode::Comma),
        0x2c => Some(KeyCode::Slash),
        0x2d => Some(KeyCode::KeyN),
        0x2e => Some(KeyCode::KeyM),
        0x2f => Some(KeyCode::Period),
        0x30 => Some(KeyCode::Tab),
        0x31 => Some(KeyCode::Space),
        0x32 => Some(KeyCode::Backquote),
        0x33 => Some(KeyCode::Backspace),
        0x35 => Some(KeyCode::Escape),
        0x36 => Some(KeyCode::SuperRight),
        0x37 => Some(KeyCode::SuperLeft),
        0x38 => Some(KeyCode::ShiftLeft),
        0x39 => Some(KeyCode::CapsLock),
        0x3a => Some(KeyCode::AltLeft),
        0x3b => Some(KeyCode::ControlLeft),
        0x3c => Some(KeyCode::ShiftRight),
        0x3d => Some(KeyCode::AltRight),
        0x3e => Some(KeyCode::ControlRight),
        0x3f => Some(KeyCode::Fn),
        0x40 => Some(KeyCode::F17),
        0x41 => Some(KeyCode::NumpadDecimal),
        0x43 => Some(KeyCode::NumpadMultiply),
        0x45 => Some(KeyCode::NumpadAdd),
        0x47 => Some(KeyCode::NumLock),
        0x49 => Some(KeyCode::AudioVolumeUp),
        0x4a => Some(KeyCode::AudioVolumeDown),
        0x4b => Some(KeyCode::NumpadDivide),
        0x4c => Some(KeyCode::NumpadEnter),
        0x4e => Some(KeyCode::NumpadSubtract),
        0x4f => Some(KeyCode::F18),
        0x50 => Some(KeyCode::F19),
        0x51 => Some(KeyCode::NumpadEqual),
        0x52 => Some(KeyCode::Numpad0),
        0x53 => Some(KeyCode::Numpad1),
        0x54 => Some(KeyCode::Numpad2),
        0x55 => Some(KeyCode::Numpad3),
        0x56 => Some(KeyCode::Numpad4),
        0x57 => Some(KeyCode::Numpad5),
        0x58 => Some(KeyCode::Numpad6),
        0x59 => Some(KeyCode::Numpad7),
        0x5a => Some(KeyCode::F20),
        0x5b => Some(KeyCode::Numpad8),
        0x5c => Some(KeyCode::Numpad9),
        0x5d => Some(KeyCode::IntlYen),
        0x60 => Some(KeyCode::F5),
        0x61 => Some(KeyCode::F6),
        0x62 => Some(KeyCode::F7),
        0x63 => Some(KeyCode::F3),
        0x64 => Some(KeyCode::F8),
        0x65 => Some(KeyCode::F9),
        0x67 => Some(KeyCode::F11),
        0x69 => Some(KeyCode::F13),
        0x6a => Some(KeyCode::F16),
        0x6b => Some(KeyCode::F14),
        0x6d => Some(KeyCode::F10),
        0x6f => Some(KeyCode::F12),
        0x71 => Some(KeyCode::F15),
        0x72 => Some(KeyCode::Insert),
        0x73 => Some(KeyCode::Home),
        0x74 => Some(KeyCode::PageUp),
        0x75 => Some(KeyCode::Delete),
        0x76 => Some(KeyCode::F4),
        0x77 => Some(KeyCode::End),
        0x78 => Some(KeyCode::F2),
        0x79 => Some(KeyCode::PageDown),
        0x7a => Some(KeyCode::F1),
        0x7b => Some(KeyCode::ArrowLeft),
        0x7c => Some(KeyCode::ArrowRight),
        0x7d => Some(KeyCode::ArrowDown),
        0x7e => Some(KeyCode::ArrowUp),
        0xa => Some(KeyCode::Backquote),
        _ => None,
    }
}

/// The physical key for a scancode: its entry in the table, or the raw scancode
/// (truncated to 16 bits) when it has none.
pub open spec fn scancode_physical(scancode: u32) -> PhysicalKey {
    match macos_scancode_key(scancode) {
        Some(code) => PhysicalKey::Code(code),
        None => PhysicalKey::Unidentified(NativeKeyCode::MacOS(scancode as u16)),
    }
}

/// Maps a macOS hardware scancode to a physical key.
pub fn scancode_to_physicalkey(scancode: u32) -> (r: PhysicalKey)
    ensures
        r == scancode_physical(scancode),
{
    PhysicalKey::Code(
        match scancode {
            0x00 => KeyCode::KeyA,
            0x01 => KeyCode::KeyS,
            0x02 => KeyCode::KeyD,
            0x03 => KeyCode::KeyF,
            0x04 => KeyCode::KeyH,
            0x05 => KeyCode::KeyG,
            0x06 => KeyCode::KeyZ,
            0x07 => KeyCode::KeyX,
            0x08 => KeyCode::KeyC,
            0x09 => KeyCode::KeyV,
            0x0b => KeyCode::KeyB,
            0x0c => KeyCode::KeyQ,
            0x0d => KeyCode::KeyW,
            0x0e => KeyCode::KeyE,
            0x0f => KeyCode::KeyR,
            0x10 => KeyCode::KeyY,
            0x11 => KeyCode::KeyT,
            0x12 => KeyCode::Digit1,
            0x13 => KeyCode::Digit2,
            0x14 => KeyCode::Digit3,
            0x15 => KeyCode::Digit4,
            0x16 => KeyCode::Digit6,
            0x17 => KeyCode::Digit5,
            0x18 => KeyCode::Equal,
            0x19 => KeyCode::Digit9,
            0x1a => KeyCode::Digit7,
            0x1b => KeyCode::Minus,
            0x1c => KeyCode::Digit8,
            0x1d => KeyCode::Digit0,
            0x1e => KeyCode::BracketRight,
            0x1f => KeyCode::KeyO,
            0x20 => KeyCode::KeyU,
            0x21 => KeyCode::BracketLeft,
            0x22 => KeyCode::KeyI,
            0x23 => KeyCode::KeyP,
            0x24 => KeyCode::Enter,
            0x25 => KeyCode::KeyL,
            0x26 => KeyCode::KeyJ,
            0x27 => KeyCode::Quote,
            0x28 => KeyCode::KeyK,
            0x29 => KeyCode::Semicolon,
            0x2a => KeyCode::Backslash,
            0x2b => KeyCode::Comma,
            0x2c => KeyCode::Slash,
            0x2d => KeyCode::KeyN,
            0x2e => KeyCode::KeyM,
            0x2f => KeyCode::Period,
            0x30 => KeyCode::Tab,
            0x31 => KeyCode::Space,
            0x32 => KeyCode::Backquote,
            0x33 => KeyCode::Backspace,
            0x35 => KeyCode::Escape,
            0x36 => KeyCode::SuperRight,
            0x37 => KeyCode::SuperLeft,
            0x38 => KeyCode::ShiftLeft,
            0x39 => KeyCode::CapsLock,
            0x3a => KeyCode::AltLeft,
            0x3b => KeyCode::ControlLeft,
            0x3c => KeyCode::ShiftRight,
            0x3d => KeyCode::AltRight,
            0x3e => KeyCode::ControlRight,
            0x3f => KeyCode::Fn,
            0x40 => KeyCode::F17,
            0x41 => KeyCode::NumpadDecimal,
            0x43 => KeyCode::NumpadMultiply,
            0x45 => KeyCode::NumpadAdd,
            0x47 => KeyCode::NumLock,
            0x49 => KeyCode::AudioVolumeUp,
            0x4a => KeyCode::AudioVolumeDown,
            0x4b => KeyCode::NumpadDivide,
            0x4c => KeyCode::NumpadEnter,
            0x4e => KeyCode::NumpadSubtract,
            0x4f => KeyCode::F18,
            0x50 => KeyCode::F19,
            0x51 => KeyCode::NumpadEqual,
            0x52 => KeyCode::Numpad0,
            0x53 => KeyCode::Numpad1,
            0x54 => KeyCode::Numpad2,
            0x55 => KeyCode::Numpad3,
            0x56 => KeyCode::Numpad4,
            0x57 => KeyCode::Numpad5,
            0x58 => KeyCode::Numpad6,
            0x59 => KeyCode::Numpad7,
            0x5a => KeyCode::F20,
            0x5b => KeyCode::Numpad8,
            0x5c => KeyCode::Numpad9,
            0x5d => KeyCode::IntlYen,
            0x60 => KeyCode::F5,
            0x61 => KeyCode::F6,
            0x62 => KeyCode::F7,
            0x63 => KeyCode::F3,
            0x64 => KeyCode::F8,
            0x65 => KeyCode::F9,
            0x67 => KeyCode::F11,
            0x69 => KeyCode::F13,
            0x6a => KeyCode::F16,
            0x6b => KeyCode::F14,
            0x6d => KeyCode::F10,
            0x6f => KeyCode::F12,
            0x71 => KeyCode::F15,
            0x72 => KeyCode::Insert,
            0x73 => KeyCode::Home,
            0x74 => KeyCode::PageUp,
            0x75 => KeyCode::Delete,
            0x76 => KeyCode::F4,
            0x77 => KeyCode::End,
            0x78 => KeyCode::F2,
            0x79 => KeyCode::PageDown,
            0x7a => KeyCode::F1,
            0x7b => KeyCode::ArrowLeft,
            0x7c => KeyCode::ArrowRight,
            0x7d => KeyCode::ArrowDown,
            0x7e => KeyCode::ArrowUp,
            0xa => KeyCode::Backquote,
            _ => {
                return PhysicalKey::Unidentified(NativeKeyCode::MacOS(scancode as u16));
            },
        },
    )
}

/// The standard scancode of each key code that some scancode produces.
spec fn standard_scancode(code: KeyCode) -> Option<u32> {
    match code {
        KeyCode::KeyA => Some(0x00),
        KeyCode::KeyS => Some(0x01),
        KeyCode::KeyD => Some(0x02),
        KeyCode::KeyF => Some(0x03),
        KeyCode::KeyH => Some(0x04),
        KeyCode::KeyG => Some(0x05),
        KeyCode::KeyZ => Some(0x06),
        KeyCode::KeyX => Some(0x07),
        KeyCode::KeyC => Some(0x08),
        KeyCode::KeyV => Some(0x09),
        KeyCode::KeyB => Some(0x0b),
        KeyCode::KeyQ => Some(0x0c),
        KeyCode::KeyW => Some(0x0d),
        KeyCode::KeyE => Some(0x0e),
        KeyCode::KeyR => Some(0x0f),
        KeyCode::KeyY => Some(0x10),
        KeyCode::KeyT => Some(0x11),
        KeyCode::Digit1 => Some(0x12),
        KeyCode::Digit2 => Some(0x13),
        KeyCode::Digit3 => Some(0x14),
        KeyCode::Digit4 => Some(0x15),
        KeyCode::Digit6 => Some(0x16),
        KeyCode::Digit5 => Some(0x17),
        KeyCode::Equal => Some(0x18),
        KeyCode::Digit9 => Some(0x19),
        KeyCode::Digit7 => Some(0x1a),
        KeyCode::Minus => Some(0x1b),
        KeyCode::Digit8 => Some(0x1c),
        KeyCode::Digit0 => Some(0x1d),
        KeyCode::BracketRight => Some(0x1e),
        KeyCode::KeyO => Some(0x1f),
        KeyCode::KeyU => Some(0x20),
        KeyCode::BracketLeft => Some(0x21),
        KeyCode::KeyI => Some(0x22),
        KeyCode::KeyP => Some(0x23),
        KeyCode::Enter => Some(0x24),
        KeyCode::KeyL => Some(0x25),
        KeyCode::KeyJ => Some(0x26),
        KeyCode::Quote => Some(0x27),
        KeyCode::KeyK => Some(0x28),
        KeyCode::Semicolon => Some(0x29),
        KeyCode::Backslash => Some(0x2a),
        KeyCode::Comma => Some(0x2b),
        KeyCode::Slash => Some(0x2c),
        KeyCode::KeyN => Some(0x2d),
        KeyCode::KeyM => Some(0x2e),
        KeyCode::Period => Some(0x2f),
        KeyCode::Tab => Some(0x30),
        KeyCode::Space => Some(0x31),
        KeyCode::Backquote => Some(0x32),
        KeyCode::Backspace => Some(0x33),
        KeyCode::Escape => Some(0x35),
        KeyCode::SuperRight => Some(0x36),
        KeyCode::SuperLeft => Some(0x37),
        KeyCode::ShiftLeft => Some(0x38),
        KeyCode::AltLeft => Some(0x3a),
        KeyCode::ControlLeft => Some(0x3b),
        KeyCode::ShiftRight => Some(0x3c),
        KeyCode::AltRight => Some(0x3d),
        KeyCode::ControlRight => Some(0x3e),
        KeyCode::F17 => Some(0x40),
        KeyCode::NumpadDecimal => Some(0x41),
        KeyCode::NumpadMultiply => Some(0x43),
        KeyCode::NumpadAdd => Some(0x45),
        KeyCode::NumLock => Some(0x47),
        KeyCode::AudioVolumeUp => Some(0x49),
        KeyCode::AudioVolumeDown => Some(0x4a),
        KeyCode::NumpadDivide => Some(0x4b),
        KeyCode::NumpadEnter => Some(0x4c),
        KeyCode::NumpadSubtract => Some(0x4e),
        KeyCode::F18 => Some(0x4f),
        KeyCode::F19 => Some(0x50),
        KeyCode::NumpadEqual => Some(0x51),
        KeyCode::Numpad0 => Some(0x52),
        KeyCode::Numpad1 => Some(0x53),
        KeyCode::Numpad2 => Some(0x54),
        KeyCode::Numpad3 => Some(0x55),
        KeyCode::Numpad4 => Some(0x56),
        KeyCode::Numpad5 => Some(0x57),
        KeyCode::Numpad6 => Some(0x58),
        KeyCode::Numpad7 => Some(0x59),
        KeyCode::F20 => Some(0x5a),
        KeyCode::Numpad8 => Some(0x5b),
        KeyCode::Numpad9 => Some(0x5c),
        KeyCode::IntlYen => Some(0x5d),
        KeyCode::F5 => Some(0x60),
        KeyCode::F6 => Some(0x61),
        KeyCode::F7 => Some(0x62),
        KeyCode::F3 => Some(0x63),
        KeyCode::F8 => Some(0x64),
        KeyCode::F9 => Some(0x65),
        KeyCode::F11 => Some(0x67),
        KeyCode::F13 => Some(0x69),
        KeyCode::F16 => Some(0x6a),
        KeyCode::F14 => Some(0x6b),
        KeyCode::F10 => Some(0x6d),
        KeyCode::F12 => Some(0x6f),
        KeyCode::F15 => Some(0x71),
        KeyCode::Insert => Some(0x72),
        KeyCode::Home => Some(0x73),
        KeyCode::PageUp => Some(0x74),
        KeyCode::Delete => Some(0x75),
        KeyCode::F4 => Some(0x76),
        KeyCode::End => Some(0x77),
        KeyCode::F2 => Some(0x78),
        KeyCode::PageDown => Some(0x79),
        KeyCode::F1 => Some(0x7a),
        KeyCode::ArrowLeft => Some(0x7b),
        KeyCode::ArrowRight => Some(0x7c),
        KeyCode::ArrowDown => Some(0x7d),
        KeyCode::ArrowUp => Some(0x7e),
        KeyCode::CapsLock => Some(0x39),
        KeyCode::Fn => Some(0x3f),
        _ => None,
    }
}

/// Every table entry other than the alternative Backquote scancode is the standard
/// scancode of its key code.
proof fn lemma_table_entry_is_standard(s: u32)
    requires
        macos_scancode_key(s) is Some,
        s != 0x0a,
    ensures
        standard_scancode(macos_scancode_key(s)->0) == Some(s),
{
}

/// The scancodes that `physicalkey_to_scancode` may return for a physical key.
pub open spec fn scancode_of_physical(physical_key: PhysicalKey, r: Option<u32>) -> bool {
    match physical_key {
        PhysicalKey::Unidentified(_) => r is None,
        PhysicalKey::Code(code) => match r {
            Some(s) => macos_scancode_key(s) == Some(code) && s != 0x0a && code != KeyCode::CapsLock
                && code != KeyCode::Fn,
            None => code == KeyCode::CapsLock || code == KeyCode::Fn || forall|s: u32|
                macos_scancode_key(s) != Some(code),
        },
    }
}

/// Two scancodes other than the alternative Backquote scancode that produce the same key
/// code are equal: the scancode table is one-to-one apart from that entry.
pub proof fn lemma_scancode_table_injective(s1: u32, s2: u32)
    requires
        macos_scancode_key(s1) is Some,
        macos_scancode_key(s1) == macos_scancode_key(s2),
        s1 != 0x0a,
        s2 != 0x0a,
    ensures
        s1 == s2,
{
    lemma_table_entry_is_standard(s1);
    lemma_table_entry_is_standard(s2);
}

/// `physicalkey_to_scancode` is a function: at most one result meets its contract.
pub proof fn lemma_scancode_of_physical_unique(physical_key: PhysicalKey, r1: Option<u32>, r2: Option<u32>)
    requires
        scancode_of_physical(physical_key, r1),
        scancode_of_physical(physical_key, r2),
    ensures
        r1 == r2,
{
    match (r1, r2) {
        (Some(s1), Some(s2)) => lemma_scancode_table_injective(s1, s2),
        (Some(s1), None) => {
            assert(macos_scancode_key(s1) == Some(physical_key->Code_0));
        },
        (None, Some(s2)) => {
            assert(macos_scancode_key(s2) == Some(physical_key->Code_0));
        },
        (None, None) => {},
    }
}

/// Round trip from keys: a physical key that has a scancode is what that scancode maps back to.
pub proof fn lemma_physical_key_round_trip(physical_key: PhysicalKey, s: u32)
    requires
        scancode_of_physical(physical_key, Some(s)),
    ensures
        scancode_physical(s) == physical_key,
{
}

/// Round trip from scancodes: every scancode other than 0x0a whose key is neither Caps Lock
/// nor Fn is the scancode that its key maps back to.
pub proof fn lemma_scancode_round_trip(s: u32)
    requires
        macos_scancode_key(s) is Some,
        s != 0x0a,
        macos_scancode_key(s) != Some(KeyCode::CapsLock),
        macos_scancode_key(s) != Some(KeyCode::Fn),
    ensures
        scancode_of_physical(scancode_physical(s), Some(s)),
{
}

/// The Apple virtual key table (the `kVK_ANSI_*` and `kVK_*` codes of Carbon's `Events.h`):
/// each scancode listed stands for the key code given (0x0a, the ISO section key, for
/// Backquote as 0x32 does), and every other scancode is unidentified, reported with its raw
/// value truncated to 16 bits.
pub proof fn lemma_virtual_key_table()
    ensures
        scancode_physical(0x00) == PhysicalKey::Code(KeyCode::KeyA),
        scancode_physical(0x01) == PhysicalKey::Code(KeyCode::KeyS),
        scancode_physical(0x02) == PhysicalKey::Code(KeyCode::KeyD),
        scancode_physical(0x03) == PhysicalKey::Code(KeyCode::KeyF),
        scancode_physical(0x04) == PhysicalKey::Code(KeyCode::KeyH),
        scancode_physical(0x05) == PhysicalKey::Code(KeyCode::KeyG),
        scancode_physical(0x06) == PhysicalKey::Code(KeyCode::KeyZ),
        scancode_physical(0x07) == PhysicalKey::Code(KeyCode::KeyX),
        scancode_physical(0x08) == PhysicalKey::Code(KeyCode::KeyC),
        scancode_physical(0x09) == PhysicalKey::Code(KeyCode::KeyV),
        scancode_physical(0x0b) == PhysicalKey::Code(KeyCode::KeyB),
        scancode_physical(0x0c) == PhysicalKey::Code(KeyCode::KeyQ),
        scancode_physical(0x0d) == PhysicalKey::Code(KeyCode::KeyW),
        scancode_physical(0x0e) == PhysicalKey::Code(KeyCode::KeyE),
        scancode_physical(0x0f) == PhysicalKey::Code(KeyCode::KeyR),
        scancode_physical(0x10) == PhysicalKey::Code(KeyCode::KeyY),
        scancode_physical(0x11) == PhysicalKey::Code(KeyCode::KeyT),
        scancode_physical(0x12) == PhysicalKey::Code(KeyCode::Digit1),
        scancode_physical(0x13) == PhysicalKey::Code(KeyCode::Digit2),
        scancode_physical(0x14) == PhysicalKey::Code(KeyCode::Digit3),
        scancode_physical(0x15) == PhysicalKey::Code(KeyCode::Digit4),
        scancode_physical(0x16) == PhysicalKey::Code(KeyCode::Digit6),
        scancode_physical(0x17) == PhysicalKey::Code(KeyCode::Digit5),
        scancode_physical(0x18) == PhysicalKey::Code(KeyCode::Equal),
        scancode_physical(0x19) == PhysicalKey::Code(KeyCode::Digit9),
        scancode_physical(0x1a) == PhysicalKey::Code(KeyCode::Digit7),
        scancode_physical(0x1b) == PhysicalKey::Code(KeyCode::Minus),
        scancode_physical(0x1c) == PhysicalKey::Code(KeyCode::Digit8),
        scancode_physical(0x1d) == PhysicalKey::Code(KeyCode::Digit0),
        scancode_physical(0x1e) == PhysicalKey::Code(KeyCode::BracketRight),
        scancode_physical(0x1f) == PhysicalKey::Code(KeyCode::KeyO),
        scancode_physical(0x20) == PhysicalKey::Code(KeyCode::KeyU),
        scancode_physical(0x21) == PhysicalKey::Code(KeyCode::BracketLeft),
        scancode_physical(0x22) == PhysicalKey::Code(KeyCode::KeyI),
        scancode_physical(0x23) == PhysicalKey::Code(KeyCode::KeyP),
        scancode_physical(0x24) == PhysicalKey::Code(KeyCode::Enter),
        scancode_physical(0x25) == PhysicalKey::Code(KeyCode::KeyL),
        scancode_physical(0x26) == PhysicalKey::Code(KeyCode::KeyJ),
        scancode_physical(0x27) == PhysicalKey::Code(KeyCode::Quote),
        scancode_physical(0x28) == PhysicalKey::Code(KeyCode::KeyK),
        scancode_physical(0x29) == PhysicalKey::Code(KeyCode::Semicolon),
        scancode_physical(0x2a) == PhysicalKey::Code(KeyCode::Backslash),
        scancode_physical(0x2b) == PhysicalKey::Code(KeyCode::Comma),
        scancode_physical(0x2c) == PhysicalKey::Code(KeyCode::Slash),
        scancode_physical(0x2d) == PhysicalKey::Code(KeyCode::KeyN),
        scancode_physical(0x2e) == PhysicalKey::Code(KeyCode::KeyM),
        scancode_physical(0x2f) == PhysicalKey::Code(KeyCode::Period),
        scancode_physical(0x30) == PhysicalKey::Code(KeyCode::Tab),
        scancode_physical(0x31) == PhysicalKey::Code(KeyCode::Space),
        scancode_physical(0x32) == PhysicalKey::Code(KeyCode::Backquote),
        scancode_physical(0x33) == PhysicalKey::Code(KeyCode::Backspace),
        scancode_physical(0x35) == PhysicalKey::Code(KeyCode::Escape),
        scancode_physical(0x36) == PhysicalKey::Code(KeyCode::SuperRight),
        scancode_physical(0x37) == PhysicalKey::Code(KeyCode::SuperLeft),
        scancode_physical(0x38) == PhysicalKey::Code(KeyCode::ShiftLeft),
        scancode_physical(0x39) == PhysicalKey::Code(KeyCode::CapsLock),
        scancode_physical(0x3a) == PhysicalKey::Code(KeyCode::AltLeft),
        scancode_physical(0x3b) == PhysicalKey::Code(KeyCode::ControlLeft),
        scancode_physical(0x3c) == PhysicalKey::Code(KeyCode::ShiftRight),
        scancode_physical(0x3d) == PhysicalKey::Code(KeyCode::AltRight),
        scancode_physical(0x3e) == PhysicalKey::Code(KeyCode::ControlRight),
        scancode_physical(0x3f) == PhysicalKey::Code(KeyCode::Fn),
        scancode_physical(0x40) == PhysicalKey::Code(KeyCode::F17),
        scancode_physical(0x41) == PhysicalKey::Code(KeyCode::NumpadDecimal),
        scancode_physical(0x43) == PhysicalKey::Code(KeyCode::NumpadMultiply),
        scancode_physical(0x45) == PhysicalKey::Code(KeyCode::NumpadAdd),
        scancode_physical(0x47) == PhysicalKey::Code(KeyCode::NumLock),
        scancode_physical(0x49) == PhysicalKey::Code(KeyCode::AudioVolumeUp),
        scancode_physical(0x4a) == PhysicalKey::Code(KeyCode::AudioVolumeDown),
        scancode_physical(0x4b) == PhysicalKey::Code(KeyCode::NumpadDivide),
        scancode_physical(0x4c) == PhysicalKey::Code(KeyCode::NumpadEnter),
        scancode_physical(0x4e) == PhysicalKey::Code(KeyCode::NumpadSubtract),
        scancode_physical(0x4f) == PhysicalKey::Code(KeyCode::F18),
        scancode_physical(0x50) == PhysicalKey::Code(KeyCode::F19),
        scancode_physical(0x51) == PhysicalKey::Code(KeyCode::NumpadEqual),
        scancode_physical(0x52) == PhysicalKey::Code(KeyCode::Numpad0),
        scancode_physical(0x53) == PhysicalKey::Code(KeyCode::Numpad1),
        scancode_physical(0x54) == PhysicalKey::Code(KeyCode::Numpad2),
        scancode_physical(0x55) == PhysicalKey::Code(KeyCode::Numpad3),
        scancode_physical(0x56) == PhysicalKey::Code(KeyCode::Numpad4),
        scancode_physical(0x57) == PhysicalKey::Code(KeyCode::Numpad5),
        scancode_physical(0x58) == PhysicalKey::Code(KeyCode::Numpad6),
        scancode_physical(0x59) == PhysicalKey::Code(KeyCode::Numpad7),
        scancode_physical(0x5a) == PhysicalKey::Code(KeyCode::F20),
        scancode_physical(0x5b) == PhysicalKey::Code(KeyCode::Numpad8),
        scancode_physical(0x5c) == PhysicalKey::Code(KeyCode::Numpad9),
        scancode_physical(0x5d) == PhysicalKey::Code(KeyCode::IntlYen),
        scancode_physical(0x60) == PhysicalKey::Code(KeyCode::F5),
        scancode_physical(0x61) == PhysicalKey::Code(KeyCode::F6),
        scancode_physical(0x62) == PhysicalKey::Code(KeyCode::F7),
        scancode_physical(0x63) == PhysicalKey::Code(KeyCode::F3),
        scancode_physical(0x64) == PhysicalKey::Code(KeyCode::F8),
        scancode_physical(0x65) == PhysicalKey::Code(KeyCode::F9),
        scancode_physical(0x67) == PhysicalKey::Code(KeyCode::F11),
        scancode_physical(0x69) == PhysicalKey::Code(KeyCode::F13),
        scancode_physical(0x6a) == PhysicalKey::Code(KeyCode::F16),
        scancode_physical(0x6b) == PhysicalKey::Code(KeyCode::F14),
        scancode_physical(0x6d) == PhysicalKey::Code(KeyCode::F10),
        scancode_physical(0x6f) == PhysicalKey::Code(KeyCode::F12),
        scancode_physical(0x71) == PhysicalKey::Code(KeyCode::F15),
        scancode_physical(0x72) == PhysicalKey::Code(KeyCode::Insert),
        scancode_physical(0x73) == PhysicalKey::Code(KeyCode::Home),
        scancode_physical(0x74) == PhysicalKey::Code(KeyCode::PageUp),
        scancode_physical(0x75) == PhysicalKey::Code(KeyCode::Delete),
        scancode_physical(0x76) == PhysicalKey::Code(KeyCode::F4),
        scancode_physical(0x77) == PhysicalKey::Code(KeyCode::End),
        scancode_physical(0x78) == PhysicalKey::Code(KeyCode::F2),
        scancode_physical(0x79) == PhysicalKey::Code(KeyCode::PageDown),
        scancode_physical(0x7a) == PhysicalKey::Code(KeyCode::F1),
        scancode_physical(0x7b) == PhysicalKey::Code(KeyCode::ArrowLeft),
        scancode_physical(0x7c) == PhysicalKey::Code(KeyCode::ArrowRight),
        scancode_physical(0x7d) == PhysicalKey::Code(KeyCode::ArrowDown),
        scancode_physical(0x7e) == PhysicalKey::Code(KeyCode::ArrowUp),
        scancode_physical(0xa) == PhysicalKey::Code(KeyCode::Backquote),
        forall|s: u32|
            !(s == 0x00 || s == 0x01 || s == 0x02 || s == 0x03 || s == 0x04 || s == 0x05 || s == 0x06 || s == 0x07 || s == 0x08 || s == 0x09 || s == 0x0b || s == 0x0c || s == 0x0d || s == 0x0e || s == 0x0f || s == 0x10 || s == 0x11 || s == 0x12 || s == 0x13 || s == 0x14 || s == 0x15 || s == 0x16 || s == 0x17 || s == 0x18 || s == 0x19 || s == 0x1a || s == 0x1b || s == 0x1c || s == 0x1d || s == 0x1e || s == 0x1f || s == 0x20 || s == 0x21 || s == 0x22 || s == 0x23 || s == 0x24 || s == 0x25 || s == 0x26 || s == 0x27 || s == 0x28 || s == 0x29 || s == 0x2a || s == 0x2b || s == 0x2c || s == 0x2d || s == 0x2e || s == 0x2f || s == 0x30 || s == 0x31 || s == 0x32 || s == 0x33 || s == 0x35 || s == 0x36 || s == 0x37 || s == 0x38 || s == 0x39 || s == 0x3a || s == 0x3b || s == 0x3c || s == 0x3d || s == 0x3e || s == 0x3f || s == 0x40 || s == 0x41 || s == 0x43 || s == 0x45 || s == 0x47 || s == 0x49 || s == 0x4a || s == 0x4b || s == 0x4c || s == 0x4e || s == 0x4f || s == 0x50 || s == 0x51 || s == 0x52 || s == 0x53 || s == 0x54 || s == 0x55 || s == 0x56 || s == 0x57 || s == 0x58 || s == 0x59 || s == 0x5a || s == 0x5b || s == 0x5c || s == 0x5d || s == 0x60 || s == 0x61 || s == 0x62 || s == 0x63 || s == 0x64 || s == 0x65 || s == 0x67 || s == 0x69 || s == 0x6a || s == 0x6b || s == 0x6d || s == 0x6f || s == 0x71 || s == 0x72 || s == 0x73 || s == 0x74 || s == 0x75 || s == 0x76 || s == 0x77 || s == 0x78 || s == 0x79 || s == 0x7a || s == 0x7b || s == 0x7c || s == 0x7d || s == 0x7e || s == 0xa) ==> scancode_physical(s) == PhysicalKey::Unidentified(
                NativeKeyCode::MacOS(s as u16),
            ),
{
}

/// The Apple virtual key table read backwards: each key code listed maps back to its
/// scancode (Backquote to its ANSI scancode 0x32, not 0x0a); Caps Lock, Fn, every other key
/// code and every unidentified key map to none.
pub proof fn lemma_virtual_key_table_back()
    ensures
        scancode_of_physical(PhysicalKey::Code(KeyCode::KeyA), Some(0x00)),
        scancode_of_physical(PhysicalKey::Code(KeyCode::KeyS), Some(0x01)),
        scancode_of_physical(PhysicalKey::Code(KeyCode::KeyD), Some(0x02)),
        scancode_of_physical(PhysicalKey::Code(KeyCode::KeyF), Some(0x03)),
        scancode_of_physical(PhysicalKey::Code(KeyCode::KeyH), Some(0x04)),
        scancode_of_physical(PhysicalKey::Code(KeyCode::KeyG), Some(0x05)),
        scancode_of_physical(PhysicalKey::Code(KeyCode::KeyZ), Some(0x06)),
        scancode_of_physical(PhysicalKey::Code(KeyCode::KeyX), Some(0x07)),
        scancode_of_physical(PhysicalKey::Code(KeyCode::KeyC), Some(0x08)),
        scancode_of_physical(PhysicalKey::Code(KeyCode::KeyV), Some(0x09)),
        scancode_of_physical(PhysicalKey::Code(KeyCode::KeyB), Some(0x0b)),
        scancode_of_physical(PhysicalKey::Code(KeyCode::KeyQ), Some(0x0c)),
        scancode_of_physical(PhysicalKey::Code(KeyCode::KeyW), Some(0x0d)),
        scancode_of_physical(PhysicalKey::Code(KeyCode::KeyE), Some(0x0e)),
        scancode_of_physical(PhysicalKey::Code(KeyCode::KeyR), Some(0x0f)),
        scancode_of_physical(PhysicalKey::Code(KeyCode::KeyY), Some(0x10)),
        scancode_of_physical(PhysicalKey::Code(KeyCode::KeyT), Some(0x11)),
        scancode_of_physical(PhysicalKey::Code(KeyCode::Digit1), Some(0x12)),
        scancode_of_physical(PhysicalKey::Code(KeyCode::Digit2), Some(0x13)),
        scancode_of_physical(PhysicalKey::Code(KeyCode::Digit3), Some(0x14)),
        scancode_of_physical(PhysicalKey::Code(KeyCode::Digit4), Some(0x15)),
        scancode_of_physical(PhysicalKey::Code(KeyCode::Digit6), Some(0x16)),
        scancode_of_physical(PhysicalKey::Code(KeyCode::Digit5), Some(0x17)),
        scancode_of_physical(PhysicalKey::Code(KeyCode::Equal), Some(0x18)),
        scancode_of_physical(PhysicalKey::Code(KeyCode::Digit9), Some(0x19)),
        scancode_of_physical(PhysicalKey::Code(KeyCode::Digit7), Some(0x1a)),
        scancode_of_physical(PhysicalKey::Code(KeyCode::Minus), Some(0x1b)),
        scancode_of_physical(PhysicalKey::Code(KeyCode::Digit8), Some(0x1c)),
        scancode_of_physical(PhysicalKey::Code(KeyCode::Digit0), Some(0x1d)),
        scancode_of_physical(PhysicalKey::Code(KeyCode::BracketRight), Some(0x1e)),
        scancode_of_physical(PhysicalKey::Code(KeyCode::KeyO), Some(0x1f)),
        scancode_of_physical(PhysicalKey::Code(KeyCode::KeyU), Some(0x20)),
        scancode_of_physical(PhysicalKey::Code(KeyCode::BracketLeft), Some(0x21)),
        scancode_of_physical(PhysicalKey::Code(KeyCode::KeyI), Some(0x22)),
        scancode_of_physical(PhysicalKey::Code(KeyCode::KeyP), Some(0x23)),
        scancode_of_physical(PhysicalKey::Code(KeyCode::Enter), Some(0x24)),
        scancode_of_physical(PhysicalKey::Code(KeyCode::KeyL), Some(0x25)),
        scancode_of_physical(PhysicalKey::Code(KeyCode::KeyJ), Some(0x26)),
        scancode_of_physical(PhysicalKey::Code(KeyCode::Quote), Some(0x27)),
        scancode_of_physical(PhysicalKey::Code(KeyCode::KeyK), Some(0x28)),
        scancode_of_physical(PhysicalKey::Code(KeyCode::Semicolon), Some(0x29)),
        scancode_of_physical(PhysicalKey::Code(KeyCode::Backslash), Some(0x2a)),
        scancode_of_physical(PhysicalKey::Code(KeyCode::Comma), Some(0x2b)),
        scancode_of_physical(PhysicalKey::Code(KeyCode::Slash), Some(0x2c)),
        scancode_of_physical(PhysicalKey::Code(KeyCode::KeyN), Some(0x2d)),
        scancode_of_physical(PhysicalKey::Code(KeyCode::KeyM), Some(0x2e)),
        scancode_of_physical(PhysicalKey::Code(KeyCode::Period), Some(0x2f)),
        scancode_of_physical(PhysicalKey::Code(KeyCode::Tab), Some(0x30)),
        scancode_of_physical(PhysicalKey::Code(KeyCode::Space), Some(0x31)),
        scancode_of_physical(PhysicalKey::Code(KeyCode::Backquote), Some(0x32)),
        scancode_of_physical(PhysicalKey::Code(KeyCode::Backspace), Some(0x33)),
        scancode_of_physical(PhysicalKey::Code(KeyCode::Escape), Some(0x35)),
        scancode_of_physical(PhysicalKey::Code(KeyCode::SuperRight), Some(0x36)),
        scancode_of_physical(PhysicalKey::Code(KeyCode::SuperLeft), Some(0x37)),
        scancode_of_physical(PhysicalKey::Code(KeyCode::ShiftLeft), Some(0x38)),
        scancode_of_physical(PhysicalKey::Code(KeyCode::AltLeft), Some(0x3a)),
        scancode_of_physical(PhysicalKey::Code(KeyCode::ControlLeft), Some(0x3b)),
        scancode_of_physical(PhysicalKey::Code(KeyCode::ShiftRight), Some(0x3c)),
        scancode_of_physical(PhysicalKey::Code(KeyCode::AltRight), Some(0x3d)),
        scancode_of_physical(PhysicalKey::Code(KeyCode::ControlRight), Some(0x3e)),
        scancode_of_physical(PhysicalKey::Code(KeyCode::F17), Some(0x40)),
        scancode_of_physical(PhysicalKey::Code(KeyCode::NumpadDecimal), Some(0x41)),
        scancode_of_physical(PhysicalKey::Code(KeyCode::NumpadMultiply), Some(0x43)),
        scancode_of_physical(PhysicalKey::Code(KeyCode::NumpadAdd), Some(0x45)),
        scancode_of_physical(PhysicalKey::Code(KeyCode::NumLock), Some(0x47)),
        scancode_of_physical(PhysicalKey::Code(KeyCode::AudioVolumeUp), Some(0x49)),
        scancode_of_physical(PhysicalKey::Code(KeyCode::AudioVolumeDown), Some(0x4a)),
        scancode_of_physical(PhysicalKey::Code(KeyCode::NumpadDivide), Some(0x4b)),
        scancode_of_physical(PhysicalKey::Code(KeyCode::NumpadEnter), Some(0x4c)),
        scancode_of_physical(PhysicalKey::Code(KeyCode::NumpadSubtract), Some(0x4e)),
        scancode_of_physical(PhysicalKey::Code(KeyCode::F18), Some(0x4f)),
        scancode_of_physical(PhysicalKey::Code(KeyCode::F19), Some(0x50)),
        scancode_of_physical(PhysicalKey::Code(KeyCode::NumpadEqual), Some(0x51)),
        scancode_of_physical(PhysicalKey::Code(KeyCode::Numpad0), Some(0x52)),
        scancode_of_physical(PhysicalKey::Code(KeyCode::Numpad1), Some(0x53)),
        scancode_of_physical(PhysicalKey::Code(KeyCode::Numpad2), Some(0x54)),
        scancode_of_physical(PhysicalKey::Code(KeyCode::Numpad3), Some(0x55)),
        scancode_of_physical(PhysicalKey::Code(KeyCode::Numpad4), Some(0x56)),
        scancode_of_physical(PhysicalKey::Code(KeyCode::Numpad5), Some(0x57)),
        scancode_of_physical(PhysicalKey::Code(KeyCode::Numpad6), Some(0x58)),
        scancode_of_physical(PhysicalKey::Code(KeyCode::Numpad7), Some(0x59)),
        scancode_of_physical(PhysicalKey::Code(KeyCode::F20), Some(0x5a)),
        scancode_of_physical(PhysicalKey::Code(KeyCode::Numpad8), Some(0x5b)),
        scancode_of_physical(PhysicalKey::Code(KeyCode::Numpad9), Some(0x5c)),
        scancode_of_physical(PhysicalKey::Code(KeyCode::IntlYen), Some(0x5d)),
        scancode_of_physical(PhysicalKey::Code(KeyCode::F5), Some(0x60)),
        scancode_of_physical(PhysicalKey::Code(KeyCode::F6), Some(0x61)),
        scancode_of_physical(PhysicalKey::Code(KeyCode::F7), Some(0x62)),
        scancode_of_physical(PhysicalKey::Code(KeyCode::F3), Some(0x63)),
        scancode_of_physical(PhysicalKey::Code(KeyCode::F8), Some(0x64)),
        scancode_of_physical(PhysicalKey::Code(KeyCode::F9), Some(0x65)),
        scancode_of_physical(PhysicalKey::Code(KeyCode::F11), Some(0x67)),
        scancode_of_physical(PhysicalKey::Code(KeyCode::F13), Some(0x69)),
        scancode_of_physical(PhysicalKey::Code(KeyCode::F16), Some(0x6a)),
        scancode_of_physical(PhysicalKey::Code(KeyCode::F14), Some(0x6b)),
        scancode_of_physical(PhysicalKey::Code(KeyCode::F10), Some(0x6d)),
        scancode_of_physical(PhysicalKey::Code(KeyCode::F12), Some(0x6f)),
        scancode_of_physical(PhysicalKey::Code(KeyCode::F15), Some(0x71)),
        scancode_of_physical(PhysicalKey::Code(KeyCode::Insert), Some(0x72)),
        scancode_of_physical(PhysicalKey::Code(KeyCode::Home), Some(0x73)),
        scancode_of_physical(PhysicalKey::Code(KeyCode::PageUp), Some(0x74)),
        scancode_of_physical(PhysicalKey::Code(KeyCode::Delete), Some(0x75)),
        scancode_of_physical(PhysicalKey::Code(KeyCode::F4), Some(0x76)),
        scancode_of_physical(PhysicalKey::Code(KeyCode::End), Some(0x77)),
        scancode_of_physical(PhysicalKey::Code(KeyCode::F2), Some(0x78)),
        scancode_of_physical(PhysicalKey::Code(KeyCode::PageDown), Some(0x79)),
        scancode_of_physical(PhysicalKey::Code(KeyCode::F1), Some(0x7a)),
        scancode_of_physical(PhysicalKey::Code(KeyCode::ArrowLeft), Some(0x7b)),
        scancode_of_physical(PhysicalKey::Code(KeyCode::ArrowRight), Some(0x7c)),
        scancode_of_physical(PhysicalKey::Code(KeyCode::ArrowDown), Some(0x7d)),
        scancode_of_physical(PhysicalKey::Code(KeyCode::ArrowUp), Some(0x7e)),
        scancode_of_physical(PhysicalKey::Code(KeyCode::IntlBackslash), None),
        scancode_of_physical(PhysicalKey::Code(KeyCode::IntlRo), None),
        scancode_of_physical(PhysicalKey::Code(KeyCode::CapsLock), None),
        scancode_of_physical(PhysicalKey::Code(KeyCode::ContextMenu), None),
        scancode_of_physical(PhysicalKey::Code(KeyCode::Convert), None),
        scancode_of_physical(PhysicalKey::Code(KeyCode::KanaMode), None),
        scancode_of_physical(PhysicalKey::Code(KeyCode::Lang1), None),
        scancode_of_physical(PhysicalKey::Code(KeyCode::Lang2), None),
        scancode_of_physical(PhysicalKey::Code(KeyCode::NonConvert), None),
        scancode_of_physical(PhysicalKey::Code(KeyCode::Help), None),
        scancode_of_physical(PhysicalKey::Code(KeyCode::NumpadBackspace), None),
        scancode_of_physical(PhysicalKey::Code(KeyCode::NumpadClear), None),
        scancode_of_physical(PhysicalKey::Code(KeyCode::NumpadComma), None),
        scancode_of_physical(PhysicalKey::Code(KeyCode::Fn), None),
        scancode_of_physical(PhysicalKey::Code(KeyCode::FnLock), None),
        scancode_of_physical(PhysicalKey::Code(KeyCode::PrintScreen), None),
        scancode_of_physical(PhysicalKey::Code(KeyCode::ScrollLock), None),
        scancode_of_physical(PhysicalKey::Code(KeyCode::Pause), None),
        scancode_of_physical(PhysicalKey::Code(KeyCode::AudioVolumeMute), None),
        scancode_of_physical(PhysicalKey::Code(KeyCode::MediaPlayPause), None),
        scancode_of_physical(PhysicalKey::Code(KeyCode::MediaStop), None),
        scancode_of_physical(PhysicalKey::Code(KeyCode::MediaTrackNext), None),
        scancode_of_physical(PhysicalKey::Code(KeyCode::MediaTrackPrevious), None),
        scancode_of_physical(PhysicalKey::Code(KeyCode::Power), None),
        scancode_of_physical(PhysicalKey::Code(KeyCode::F21), None),
        scancode_of_physical(PhysicalKey::Code(KeyCode::F22), None),
        scancode_of_physical(PhysicalKey::Code(KeyCode::F23), None),
        scancode_of_physical(PhysicalKey::Code(KeyCode::F24), None),
        forall|native: NativeKeyCode| scancode_of_physical(PhysicalKey::Unidentified(native), None),
{
}

/// Maps a physical key back to its macOS scancode.
///
/// The result is the scancode whose table entry is the key; for `Backquote`, which two
/// scancodes produce, it is the standard one (0x32, not 0x0a). Caps Lock and Fn, which
/// have scancodes but are not mapped back, and keys that no scancode produces give `None`.
pub fn physicalkey_to_scancode(physical_key: PhysicalKey) -> (r: Option<u32>)
    ensures
        scancode_of_physical(physical_key, r),
{
    let code = match physical_key {
        PhysicalKey::Code(code) => code,
        PhysicalKey::Unidentified(_) => return None,
    };
    match code {
        KeyCode::KeyA => Some(0x00),
        KeyCode::KeyS => Some(0x01),
        KeyCode::KeyD => Some(0x02),
        KeyCode::KeyF => Some(0x03),
        KeyCode::KeyH => Some(0x04),
        KeyCode::KeyG => Some(0x05),
        KeyCode::KeyZ => Some(0x06),
        KeyCode::KeyX => Some(0x07),
        KeyCode::KeyC => Some(0x08),
        KeyCode::KeyV => Some(0x09),
        KeyCode::KeyB => Some(0x0b),
        KeyCode::KeyQ => Some(0x0c),
        KeyCode::KeyW => Some(0x0d),
        KeyCode::KeyE => Some(0x0e),
        KeyCode::KeyR => Some(0x0f),
        KeyCode::KeyY => Some(0x10),
        KeyCode::KeyT => Some(0x11),
        KeyCode::Digit1 => Some(0x12),
        KeyCode::Digit2 => Some(0x13),
        KeyCode::Digit3 => Some(0x14),
        KeyCode::Digit4 => Some(0x15),
        KeyCode::Digit6 => Some(0x16),
        KeyCode::Digit5 => Some(0x17),
        KeyCode::Equal => Some(0x18),
        KeyCode::Digit9 => Some(0x19),
        KeyCode::Digit7 => Some(0x1a),
        KeyCode::Minus => Some(0x1b),
        KeyCode::Digit8 => Some(0x1c),
        KeyCode::Digit0 => Some(0x1d),
        KeyCode::BracketRight => Some(0x1e),
        KeyCode::KeyO => Some(0x1f),
        KeyCode::KeyU => Some(0x20),
        KeyCode::BracketLeft => Some(0x21),
        KeyCode::KeyI => Some(0x22),
        KeyCode::KeyP => Some(0x23),
        KeyCode::Enter => Some(0x24),
        KeyCode::KeyL => Some(0x25),
        KeyCode::KeyJ => Some(0x26),
        KeyCode::Quote => Some(0x27),
        KeyCode::KeyK => Some(0x28),
        KeyCode::Semicolon => Some(0x29),
        KeyCode::Backslash => Some(0x2a),
        KeyCode::Comma => Some(0x2b),
        KeyCode::Slash => Some(0x2c),
        KeyCode::KeyN => Some(0x2d),
        KeyCode::KeyM => Some(0x2e),
        KeyCode::Period => Some(0x2f),
        KeyCode::Tab => Some(0x30),
        KeyCode::Space => Some(0x31),
        KeyCode::Backquote => Some(0x32),
        KeyCode::Backspace => Some(0x33),
        KeyCode::Escape => Some(0x35),
        KeyCode::SuperRight => Some(0x36),
        KeyCode::SuperLeft => Some(0x37),
        KeyCode::ShiftLeft => Some(0x38),
        KeyCode::AltLeft => Some(0x3a),
        KeyCode::ControlLeft => Some(0x3b),
        KeyCode::ShiftRight => Some(0x3c),
        KeyCode::AltRight => Some(0x3d),
        KeyCode::ControlRight => Some(0x3e),
        KeyCode::F17 => Some(0x40),
        KeyCode::NumpadDecimal => Some(0x41),
        KeyCode::NumpadMultiply => Some(0x43),
        KeyCode::NumpadAdd => Some(0x45),
        KeyCode::NumLock => Some(0x47),
        KeyCode::AudioVolumeUp => Some(0x49),
        KeyCode::AudioVolumeDown => Some(0x4a),
        KeyCode::NumpadDivide => Some(0x4b),
        KeyCode::NumpadEnter => Some(0x4c),
        KeyCode::NumpadSubtract => Some(0x4e),
        KeyCode::F18 => Some(0x4f),
        KeyCode::F19 => Some(0x50),
        KeyCode::NumpadEqual => Some(0x51),
        KeyCode::Numpad0 => Some(0x52),
        KeyCode::Numpad1 => Some(0x53),
        KeyCode::Numpad2 => Some(0x54),
        KeyCode::Numpad3 => Some(0x55),
        KeyCode::Numpad4 => Some(0x56),
        KeyCode::Numpad5 => Some(0x57),
        KeyCode::Numpad6 => Some(0x58),
        KeyCode::Numpad7 => Some(0x59),
        KeyCode::F20 => Some(0x5a),
        KeyCode::Numpad8 => Some(0x5b),
        KeyCode::Numpad9 => Some(0x5c),
        KeyCode::IntlYen => Some(0x5d),
        KeyCode::F5 => Some(0x60),
        KeyCode::F6 => Some(0x61),
        KeyCode::F7 => Some(0x62),
        KeyCode::F3 => Some(0x63),
        KeyCode::F8 => Some(0x64),
        KeyCode::F9 => Some(0x65),
        KeyCode::F11 => Some(0x67),
        KeyCode::F13 => Some(0x69),
        KeyCode::F16 => Some(0x6a),
        KeyCode::F14 => Some(0x6b),
        KeyCode::F10 => Some(0x6d),
        KeyCode::F12 => Some(0x6f),
        KeyCode::F15 => Some(0x71),
        KeyCode::Insert => Some(0x72),
        KeyCode::Home => Some(0x73),
        KeyCode::PageUp => Some(0x74),
        KeyCode::Delete => Some(0x75),
        KeyCode::F4 => Some(0x76),
        KeyCode::End => Some(0x77),
        KeyCode::F2 => Some(0x78),
        KeyCode::PageDown => Some(0x79),
        KeyCode::F1 => Some(0x7a),
        KeyCode::ArrowLeft => Some(0x7b),
        KeyCode::ArrowRight => Some(0x7c),
        KeyCode::ArrowDown => Some(0x7d),
        KeyCode::ArrowUp => Some(0x7e),
        _ => None,
    }
}

/// The named logical key that a key code produces on macOS regardless of layout.
pub open spec fn named_key_of_code(code: KeyCode) -> Option<NamedKey> {
    match code {
        KeyCode::Enter => Some(NamedKey::Enter),
        KeyCode::Tab => Some(NamedKey::Tab),
        KeyCode::Space => Some(NamedKey::Space),
        KeyCode::Backspace => Some(NamedKey::Backspace),
        KeyCode::Escape => Some(NamedKey::Escape),
        KeyCode::SuperRight => Some(NamedKey::Super),
        KeyCode::SuperLeft => Some(NamedKey::Super),
        KeyCode::ShiftLeft => Some(NamedKey::Shift),
        KeyCode::AltLeft => Some(NamedKey::Alt),
        KeyCode::ControlLeft => Some(NamedKey::Control),
        KeyCode::ShiftRight => Some(NamedKey::Shift),
        KeyCode::AltRight => Some(NamedKey::Alt),
        KeyCode::ControlRight => Some(NamedKey::Control),
        KeyCode::NumLock => Some(NamedKey::NumLock),
        KeyCode::AudioVolumeUp => Some(NamedKey::AudioVolumeUp),
        KeyCode::AudioVolumeDown => Some(NamedKey::AudioVolumeDown),
        KeyCode::NumpadEnter => Some(NamedKey::Enter),
        KeyCode::F1 => Some(NamedKey::F1),
        KeyCode::F2 => Some(NamedKey::F2),
        KeyCode::F3 => Some(NamedKey::F3),
        KeyCode::F4 => Some(NamedKey::F4),
        KeyCode::F5 => Some(NamedKey::F5),
        KeyCode::F6 => Some(NamedKey::F6),
        KeyCode::F7 => Some(NamedKey::F7),
        KeyCode::F8 => Some(NamedKey::F8),
        KeyCode::F9 => Some(NamedKey::F9),
        KeyCode::F10 => Some(NamedKey::F10),
        KeyCode::F11 => Some(NamedKey::F11),
        KeyCode::F12 => Some(NamedKey::F12),
        KeyCode::F13 => Some(NamedKey::F13),
        KeyCode::F14 => Some(NamedKey::F14),
        KeyCode::F15 => Some(NamedKey::F15),
        KeyCode::F16 => Some(NamedKey::F16),
        KeyCode::F17 => Some(NamedKey::F17),
        KeyCode::F18 => Some(NamedKey::F18),
        KeyCode::F19 => Some(NamedKey::F19),
        KeyCode::F20 => Some(NamedKey::F20),
        KeyCode::Insert => Some(NamedKey::Insert),
        KeyCode::Home => Some(NamedKey::Home),
        KeyCode::PageUp => Some(NamedKey::PageUp),
        KeyCode::Delete => Some(NamedKey::Delete),
        KeyCode::End => Some(NamedKey::End),
        KeyCode::PageDown => Some(NamedKey::PageDown),
        KeyCode::ArrowLeft => Some(NamedKey::ArrowLeft),
        KeyCode::ArrowRight => Some(NamedKey::ArrowRight),
        KeyCode::ArrowDown => Some(NamedKey::ArrowDown),
        KeyCode::ArrowUp => Some(NamedKey::ArrowUp),
        _ => None,
    }
}

/// The logical key of a physical key when it does not depend on the keyboard layout.
pub open spec fn code_key(key: PhysicalKey, scancode: u16) -> KeyView {
    match key {
        PhysicalKey::Unidentified(native) => KeyView::Unidentified(native_key_of(native)),
        PhysicalKey::Code(code) => match named_key_of_code(code) {
            Some(named) => KeyView::Named(named),
            None => KeyView::Unidentified(NativeKey::MacOS(scancode)),
        },
    }
}

/// The logical key for keys whose meaning does not depend on the layout (modifiers,
/// function keys, navigation keys, ...); `Unidentified` for all others.
pub fn code_to_key(key: PhysicalKey, scancode: u16) -> (r: Key)
    ensures
        r@ == code_key(key, scancode),
{
    let code = match key {
        PhysicalKey::Code(code) => code,
        PhysicalKey::Unidentified(code) => return Key::Unidentified(code.to_native_key()),
    };
    Key::Named(
        match code {
            KeyCode::Enter => NamedKey::Enter,
            KeyCode::Tab => NamedKey::Tab,
            KeyCode::Space => NamedKey::Space,
            KeyCode::Backspace => NamedKey::Backspace,
            KeyCode::Escape => NamedKey::Escape,
            KeyCode::SuperRight => NamedKey::Super,
            KeyCode::SuperLeft => NamedKey::Super,
            KeyCode::ShiftLeft => NamedKey::Shift,
            KeyCode::AltLeft => NamedKey::Alt,
            KeyCode::ControlLeft => NamedKey::Control,
            KeyCode::ShiftRight => NamedKey::Shift,
            KeyCode::AltRight => NamedKey::Alt,
            KeyCode::ControlRight => NamedKey::Control,
            KeyCode::NumLock => NamedKey::NumLock,
            KeyCode::AudioVolumeUp => NamedKey::AudioVolumeUp,
            KeyCode::AudioVolumeDown => NamedKey::AudioVolumeDown,
            KeyCode::NumpadEnter => NamedKey::Enter,
            KeyCode::F1 => NamedKey::F1,
            KeyCode::F2 => NamedKey::F2,
            KeyCode::F3 => NamedKey::F3,
            KeyCode::F4 => NamedKey::F4,
            KeyCode::F5 => NamedKey::F5,
            KeyCode::F6 => NamedKey::F6,
            KeyCode::F7 => NamedKey::F7,
            KeyCode::F8 => NamedKey::F8,
            KeyCode::F9 => NamedKey::F9,
            KeyCode::F10 => NamedKey::F10,
            KeyCode::F11 => NamedKey::F11,
            KeyCode::F12 => NamedKey::F12,
            KeyCode::F13 => NamedKey::F13,
            KeyCode::F14 => NamedKey::F14,
            KeyCode::F15 => NamedKey::F15,
            KeyCode::F16 => NamedKey::F16,
            KeyCode::F17 => NamedKey::F17,
            KeyCode::F18 => NamedKey::F18,
            KeyCode::F19 => NamedKey::F19,
            KeyCode::F20 => NamedKey::F20,
            KeyCode::Insert => NamedKey::Insert,
            KeyCode::Home => NamedKey::Home,
            KeyCode::PageUp => NamedKey::PageUp,
            KeyCode::Delete => NamedKey::Delete,
            KeyCode::End => NamedKey::End,
            KeyCode::PageDown => NamedKey::PageDown,
            KeyCode::ArrowLeft => NamedKey::ArrowLeft,
            KeyCode::ArrowRight => NamedKey::ArrowRight,
            KeyCode::ArrowDown => NamedKey::ArrowDown,
            KeyCode::ArrowUp => NamedKey::ArrowUp,
            _ => return Key::Unidentified(NativeKey::MacOS(scancode)),
        },
    )
}

/// Where on the keyboard a physical key is.
pub open spec fn code_location(key: PhysicalKey) -> KeyLocation {
    match key {
        PhysicalKey::Unidentified(_) => KeyLocation::Standard,
        PhysicalKey::Code(code) => match code {
            KeyCode::SuperRight => KeyLocation::Right,
            KeyCode::SuperLeft => KeyLocation::Left,
            KeyCode::ShiftLeft => KeyLocation::Left,
            KeyCode::AltLeft => KeyLocation::Left,
            KeyCode::ControlLeft => KeyLocation::Left,
            KeyCode::ShiftRight => KeyLocation::Right,
            KeyCode::AltRight => KeyLocation::Right,
            KeyCode::ControlRight => KeyLocation::Right,
            KeyCode::NumLock => KeyLocation::Numpad,
            KeyCode::NumpadDecimal => KeyLocation::Numpad,
            KeyCode::NumpadMultiply => KeyLocation::Numpad,
            KeyCode::NumpadAdd => KeyLocation::Numpad,
            KeyCode::NumpadDivide => KeyLocation::Numpad,
            KeyCode::NumpadEnter => KeyLocation::Numpad,
            KeyCode::NumpadSubtract => KeyLocation::Numpad,
            KeyCode::NumpadEqual => KeyLocation::Numpad,
            KeyCode::Numpad0 => KeyLocation::Numpad,
            KeyCode::Numpad1 => KeyLocation::Numpad,
            KeyCode::Numpad2 => KeyLocation::Numpad,
            KeyCode::Numpad3 => KeyLocation::Numpad,
            KeyCode::Numpad4 => KeyLocation::Numpad,
            KeyCode::Numpad5 => KeyLocation::Numpad,
            KeyCode::Numpad6 => KeyLocation::Numpad,
            KeyCode::Numpad7 => KeyLocation::Numpad,
            KeyCode::Numpad8 => KeyLocation::Numpad,
            KeyCode::Numpad9 => KeyLocation::Numpad,
            _ => KeyLocation::Standard,
        },
    }
}

/// The location of a physical key: left or right for modifiers, numpad for keypad keys.
pub fn code_to_location(key: PhysicalKey) -> (r: KeyLocation)
    ensures
        r == code_location(key),
{
    let code = match key {
        PhysicalKey::Code(code) => code,
        PhysicalKey::Unidentified(_) => return KeyLocation::Standard,
    };
    match code {
        KeyCode::SuperRight => KeyLocation::Right,
        KeyCode::SuperLeft => KeyLocation::Left,
        KeyCode::ShiftLeft => KeyLocation::Left,
        KeyCode::AltLeft => KeyLocation::Left,
        KeyCode::ControlLeft => KeyLocation::Left,
        KeyCode::ShiftRight => KeyLocation::Right,
        KeyCode::AltRight => KeyLocation::Right,
        KeyCode::ControlRight => KeyLocation::Right,
        KeyCode::NumLock => KeyLocation::Numpad,
        KeyCode::NumpadDecimal => KeyLocation::Numpad,
        KeyCode::NumpadMultiply => KeyLocation::Numpad,
        KeyCode::NumpadAdd => KeyLocation::Numpad,
        KeyCode::NumpadDivide => KeyLocation::Numpad,
        KeyCode::NumpadEnter => KeyLocation::Numpad,
        KeyCode::NumpadSubtract => KeyLocation::Numpad,
        KeyCode::NumpadEqual => KeyLocation::Numpad,
        KeyCode::Numpad0 => KeyLocation::Numpad,
        KeyCode::Numpad1 => KeyLocation::Numpad,
        KeyCode::Numpad2 => KeyLocation::Numpad,
        KeyCode::Numpad3 => KeyLocation::Numpad,
        KeyCode::Numpad4 => KeyLocation::Numpad,
        KeyCode::Numpad5 => KeyLocation::Numpad,
        KeyCode::Numpad6 => KeyLocation::Numpad,
        KeyCode::Numpad7 => KeyLocation::Numpad,
        KeyCode::Numpad8 => KeyLocation::Numpad,
        KeyCode::Numpad9 => KeyLocation::Numpad,
        _ => KeyLocation::Standard,
    }
}

/// The first UTF-16 code unit of a text, if it is not empty: the character itself inside
/// the basic plane, its high surrogate outside it.
pub open spec fn first_utf16_unit(s: Seq<char>) -> Option<int> {
    if s.len() == 0 {
        None
    } else if (s[0] as u32) < 0x10000 {
        Some(s[0] as u32 as int)
    } else {
        Some(0xD800 + (s[0] as u32 - 0x10000) / 0x400)
    }
}

/// The physical key of the function keys F21-F24, which macOS reports only through the
/// private-use characters U+F718-U+F71B.
pub open spec fn extra_function_key(scancode: u16, s: Seq<char>) -> PhysicalKey {
    match first_utf16_unit(s) {
        Some(u) => if u == 0xf718 {
            PhysicalKey::Code(KeyCode::F21)
        } else if u == 0xf719 {
            PhysicalKey::Code(KeyCode::F22)
        } else if u == 0xf71a {
            PhysicalKey::Code(KeyCode::F23)
        } else if u == 0xf71b {
            PhysicalKey::Code(KeyCode::F24)
        } else {
            PhysicalKey::Unidentified(NativeKeyCode::MacOS(scancode))
        },
        None => PhysicalKey::Unidentified(NativeKeyCode::MacOS(scancode)),
    }
}

/// The first character of a string, if any.
fn first_char(s: &str) -> (r: Option<char>)
    ensures
        r == (if s@.len() == 0 { None } else { Some(s@[0]) }),
{
    let mut it = s.chars();
    it.next()
}

/// Recognises F21-F24 from the characters of a key event whose scancode is unknown.
pub fn extra_function_key_to_code(scancode: u16, string: &str) -> (r: PhysicalKey)
    ensures
        r == extra_function_key(scancode, string@),
{
    match first_char(string) {
        Some(c) => {
            proof {
                assert(string@[0] == c);
                vstd::utf8::char_is_scalar(c);
            }
            let unit = c as u32;
            if unit == 0xf718 {
                PhysicalKey::Code(KeyCode::F21)
            } else if unit == 0xf719 {
                PhysicalKey::Code(KeyCode::F22)
            } else if unit == 0xf71a {
                PhysicalKey::Code(KeyCode::F23)
            } else if unit == 0xf71b {
                PhysicalKey::Code(KeyCode::F24)
            } else {
                PhysicalKey::Unidentified(NativeKeyCode::MacOS(scancode))
            }
        },
        None => PhysicalKey::Unidentified(NativeKeyCode::MacOS(scancode)),
    }
}

/// `NSEventModifierFlags` bits reported by AppKit for the logical modifiers.
pub const NS_FLAG_SHIFT: usize = 1 << 17;
pub const NS_FLAG_CONTROL: usize = 1 << 18;
pub const NS_FLAG_OPTION: usize = 1 << 19;
pub const NS_FLAG_COMMAND: usize = 1 << 20;

/// Device-dependent bits of the modifier flags that tell left and right modifier keys apart
/// (from IOKit's `IOLLEvent.h`).
pub const NX_DEVICELCTLKEYMASK: usize = 0x00000001;
pub const NX_DEVICELSHIFTKEYMASK: usize = 0x00000002;
pub const NX_DEVICERSHIFTKEYMASK: usize = 0x00000004;
pub const NX_DEVICELCMDKEYMASK: usize = 0x00000008;
pub const NX_DEVICERCMDKEYMASK: usize = 0x00000010;
pub const NX_DEVICELALTKEYMASK: usize = 0x00000020;
pub const NX_DEVICERALTKEYMASK: usize = 0x00000040;
pub const NX_DEVICERCTLKEYMASK: usize = 0x00002000;

/// Whether all bits of `mask` are set in `flags`.
pub open spec fn flags_contain(flags: usize, mask: usize) -> bool {
    flags & mask == mask
}

/// Whether the left Option key is held, according to an event's modifier flags.
pub fn lalt_pressed(flags: usize) -> (r: bool)
    ensures
        r == flags_contain(flags, NX_DEVICELALTKEYMASK),
{
    flags & NX_DEVICELALTKEYMASK == NX_DEVICELALTKEYMASK
}

/// Whether the right Option key is held, according to an event's modifier flags.
pub fn ralt_pressed(flags: usize) -> (r: bool)
    ensures
        r == flags_contain(flags, NX_DEVICERALTKEYMASK),
{
    flags & NX_DEVICERALTKEYMASK == NX_DEVICERALTKEYMASK
}

/// The logical modifiers that a set of modifier flags reports.
pub open spec fn modifiers_state_bits(flags: usize) -> u32 {
    (if flags_contain(flags, NS_FLAG_SHIFT) { MODS_SHIFT } else { 0 }) | (if flags_contain(
        flags,
        NS_FLAG_CONTROL,
    ) {
        MODS_CONTROL
    } else {
        0
    }) | (if flags_contain(flags, NS_FLAG_OPTION) { MODS_ALT } else { 0 }) | (if flags_contain(
        flags,
        NS_FLAG_COMMAND,
    ) {
        MODS_SUPER
    } else {
        0
    })
}

/// The physical modifier keys that a set of modifier flags reports as held.
pub open spec fn modifiers_keys_bits(flags: usize) -> u8 {
    (if flags_contain(flags, NX_DEVICELSHIFTKEYMASK) { KEYS_LSHIFT } else { 0 }) | (if flags_contain(
        flags,
        NX_DEVICERSHIFTKEYMASK,
    ) {
        KEYS_RSHIFT
    } else {
        0
    }) | (if flags_contain(flags, NX_DEVICELCTLKEYMASK) { KEYS_LCONTROL } else { 0 }) | (
    if flags_contain(flags, NX_DEVICERCTLKEYMASK) {
        KEYS_RCONTROL
    } else {
        0
    }) | (if flags_contain(flags, NX_DEVICELALTKEYMASK) { KEYS_LALT } else { 0 }) | (
    if flags_contain(flags, NX_DEVICERALTKEYMASK) {
        KEYS_RALT
    } else {
        0
    }) | (if flags_contain(flags, NX_DEVICELCMDKEYMASK) { KEYS_LSUPER } else { 0 }) | (
    if flags_contain(flags, NX_DEVICERCMDKEYMASK) {
        KEYS_RSUPER
    } else {
        0
    })
}

/// The modifier state and held modifier keys of an event, from its modifier flags.
pub fn event_mods(flags: usize) -> (r: Modifiers)
    ensures
        r.state.bits == modifiers_state_bits(flags),
        r.pressed_mods.bits == modifiers_keys_bits(flags),
{
    let has_shift = flags & NS_FLAG_SHIFT == NS_FLAG_SHIFT;
    let has_control = flags & NS_FLAG_CONTROL == NS_FLAG_CONTROL;
    let has_option = flags & NS_FLAG_OPTION == NS_FLAG_OPTION;
    let has_command = flags & NS_FLAG_COMMAND == NS_FLAG_COMMAND;
    let state: u32 = (if has_shift { MODS_SHIFT } else { 0 }) | (if has_control {
        MODS_CONTROL
    } else {
        0
    }) | (if has_option { MODS_ALT } else { 0 }) | (if has_command { MODS_SUPER } else { 0 });
    let lshift = flags & NX_DEVICELSHIFTKEYMASK == NX_DEVICELSHIFTKEYMASK;
    let rshift = flags & NX_DEVICERSHIFTKEYMASK == NX_DEVICERSHIFTKEYMASK;
    let lctl = flags & NX_DEVICELCTLKEYMASK == NX_DEVICELCTLKEYMASK;
    let rctl = flags & NX_DEVICERCTLKEYMASK == NX_DEVICERCTLKEYMASK;
    let lalt = flags & NX_DEVICELALTKEYMASK == NX_DEVICELALTKEYMASK;
    let ralt = flags & NX_DEVICERALTKEYMASK == NX_DEVICERALTKEYMASK;
    let lcmd = flags & NX_DEVICELCMDKEYMASK == NX_DEVICELCMDKEYMASK;
    let rcmd = flags & NX_DEVICERCMDKEYMASK == NX_DEVICERCMDKEYMASK;
    let keys: u8 = (if lshift { KEYS_LSHIFT } else { 0 }) | (if rshift { KEYS_RSHIFT } else { 0 })
        | (if lctl { KEYS_LCONTROL } else { 0 }) | (if rctl { KEYS_RCONTROL } else { 0 }) | (if lalt {
        KEYS_LALT
    } else {
        0
    }) | (if ralt { KEYS_RALT } else { 0 }) | (if lcmd { KEYS_LSUPER } else { 0 }) | (if rcmd {
        KEYS_RSUPER
    } else {
        0
    });
    Modifiers { state: ModifiersState { bits: state }, pressed_mods: ModifiersKeys { bits: keys } }
}

/// Each logical modifier of the state computed from a set of flags is active exactly when its
/// flag is set, and no other bit is.
pub proof fn lemma_modifiers_state_bits(flags: usize)
    ensures
        (modifiers_state_bits(flags) & MODS_SHIFT != 0) == flags_contain(flags, NS_FLAG_SHIFT),
        (modifiers_state_bits(flags) & MODS_CONTROL != 0) == flags_contain(flags, NS_FLAG_CONTROL),
        (modifiers_state_bits(flags) & MODS_ALT != 0) == flags_contain(flags, NS_FLAG_OPTION),
        (modifiers_state_bits(flags) & MODS_SUPER != 0) == flags_contain(flags, NS_FLAG_COMMAND),
        modifiers_state_bits(flags) & !(MODS_SHIFT | MODS_CONTROL | MODS_ALT | MODS_SUPER) == 0,
{
    let a = flags_contain(flags, NS_FLAG_SHIFT);
    let b = flags_contain(flags, NS_FLAG_CONTROL);
    let c = flags_contain(flags, NS_FLAG_OPTION);
    let d = flags_contain(flags, NS_FLAG_COMMAND);
    let x: u32 = (if a { 0b100u32 } else { 0u32 }) | (if b { 0b100000u32 } else { 0u32 }) | (if c {
        0b100000000u32
    } else {
        0u32
    }) | (if d { 0b100000000000u32 } else { 0u32 });
    assert(x == modifiers_state_bits(flags));
    assert((x & 0b100u32 != 0) == a && (x & 0b100000u32 != 0) == b && (x & 0b100000000u32 != 0)
        == c && (x & 0b100000000000u32 != 0) == d && x & !(0b100u32 | 0b100000u32 | 0b100000000u32
        | 0b100000000000u32) == 0) by (bit_vector)
        requires
            x == (if a { 0b100u32 } else { 0u32 }) | (if b { 0b100000u32 } else { 0u32 }) | (if c {
                0b100000000u32
            } else {
                0u32
            }) | (if d { 0b100000000000u32 } else { 0u32 }),
    ;
}

/// The bit tests of a set of modifier flags, as single bits.
proof fn lemma_flag_bits(flags: usize)
    by (bit_vector)
    ensures
        forall|m: usize| #![trigger flags & m]
            (m == 0x1 || m == 0x2 || m == 0x4 || m == 0x8 || m == 0x10 || m == 0x20 || m == 0x40
                || m == 0x2000 || m == 0x20000 || m == 0x40000 || m == 0x80000 || m == 0x100000)
                ==> ((flags & m == m) == (flags & m != 0)),
{
}

/// What the modifiers of an event are, by the bits of its modifier flags
/// (`NSEventModifierFlags`, and the device bits of the left and right keys): Shift (bit 17)
/// sets the state's Shift bit (0x4), Control (bit 18) its Control bit (0x20), Option (bit 19)
/// its Alt bit (0x100) and Command (bit 20) its Super bit (0x800), and nothing else is set;
/// the device bits of left Control (0x1), left Shift (0x2), right Shift (0x4), left Command
/// (0x8), right Command (0x10), left Option (0x20), right Option (0x40) and right Control
/// (0x2000) set the held keys' bits for left Shift (0x1), right Shift (0x2), left Control
/// (0x4), right Control (0x8), left Alt (0x10), right Alt (0x20), left Super (0x40) and
/// right Super (0x80).
pub proof fn lemma_event_mods_flags(flags: usize)
    ensures
        ({
            let st = modifiers_state_bits(flags);
            &&& (st & 0x4 != 0) == (flags & 0x20000 != 0)
            &&& (st & 0x20 != 0) == (flags & 0x40000 != 0)
            &&& (st & 0x100 != 0) == (flags & 0x80000 != 0)
            &&& (st & 0x800 != 0) == (flags & 0x100000 != 0)
            &&& st & !(0x4u32 | 0x20u32 | 0x100u32 | 0x800u32) == 0
        }),
        ({
            let k = modifiers_keys_bits(flags);
            &&& (k & 0x1 != 0) == (flags & 0x2 != 0)
            &&& (k & 0x2 != 0) == (flags & 0x4 != 0)
            &&& (k & 0x4 != 0) == (flags & 0x1 != 0)
            &&& (k & 0x8 != 0) == (flags & 0x2000 != 0)
            &&& (k & 0x10 != 0) == (flags & 0x20 != 0)
            &&& (k & 0x20 != 0) == (flags & 0x40 != 0)
            &&& (k & 0x40 != 0) == (flags & 0x8 != 0)
            &&& (k & 0x80 != 0) == (flags & 0x10 != 0)
        }),
{
    lemma_flag_bits(flags);
    assert(NS_FLAG_SHIFT == 0x20000 && NS_FLAG_CONTROL == 0x40000 && NS_FLAG_OPTION == 0x80000
        && NS_FLAG_COMMAND == 0x100000) by (bit_vector);
    assert(flags & 0x20000 == 0x20000 <==> flags & 0x20000 != 0);
    assert(flags & 0x40000 == 0x40000 <==> flags & 0x40000 != 0);
    assert(flags & 0x80000 == 0x80000 <==> flags & 0x80000 != 0);
    assert(flags & 0x100000 == 0x100000 <==> flags & 0x100000 != 0);
    let a = flags & 0x20000 != 0;
    let b = flags & 0x40000 != 0;
    let c = flags & 0x80000 != 0;
    let d = flags & 0x100000 != 0;
    let x: u32 = (if a { 0x4u32 } else { 0u32 }) | (if b { 0x20u32 } else { 0u32 }) | (if c {
        0x100u32
    } else {
        0u32
    }) | (if d { 0x800u32 } else { 0u32 });
    assert(x == modifiers_state_bits(flags));
    assert((x & 0x4 != 0) == a && (x & 0x20 != 0) == b && (x & 0x100 != 0) == c && (x & 0x800
        != 0) == d && x & !(0x4u32 | 0x20u32 | 0x100u32 | 0x800u32) == 0) by (bit_vector)
        requires
            x == (if a { 0x4u32 } else { 0u32 }) | (if b { 0x20u32 } else { 0u32 }) | (if c {
                0x100u32
            } else {
                0u32
            }) | (if d { 0x800u32 } else { 0u32 }),
    ;
    assert(flags & 0x1 == 0x1 <==> flags & 0x1 != 0);
    assert(flags & 0x2 == 0x2 <==> flags & 0x2 != 0);
    assert(flags & 0x4 == 0x4 <==> flags & 0x4 != 0);
    assert(flags & 0x8 == 0x8 <==> flags & 0x8 != 0);
    assert(flags & 0x10 == 0x10 <==> flags & 0x10 != 0);
    assert(flags & 0x20 == 0x20 <==> flags & 0x20 != 0);
    assert(flags & 0x40 == 0x40 <==> flags & 0x40 != 0);
    assert(flags & 0x2000 == 0x2000 <==> flags & 0x2000 != 0);
    let ls = flags & 0x2 != 0;
    let rs = flags & 0x4 != 0;
    let lc = flags & 0x1 != 0;
    let rc = flags & 0x2000 != 0;
    let la = flags & 0x20 != 0;
    let ra = flags & 0x40 != 0;
    let lm = flags & 0x8 != 0;
    let rm = flags & 0x10 != 0;
    let y: u8 = (if ls { 0x1u8 } else { 0u8 }) | (if rs { 0x2u8 } else { 0u8 }) | (if lc {
        0x4u8
    } else {
        0u8
    }) | (if rc { 0x8u8 } else { 0u8 }) | (if la { 0x10u8 } else { 0u8 }) | (if ra {
        0x20u8
    } else {
        0u8
    }) | (if lm { 0x40u8 } else { 0u8 }) | (if rm { 0x80u8 } else { 0u8 });
    assert(y == modifiers_keys_bits(flags));
    assert((y & 0x1 != 0) == ls && (y & 0x2 != 0) == rs && (y & 0x4 != 0) == lc && (y & 0x8 != 0)
        == rc && (y & 0x10 != 0) == la && (y & 0x20 != 0) == ra && (y & 0x40 != 0) == lm && (y
        & 0x80 != 0) == rm) by (bit_vector)
        requires
            y == (if ls { 0x1u8 } else { 0u8 }) | (if rs { 0x2u8 } else { 0u8 }) | (if lc {
                0x4u8
            } else {
                0u8
            }) | (if rc { 0x8u8 } else { 0u8 }) | (if la { 0x10u8 } else { 0u8 }) | (if ra {
                0x20u8
            } else {
                0u8
            }) | (if lm { 0x40u8 } else { 0u8 }) | (if rm { 0x80u8 } else { 0u8 }),
    ;
}

/// The logical keys that key codes give on macOS whatever the layout: each key code listed
/// gives the named key shown (both Enter keys give Enter, and the left and right modifier
/// keys give their modifier); every other key code gives an unidentified key with the raw
/// scancode.
pub proof fn lemma_named_key_table(scancode: u16)
    ensures
        code_key(PhysicalKey::Code(KeyCode::Backquote), scancode) == KeyView::Unidentified(NativeKey::MacOS(scancode)),
        code_key(PhysicalKey::Code(KeyCode::Backslash), scancode) == KeyView::Unidentified(NativeKey::MacOS(scancode)),
        code_key(PhysicalKey::Code(KeyCode::BracketLeft), scancode) == KeyView::Unidentified(NativeKey::MacOS(scancode)),
        code_key(PhysicalKey::Code(KeyCode::BracketRight), scancode) == KeyView::Unidentified(NativeKey::MacOS(scancode)),
        code_key(PhysicalKey::Code(KeyCode::Comma), scancode) == KeyView::Unidentified(NativeKey::MacOS(scancode)),
        code_key(PhysicalKey::Code(KeyCode::Digit0), scancode) == KeyView::Unidentified(NativeKey::MacOS(scancode)),
        code_key(PhysicalKey::Code(KeyCode::Digit1), scancode) == KeyView::Unidentified(NativeKey::MacOS(scancode)),
        code_key(PhysicalKey::Code(KeyCode::Digit2), scancode) == KeyView::Unidentified(NativeKey::MacOS(scancode)),
        code_key(PhysicalKey::Code(KeyCode::Digit3), scancode) == KeyView::Unidentified(NativeKey::MacOS(scancode)),
        code_key(PhysicalKey::Code(KeyCode::Digit4), scancode) == KeyView::Unidentified(NativeKey::MacOS(scancode)),
        code_key(PhysicalKey::Code(KeyCode::Digit5), scancode) == KeyView::Unidentified(NativeKey::MacOS(scancode)),
        code_key(PhysicalKey::Code(KeyCode::Digit6), scancode) == KeyView::Unidentified(NativeKey::MacOS(scancode)),
        code_key(PhysicalKey::Code(KeyCode::Digit7), scancode) == KeyView::Unidentified(NativeKey::MacOS(scancode)),
        code_key(PhysicalKey::Code(KeyCode::Digit8), scancode) == KeyView::Unidentified(NativeKey::MacOS(scancode)),
        code_key(PhysicalKey::Code(KeyCode::Digit9), scancode) == KeyView::Unidentified(NativeKey::MacOS(scancode)),
        code_key(PhysicalKey::Code(KeyCode::Equal), scancode) == KeyView::Unidentified(NativeKey::MacOS(scancode)),
        code_key(PhysicalKey::Code(KeyCode::IntlBackslash), scancode) == KeyView::Unidentified(NativeKey::MacOS(scancode)),
        code_key(PhysicalKey::Code(KeyCode::IntlRo), scancode) == KeyView::Unidentified(NativeKey::MacOS(scancode)),
        code_key(PhysicalKey::Code(KeyCode::IntlYen), scancode) == KeyView::Unidentified(NativeKey::MacOS(scancode)),
        code_key(PhysicalKey::Code(KeyCode::KeyA), scancode) == KeyView::Unidentified(NativeKey::MacOS(scancode)),
        code_key(PhysicalKey::Code(KeyCode::KeyB), scancode) == KeyView::Unidentified(NativeKey::MacOS(scancode)),
        code_key(PhysicalKey::Code(KeyCode::KeyC), scancode) == KeyView::Unidentified(NativeKey::MacOS(scancode)),
        code_key(PhysicalKey::Code(KeyCode::KeyD), scancode) == KeyView::Unidentified(NativeKey::MacOS(scancode)),
        code_key(PhysicalKey::Code(KeyCode::KeyE), scancode) == KeyView::Unidentified(NativeKey::MacOS(scancode)),
        code_key(PhysicalKey::Code(KeyCode::KeyF), scancode) == KeyView::Unidentified(NativeKey::MacOS(scancode)),
        code_key(PhysicalKey::Code(KeyCode::KeyG), scancode) == KeyView::Unidentified(NativeKey::MacOS(scancode)),
        code_key(PhysicalKey::Code(KeyCode::KeyH), scancode) == KeyView::Unidentified(NativeKey::MacOS(scancode)),
        code_key(PhysicalKey::Code(KeyCode::KeyI), scancode) == KeyView::Unidentified(NativeKey::MacOS(scancode)),
        code_key(PhysicalKey::Code(KeyCode::KeyJ), scancode) == KeyView::Unidentified(NativeKey::MacOS(scancode)),
        code_key(PhysicalKey::Code(KeyCode::KeyK), scancode) == KeyView::Unidentified(NativeKey::MacOS(scancode)),
        code_key(PhysicalKey::Code(KeyCode::KeyL), scancode) == KeyView::Unidentified(NativeKey::MacOS(scancode)),
        code_key(PhysicalKey::Code(KeyCode::KeyM), scancode) == KeyView::Unidentified(NativeKey::MacOS(scancode)),
        code_key(PhysicalKey::Code(KeyCode::KeyN), scancode) == KeyView::Unidentified(NativeKey::MacOS(scancode)),
        code_key(PhysicalKey::Code(KeyCode::KeyO), scancode) == KeyView::Unidentified(NativeKey::MacOS(scancode)),
        code_key(PhysicalKey::Code(KeyCode::KeyP), scancode) == KeyView::Unidentified(NativeKey::MacOS(scancode)),
        code_key(PhysicalKey::Code(KeyCode::KeyQ), scancode) == KeyView::Unidentified(NativeKey::MacOS(scancode)),
        code_key(PhysicalKey::Code(KeyCode::KeyR), scancode) == KeyView::Unidentified(NativeKey::MacOS(scancode)),
        code_key(PhysicalKey::Code(KeyCode::KeyS), scancode) == KeyView::Unidentified(NativeKey::MacOS(scancode)),
        code_key(PhysicalKey::Code(KeyCode::KeyT), scancode) == KeyView::Unidentified(NativeKey::MacOS(scancode)),
        code_key(PhysicalKey::Code(KeyCode::KeyU), scancode) == KeyView::Unidentified(NativeKey::MacOS(scancode)),
        code_key(PhysicalKey::Code(KeyCode::KeyV), scancode) == KeyView::Unidentified(NativeKey::MacOS(scancode)),
        code_key(PhysicalKey::Code(KeyCode::KeyW), scancode) == KeyView::Unidentified(NativeKey::MacOS(scancode)),
        code_key(PhysicalKey::Code(KeyCode::KeyX), scancode) == KeyView::Unidentified(NativeKey::MacOS(scancode)),
        code_key(PhysicalKey::Code(KeyCode::KeyY), scancode) == KeyView::Unidentified(NativeKey::MacOS(scancode)),
        code_key(PhysicalKey::Code(KeyCode::KeyZ), scancode) == KeyView::Unidentified(NativeKey::MacOS(scancode)),
        code_key(PhysicalKey::Code(KeyCode::Minus), scancode) == KeyView::Unidentified(NativeKey::MacOS(scancode)),
        code_key(PhysicalKey::Code(KeyCode::Period), scancode) == KeyView::Unidentified(NativeKey::MacOS(scancode)),
        code_key(PhysicalKey::Code(KeyCode::Quote), scancode) == KeyView::Unidentified(NativeKey::MacOS(scancode)),
        code_key(PhysicalKey::Code(KeyCode::Semicolon), scancode) == KeyView::Unidentified(NativeKey::MacOS(scancode)),
        code_key(PhysicalKey::Code(KeyCode::Slash), scancode) == KeyView::Unidentified(NativeKey::MacOS(scancode)),
        code_key(PhysicalKey::Code(KeyCode::AltLeft), scancode) == KeyView::Named(NamedKey::Alt),
        code_key(PhysicalKey::Code(KeyCode::AltRight), scancode) == KeyView::Named(NamedKey::Alt),
        code_key(PhysicalKey::Code(KeyCode::Backspace), scancode) == KeyView::Named(NamedKey::Backspace),
        code_key(PhysicalKey::Code(KeyCode::CapsLock), scancode) == KeyView::Unidentified(NativeKey::MacOS(scancode)),
        code_key(PhysicalKey::Code(KeyCode::ContextMenu), scancode) == KeyView::Unidentified(NativeKey::MacOS(scancode)),
        code_key(PhysicalKey::Code(KeyCode::ControlLeft), scancode) == KeyView::Named(NamedKey::Control),
        code_key(PhysicalKey::Code(KeyCode::ControlRight), scancode) == KeyView::Named(NamedKey::Control),
        code_key(PhysicalKey::Code(KeyCode::Enter), scancode) == KeyView::Named(NamedKey::Enter),
        code_key(PhysicalKey::Code(KeyCode::SuperLeft), scancode) == KeyView::Named(NamedKey::Super),
        code_key(PhysicalKey::Code(KeyCode::SuperRight), scancode) == KeyView::Named(NamedKey::Super),
        code_key(PhysicalKey::Code(KeyCode::ShiftLeft), scancode) == KeyView::Named(NamedKey::Shift),
        code_key(PhysicalKey::Code(KeyCode::ShiftRight), scancode) == KeyView::Named(NamedKey::Shift),
        code_key(PhysicalKey::Code(KeyCode::Space), scancode) == KeyView::Named(NamedKey::Space),
        code_key(PhysicalKey::Code(KeyCode::Tab), scancode) == KeyView::Named(NamedKey::Tab),
        code_key(PhysicalKey::Code(KeyCode::Convert), scancode) == KeyView::Unidentified(NativeKey::MacOS(scancode)),
        code_key(PhysicalKey::Code(KeyCode::KanaMode), scancode) == KeyView::Unidentified(NativeKey::MacOS(scancode)),
        code_key(PhysicalKey::Code(KeyCode::Lang1), scancode) == KeyView::Unidentified(NativeKey::MacOS(scancode)),
        code_key(PhysicalKey::Code(KeyCode::Lang2), scancode) == KeyView::Unidentified(NativeKey::MacOS(scancode)),
        code_key(PhysicalKey::Code(KeyCode::NonConvert), scancode) == KeyView::Unidentified(NativeKey::MacOS(scancode)),
        code_key(PhysicalKey::Code(KeyCode::Delete), scancode) == KeyView::Named(NamedKey::Delete),
        code_key(PhysicalKey::Code(KeyCode::End), scancode) == KeyView::Named(NamedKey::End),
        code_key(PhysicalKey::Code(KeyCode::Help), scancode) == KeyView::Unidentified(NativeKey::MacOS(scancode)),
        code_key(PhysicalKey::Code(KeyCode::Home), scancode) == KeyView::Named(NamedKey::Home),
        code_key(PhysicalKey::Code(KeyCode::Insert), scancode) == KeyView::Named(NamedKey::Insert),
        code_key(PhysicalKey::Code(KeyCode::PageDown), scancode) == KeyView::Named(NamedKey::PageDown),
        code_key(PhysicalKey::Code(KeyCode::PageUp), scancode) == KeyView::Named(NamedKey::PageUp),
        code_key(PhysicalKey::Code(KeyCode::ArrowDown), scancode) == KeyView::Named(NamedKey::ArrowDown),
        code_key(PhysicalKey::Code(KeyCode::ArrowLeft), scancode) == KeyView::Named(NamedKey::ArrowLeft),
        code_key(PhysicalKey::Code(KeyCode::ArrowRight), scancode) == KeyView::Named(NamedKey::ArrowRight),
        code_key(PhysicalKey::Code(KeyCode::ArrowUp), scancode) == KeyView::Named(NamedKey::ArrowUp),
        code_key(PhysicalKey::Code(KeyCode::NumLock), scancode) == KeyView::Named(NamedKey::NumLock),
        code_key(PhysicalKey::Code(KeyCode::Numpad0), scancode) == KeyView::Unidentified(NativeKey::MacOS(scancode)),
        code_key(PhysicalKey::Code(KeyCode::Numpad1), scancode) == KeyView::Unidentified(NativeKey::MacOS(scancode)),
        code_key(PhysicalKey::Code(KeyCode::Numpad2), scancode) == KeyView::Unidentified(NativeKey::MacOS(scancode)),
        code_key(PhysicalKey::Code(KeyCode::Numpad3), scancode) == KeyView::Unidentified(NativeKey::MacOS(scancode)),
        code_key(PhysicalKey::Code(KeyCode::Numpad4), scancode) == KeyView::Unidentified(NativeKey::MacOS(scancode)),
        code_key(PhysicalKey::Code(KeyCode::Numpad5), scancode) == KeyView::Unidentified(NativeKey::MacOS(scancode)),
        code_key(PhysicalKey::Code(KeyCode::Numpad6), scancode) == KeyView::Unidentified(NativeKey::MacOS(scancode)),
        code_key(PhysicalKey::Code(KeyCode::Numpad7), scancode) == KeyView::Unidentified(NativeKey::MacOS(scancode)),
        code_key(PhysicalKey::Code(KeyCode::Numpad8), scancode) == KeyView::Unidentified(NativeKey::MacOS(scancode)),
        code_key(PhysicalKey::Code(KeyCode::Numpad9), scancode) == KeyView::Unidentified(NativeKey::MacOS(scancode)),
        code_key(PhysicalKey::Code(KeyCode::NumpadAdd), scancode) == KeyView::Unidentified(NativeKey::MacOS(scancode)),
        code_key(PhysicalKey::Code(KeyCode::NumpadBackspace), scancode) == KeyView::Unidentified(NativeKey::MacOS(scancode)),
        code_key(PhysicalKey::Code(KeyCode::NumpadClear), scancode) == KeyView::Unidentified(NativeKey::MacOS(scancode)),
        code_key(PhysicalKey::Code(KeyCode::NumpadComma), scancode) == KeyView::Unidentified(NativeKey::MacOS(scancode)),
        code_key(PhysicalKey::Code(KeyCode::NumpadDecimal), scancode) == KeyView::Unidentified(NativeKey::MacOS(scancode)),
        code_key(PhysicalKey::Code(KeyCode::NumpadDivide), scancode) == KeyView::Unidentified(NativeKey::MacOS(scancode)),
        code_key(PhysicalKey::Code(KeyCode::NumpadEnter), scancode) == KeyView::Named(NamedKey::Enter),
        code_key(PhysicalKey::Code(KeyCode::NumpadEqual), scancode) == KeyView::Unidentified(NativeKey::MacOS(scancode)),
        code_key(PhysicalKey::Code(KeyCode::NumpadMultiply), scancode) == KeyView::Unidentified(NativeKey::MacOS(scancode)),
        code_key(PhysicalKey::Code(KeyCode::NumpadSubtract), scancode) == KeyView::Unidentified(NativeKey::MacOS(scancode)),
        code_key(PhysicalKey::Code(KeyCode::Escape), scancode) == KeyView::Named(NamedKey::Escape),
        code_key(PhysicalKey::Code(KeyCode::Fn), scancode) == KeyView::Unidentified(NativeKey::MacOS(scancode)),
        code_key(PhysicalKey::Code(KeyCode::FnLock), scancode) == KeyView::Unidentified(NativeKey::MacOS(scancode)),
        code_key(PhysicalKey::Code(KeyCode::PrintScreen), scancode) == KeyView::Unidentified(NativeKey::MacOS(scancode)),
        code_key(PhysicalKey::Code(KeyCode::ScrollLock), scancode) == KeyView::Unidentified(NativeKey::MacOS(scancode)),
        code_key(PhysicalKey::Code(KeyCode::Pause), scancode) == KeyView::Unidentified(NativeKey::MacOS(scancode)),
        code_key(PhysicalKey::Code(KeyCode::AudioVolumeDown), scancode) == KeyView::Named(NamedKey::AudioVolumeDown),
        code_key(PhysicalKey::Code(KeyCode::AudioVolumeMute), scancode) == KeyView::Unidentified(NativeKey::MacOS(scancode)),
        code_key(PhysicalKey::Code(KeyCode::AudioVolumeUp), scancode) == KeyView::Named(NamedKey::AudioVolumeUp),
        code_key(PhysicalKey::Code(KeyCode::MediaPlayPause), scancode) == KeyView::Unidentified(NativeKey::MacOS(scancode)),
        code_key(PhysicalKey::Code(KeyCode::MediaStop), scancode) == KeyView::Unidentified(NativeKey::MacOS(scancode)),
        code_key(PhysicalKey::Code(KeyCode::MediaTrackNext), scancode) == KeyView::Unidentified(NativeKey::MacOS(scancode)),
        code_key(PhysicalKey::Code(KeyCode::MediaTrackPrevious), scancode) == KeyView::Unidentified(NativeKey::MacOS(scancode)),
        code_key(PhysicalKey::Code(KeyCode::Power), scancode) == KeyView::Unidentified(NativeKey::MacOS(scancode)),
        code_key(PhysicalKey::Code(KeyCode::F1), scancode) == KeyView::Named(NamedKey::F1),
        code_key(PhysicalKey::Code(KeyCode::F2), scancode) == KeyView::Named(NamedKey::F2),
        code_key(PhysicalKey::Code(KeyCode::F3), scancode) == KeyView::Named(NamedKey::F3),
        code_key(PhysicalKey::Code(KeyCode::F4), scancode) == KeyView::Named(NamedKey::F4),
        code_key(PhysicalKey::Code(KeyCode::F5), scancode) == KeyView::Named(NamedKey::F5),
        code_key(PhysicalKey::Code(KeyCode::F6), scancode) == KeyView::Named(NamedKey::F6),
        code_key(PhysicalKey::Code(KeyCode::F7), scancode) == KeyView::Named(NamedKey::F7),
        code_key(PhysicalKey::Code(KeyCode::F8), scancode) == KeyView::Named(NamedKey::F8),
        code_key(PhysicalKey::Code(KeyCode::F9), scancode) == KeyView::Named(NamedKey::F9),
        code_key(PhysicalKey::Code(KeyCode::F10), scancode) == KeyView::Named(NamedKey::F10),
        code_key(PhysicalKey::Code(KeyCode::F11), scancode) == KeyView::Named(NamedKey::F11),
        code_key(PhysicalKey::Code(KeyCode::F12), scancode) == KeyView::Named(NamedKey::F12),
        code_key(PhysicalKey::Code(KeyCode::F13), scancode) == KeyView::Named(NamedKey::F13),
        code_key(PhysicalKey::Code(KeyCode::F14), scancode) == KeyView::Named(NamedKey::F14),
        code_key(PhysicalKey::Code(KeyCode::F15), scancode) == KeyView::Named(NamedKey::F15),
        code_key(PhysicalKey::Code(KeyCode::F16), scancode) == KeyView::Named(NamedKey::F16),
        code_key(PhysicalKey::Code(KeyCode::F17), scancode) == KeyView::Named(NamedKey::F17),
        code_key(PhysicalKey::Code(KeyCode::F18), scancode) == KeyView::Named(NamedKey::F18),
        code_key(PhysicalKey::Code(KeyCode::F19), scancode) == KeyView::Named(NamedKey::F19),
        code_key(PhysicalKey::Code(KeyCode::F20), scancode) == KeyView::Named(NamedKey::F20),
        code_key(PhysicalKey::Code(KeyCode::F21), scancode) == KeyView::Unidentified(NativeKey::MacOS(scancode)),
        code_key(PhysicalKey::Code(KeyCode::F22), scancode) == KeyView::Unidentified(NativeKey::MacOS(scancode)),
        code_key(PhysicalKey::Code(KeyCode::F23), scancode) == KeyView::Unidentified(NativeKey::MacOS(scancode)),
        code_key(PhysicalKey::Code(KeyCode::F24), scancode) == KeyView::Unidentified(NativeKey::MacOS(scancode)),
{
}

/// Where keys are on the keyboard: the left and right modifier keys on their side, the
/// numeric keypad's keys (Num Lock among them) on the keypad, every other key code and every
/// unidentified key in the standard place.
pub proof fn lemma_key_location_table()
    ensures
        code_location(PhysicalKey::Code(KeyCode::Backquote)) == KeyLocation::Standard,
        code_location(PhysicalKey::Code(KeyCode::Backslash)) == KeyLocation::Standard,
        code_location(PhysicalKey::Code(KeyCode::BracketLeft)) == KeyLocation::Standard,
        code_location(PhysicalKey::Code(KeyCode::BracketRight)) == KeyLocation::Standard,
        code_location(PhysicalKey::Code(KeyCode::Comma)) == KeyLocation::Standard,
        code_location(PhysicalKey::Code(KeyCode::Digit0)) == KeyLocation::Standard,
        code_location(PhysicalKey::Code(KeyCode::Digit1)) == KeyLocation::Standard,
        code_location(PhysicalKey::Code(KeyCode::Digit2)) == KeyLocation::Standard,
        code_location(PhysicalKey::Code(KeyCode::Digit3)) == KeyLocation::Standard,
        code_location(PhysicalKey::Code(KeyCode::Digit4)) == KeyLocation::Standard,
        code_location(PhysicalKey::Code(KeyCode::Digit5)) == KeyLocation::Standard,
        code_location(PhysicalKey::Code(KeyCode::Digit6)) == KeyLocation::Standard,
        code_location(PhysicalKey::Code(KeyCode::Digit7)) == KeyLocation::Standard,
        code_location(PhysicalKey::Code(KeyCode::Digit8)) == KeyLocation::Standard,
        code_location(PhysicalKey::Code(KeyCode::Digit9)) == KeyLocation::Standard,
        code_location(PhysicalKey::Code(KeyCode::Equal)) == KeyLocation::Standard,
        code_location(PhysicalKey::Code(KeyCode::IntlBackslash)) == KeyLocation::Standard,
        code_location(PhysicalKey::Code(KeyCode::IntlRo)) == KeyLocation::Standard,
        code_location(PhysicalKey::Code(KeyCode::IntlYen)) == KeyLocation::Standard,
        code_location(PhysicalKey::Code(KeyCode::KeyA)) == KeyLocation::Standard,
        code_location(PhysicalKey::Code(KeyCode::KeyB)) == KeyLocation::Standard,
        code_location(PhysicalKey::Code(KeyCode::KeyC)) == KeyLocation::Standard,
        code_location(PhysicalKey::Code(KeyCode::KeyD)) == KeyLocation::Standard,
        code_location(PhysicalKey::Code(KeyCode::KeyE)) == KeyLocation::Standard,
        code_location(PhysicalKey::Code(KeyCode::KeyF)) == KeyLocation::Standard,
        code_location(PhysicalKey::Code(KeyCode::KeyG)) == KeyLocation::Standard,
        code_location(PhysicalKey::Code(KeyCode::KeyH)) == KeyLocation::Standard,
        code_location(PhysicalKey::Code(KeyCode::KeyI)) == KeyLocation::Standard,
        code_location(PhysicalKey::Code(KeyCode::KeyJ)) == KeyLocation::Standard,
        code_location(PhysicalKey::Code(KeyCode::KeyK)) == KeyLocation::Standard,
        code_location(PhysicalKey::Code(KeyCode::KeyL)) == KeyLocation::Standard,
        code_location(PhysicalKey::Code(KeyCode::KeyM)) == KeyLocation::Standard,
        code_location(PhysicalKey::Code(KeyCode::KeyN)) == KeyLocation::Standard,
        code_location(PhysicalKey::Code(KeyCode::KeyO)) == KeyLocation::Standard,
        code_location(PhysicalKey::Code(KeyCode::KeyP)) == KeyLocation::Standard,
        code_location(PhysicalKey::Code(KeyCode::KeyQ)) == KeyLocation::Standard,
        code_location(PhysicalKey::Code(KeyCode::KeyR)) == KeyLocation::Standard,
        code_location(PhysicalKey::Code(KeyCode::KeyS)) == KeyLocation::Standard,
        code_location(PhysicalKey::Code(KeyCode::KeyT)) == KeyLocation::Standard,
        code_location(PhysicalKey::Code(KeyCode::KeyU)) == KeyLocation::Standard,
        code_location(PhysicalKey::Code(KeyCode::KeyV)) == KeyLocation::Standard,
        code_location(PhysicalKey::Code(KeyCode::KeyW)) == KeyLocation::Standard,
        code_location(PhysicalKey::Code(KeyCode::KeyX)) == KeyLocation::Standard,
        code_location(PhysicalKey::Code(KeyCode::KeyY)) == KeyLocation::Standard,
        code_location(PhysicalKey::Code(KeyCode::KeyZ)) == KeyLocation::Standard,
        code_location(PhysicalKey::Code(KeyCode::Minus)) == KeyLocation::Standard,
        code_location(PhysicalKey::Code(KeyCode::Period)) == KeyLocation::Standard,
        code_location(PhysicalKey::Code(KeyCode::Quote)) == KeyLocation::Standard,
        code_location(PhysicalKey::Code(KeyCode::Semicolon)) == KeyLocation::Standard,
        code_location(PhysicalKey::Code(KeyCode::Slash)) == KeyLocation::Standard,
        code_location(PhysicalKey::Code(KeyCode::AltLeft)) == KeyLocation::Left,
        code_location(PhysicalKey::Code(KeyCode::AltRight)) == KeyLocation::Right,
        code_location(PhysicalKey::Code(KeyCode::Backspace)) == KeyLocation::Standard,
        code_location(PhysicalKey::Code(KeyCode::CapsLock)) == KeyLocation::Standard,
        code_location(PhysicalKey::Code(KeyCode::ContextMenu)) == KeyLocation::Standard,
        code_location(PhysicalKey::Code(KeyCode::ControlLeft)) == KeyLocation::Left,
        code_location(PhysicalKey::Code(KeyCode::ControlRight)) == KeyLocation::Right,
        code_location(PhysicalKey::Code(KeyCode::Enter)) == KeyLocation::Standard,
        code_location(PhysicalKey::Code(KeyCode::SuperLeft)) == KeyLocation::Left,
        code_location(PhysicalKey::Code(KeyCode::SuperRight)) == KeyLocation::Right,
        code_location(PhysicalKey::Code(KeyCode::ShiftLeft)) == KeyLocation::Left,
        code_location(PhysicalKey::Code(KeyCode::ShiftRight)) == KeyLocation::Right,
        code_location(PhysicalKey::Code(KeyCode::Space)) == KeyLocation::Standard,
        code_location(PhysicalKey::Code(KeyCode::Tab)) == KeyLocation::Standard,
        code_location(PhysicalKey::Code(KeyCode::Convert)) == KeyLocation::Standard,
        code_location(PhysicalKey::Code(KeyCode::KanaMode)) == KeyLocation::Standard,
        code_location(PhysicalKey::Code(KeyCode::Lang1)) == KeyLocation::Standard,
        code_location(PhysicalKey::Code(KeyCode::Lang2)) == KeyLocation::Standard,
        code_location(PhysicalKey::Code(KeyCode::NonConvert)) == KeyLocation::Standard,
        code_location(PhysicalKey::Code(KeyCode::Delete)) == KeyLocation::Standard,
        code_location(PhysicalKey::Code(KeyCode::End)) == KeyLocation::Standard,
        code_location(PhysicalKey::Code(KeyCode::Help)) == KeyLocation::Standard,
        code_location(PhysicalKey::Code(KeyCode::Home)) == KeyLocation::Standard,
        code_location(PhysicalKey::Code(KeyCode::Insert)) == KeyLocation::Standard,
        code_location(PhysicalKey::Code(KeyCode::PageDown)) == KeyLocation::Standard,
        code_location(PhysicalKey::Code(KeyCode::PageUp)) == KeyLocation::Standard,
        code_location(PhysicalKey::Code(KeyCode::ArrowDown)) == KeyLocation::Standard,
        code_location(PhysicalKey::Code(KeyCode::ArrowLeft)) == KeyLocation::Standard,
        code_location(PhysicalKey::Code(KeyCode::ArrowRight)) == KeyLocation::Standard,
        code_location(PhysicalKey::Code(KeyCode::ArrowUp)) == KeyLocation::Standard,
        code_location(PhysicalKey::Code(KeyCode::NumLock)) == KeyLocation::Numpad,
        code_location(PhysicalKey::Code(KeyCode::Numpad0)) == KeyLocation::Numpad,
        code_location(PhysicalKey::Code(KeyCode::Numpad1)) == KeyLocation::Numpad,
        code_location(PhysicalKey::Code(KeyCode::Numpad2)) == KeyLocation::Numpad,
        code_location(PhysicalKey::Code(KeyCode::Numpad3)) == KeyLocation::Numpad,
        code_location(PhysicalKey::Code(KeyCode::Numpad4)) == KeyLocation::Numpad,
        code_location(PhysicalKey::Code(KeyCode::Numpad5)) == KeyLocation::Numpad,
        code_location(PhysicalKey::Code(KeyCode::Numpad6)) == KeyLocation::Numpad,
        code_location(PhysicalKey::Code(KeyCode::Numpad7)) == KeyLocation::Numpad,
        code_location(PhysicalKey::Code(KeyCode::Numpad8)) == KeyLocation::Numpad,
        code_location(PhysicalKey::Code(KeyCode::Numpad9)) == KeyLocation::Numpad,
        code_location(PhysicalKey::Code(KeyCode::NumpadAdd)) == KeyLocation::Numpad,
        code_location(PhysicalKey::Code(KeyCode::NumpadBackspace)) == KeyLocation::Standard,
        code_location(PhysicalKey::Code(KeyCode::NumpadClear)) == KeyLocation::Standard,
        code_location(PhysicalKey::Code(KeyCode::NumpadComma)) == KeyLocation::Standard,
        code_location(PhysicalKey::Code(KeyCode::NumpadDecimal)) == KeyLocation::Numpad,
        code_location(PhysicalKey::Code(KeyCode::NumpadDivide)) == KeyLocation::Numpad,
        code_location(PhysicalKey::Code(KeyCode::NumpadEnter)) == KeyLocation::Numpad,
        code_location(PhysicalKey::Code(KeyCode::NumpadEqual)) == KeyLocation::Numpad,
        code_location(PhysicalKey::Code(KeyCode::NumpadMultiply)) == KeyLocation::Numpad,
        code_location(PhysicalKey::Code(KeyCode::NumpadSubtract)) == KeyLocation::Numpad,
        code_location(PhysicalKey::Code(KeyCode::Escape)) == KeyLocation::Standard,
        code_location(PhysicalKey::Code(KeyCode::Fn)) == KeyLocation::Standard,
        code_location(PhysicalKey::Code(KeyCode::FnLock)) == KeyLocation::Standard,
        code_location(PhysicalKey::Code(KeyCode::PrintScreen)) == KeyLocation::Standard,
        code_location(PhysicalKey::Code(KeyCode::ScrollLock)) == KeyLocation::Standard,
        code_location(PhysicalKey::Code(KeyCode::Pause)) == KeyLocation::Standard,
        code_location(PhysicalKey::Code(KeyCode::AudioVolumeDown)) == KeyLocation::Standard,
        code_location(PhysicalKey::Code(KeyCode::AudioVolumeMute)) == KeyLocation::Standard,
        code_location(PhysicalKey::Code(KeyCode::AudioVolumeUp)) == KeyLocation::Standard,
        code_location(PhysicalKey::Code(KeyCode::MediaPlayPause)) == KeyLocation::Standard,
        code_location(PhysicalKey::Code(KeyCode::MediaStop)) == KeyLocation::Standard,
        code_location(PhysicalKey::Code(KeyCode::MediaTrackNext)) == KeyLocation::Standard,
        code_location(PhysicalKey::Code(KeyCode::MediaTrackPrevious)) == KeyLocation::Standard,
        code_location(PhysicalKey::Code(KeyCode::Power)) == KeyLocation::Standard,
        code_location(PhysicalKey::Code(KeyCode::F1)) == KeyLocation::Standard,
        code_location(PhysicalKey::Code(KeyCode::F2)) == KeyLocation::Standard,
        code_location(PhysicalKey::Code(KeyCode::F3)) == KeyLocation::Standard,
        code_location(PhysicalKey::Code(KeyCode::F4)) == KeyLocation::Standard,
        code_location(PhysicalKey::Code(KeyCode::F5)) == KeyLocation::Standard,
        code_location(PhysicalKey::Code(KeyCode::F6)) == KeyLocation::Standard,
        code_location(PhysicalKey::Code(KeyCode::F7)) == KeyLocation::Standard,
        code_location(PhysicalKey::Code(KeyCode::F8)) == KeyLocation::Standard,
        code_location(PhysicalKey::Code(KeyCode::F9)) == KeyLocation::Standard,
        code_location(PhysicalKey::Code(KeyCode::F10)) == KeyLocation::Standard,
        code_location(PhysicalKey::Code(KeyCode::F11)) == KeyLocation::Standard,
        code_location(PhysicalKey::Code(KeyCode::F12)) == KeyLocation::Standard,
        code_location(PhysicalKey::Code(KeyCode::F13)) == KeyLocation::Standard,
        code_location(PhysicalKey::Code(KeyCode::F14)) == KeyLocation::Standard,
        code_location(PhysicalKey::Code(KeyCode::F15)) == KeyLocation::Standard,
        code_location(PhysicalKey::Code(KeyCode::F16)) == KeyLocation::Standard,
        code_location(PhysicalKey::Code(KeyCode::F17)) == KeyLocation::Standard,
        code_location(PhysicalKey::Code(KeyCode::F18)) == KeyLocation::Standard,
        code_location(PhysicalKey::Code(KeyCode::F19)) == KeyLocation::Standard,
        code_location(PhysicalKey::Code(KeyCode::F20)) == KeyLocation::Standard,
        code_location(PhysicalKey::Code(KeyCode::F21)) == KeyLocation::Standard,
        code_location(PhysicalKey::Code(KeyCode::F22)) == KeyLocation::Standard,
        code_location(PhysicalKey::Code(KeyCode::F23)) == KeyLocation::Standard,
        code_location(PhysicalKey::Code(KeyCode::F24)) == KeyLocation::Standard,
        forall|native: NativeKeyCode| code_location(PhysicalKey::Unidentified(native)) == KeyLocation::Standard,
{
}

/// The function keys beyond F20, which have no scancode of their own: a key whose text
/// starts with the function-key character U+F718, U+F719, U+F71A or U+F71B is F21, F22,
/// F23 or F24; any other key, and a key without text, is unidentified with its raw scancode.
pub proof fn lemma_extra_function_keys(scancode: u16, s: Seq<char>)
    ensures
        s.len() > 0 && s[0] == '\u{F718}' ==> extra_function_key(scancode, s) == PhysicalKey::Code(KeyCode::F21),
        s.len() > 0 && s[0] == '\u{F719}' ==> extra_function_key(scancode, s) == PhysicalKey::Code(KeyCode::F22),
        s.len() > 0 && s[0] == '\u{F71A}' ==> extra_function_key(scancode, s) == PhysicalKey::Code(KeyCode::F23),
        s.len() > 0 && s[0] == '\u{F71B}' ==> extra_function_key(scancode, s) == PhysicalKey::Code(KeyCode::F24),
        s.len() == 0 || !(s[0] == '\u{F718}' || s[0] == '\u{F719}' || s[0] == '\u{F71A}' || s[0] == '\u{F71B}')
            ==> extra_function_key(scancode, s) == PhysicalKey::Unidentified(NativeKeyCode::MacOS(scancode)),
{
    if s.len() > 0 {
        let c = s[0];
        vstd::utf8::char_is_scalar(c);
        vstd::utf8::char_u32_cast(c, c as u32);
        if (c as u32) >= 0x10000 {
            assert((c as u32 - 0x10000) / 0x400 <= 0x3FF);
        }
    }
}

/// The text that a key produces: Enter a carriage return, Backspace U+0008, Tab a tab,
/// Space a space, Escape U+001B, a character key its characters; no other key has text.
pub proof fn lemma_key_text(k: KeyView)
    ensures
        key_text(KeyView::Named(NamedKey::Enter)) == Some(seq!['\r']),
        key_text(KeyView::Named(NamedKey::Backspace)) == Some(seq!['\u{8}']),
        key_text(KeyView::Named(NamedKey::Tab)) == Some(seq!['\t']),
        key_text(KeyView::Named(NamedKey::Space)) == Some(seq![' ']),
        key_text(KeyView::Named(NamedKey::Escape)) == Some(seq!['\u{1b}']),
        k matches KeyView::Character(s) ==> key_text(k) == Some(s),
        k matches KeyView::Named(n) ==> (key_text(k) is Some <==> (n == NamedKey::Enter || n
            == NamedKey::Backspace || n == NamedKey::Tab || n == NamedKey::Space || n
            == NamedKey::Escape)),
        !(k is Character || k is Named) ==> key_text(k) is None,
{
}

/// How the keys of a key event are chosen. The physical key is that of the scancode; a
/// scancode without one, whose event has text, may be one of the function keys beyond F20
/// (see [`lemma_extra_function_keys`]). A key code with a named key gives that named key,
/// whatever the layout and modifiers, as logical key and as key without modifiers.
/// Otherwise the key without modifiers is what the layout gives without modifiers, and the
/// logical key is the event's text when it has some and neither Control (bit 18) nor
/// Command (bit 20) is held; failing that, when the layout gives characters, the text
/// ignoring modifiers, or a dead key with the layout's first character when that text is
/// empty; and otherwise what the layout gives.
pub proof fn lemma_key_event_keys(
    scancode: u16,
    characters: Seq<char>,
    characters_ignoring_modifiers: Seq<char>,
    modifier_flags: usize,
    modifierless: KeyView,
)
    ensures
        ({
            let p = scancode_physical(scancode as u32);
            characters.len() != 0 && p is Unidentified ==> event_physical_key(scancode, characters)
                == extra_function_key(scancode, characters)
        }),
        !(characters.len() != 0 && scancode_physical(scancode as u32) is Unidentified)
            ==> event_physical_key(scancode, characters) == scancode_physical(scancode as u32),
        ({
            let from_code = code_key(event_physical_key(scancode, characters), scancode);
            let l = event_logical_key(
                scancode,
                characters,
                characters_ignoring_modifiers,
                modifier_flags,
                modifierless,
            );
            let plain = modifier_flags & 0x40000 == 0 && modifier_flags & 0x100000 == 0;
            &&& from_code matches KeyView::Named(n) ==> l == KeyView::Named(n)
                && event_key_without_modifiers(scancode, characters, modifierless) == KeyView::Named(n)
            &&& from_code is Unidentified ==> event_key_without_modifiers(
                scancode,
                characters,
                modifierless,
            ) == modifierless
            &&& from_code is Unidentified && characters.len() != 0 && plain ==> l
                == KeyView::Character(characters)
            &&& from_code is Unidentified && !(characters.len() != 0 && plain) ==> (
            modifierless matches KeyView::Character(ch) ==> (characters_ignoring_modifiers.len()
                != 0 ==> l == KeyView::Character(characters_ignoring_modifiers)) && (
            characters_ignoring_modifiers.len() == 0 ==> l == KeyView::Dead(
                if ch.len() == 0 {
                    None
                } else {
                    Some(ch[0])
                },
            )))
            &&& from_code is Unidentified && !(characters.len() != 0 && plain) && !(
            modifierless is Character) ==> l == modifierless
        }),
{
    assert(NS_FLAG_CONTROL == 0x40000 && NS_FLAG_COMMAND == 0x100000) by (bit_vector);
    lemma_flag_bits(modifier_flags);
    assert(modifier_flags & 0x40000 == 0x40000 <==> modifier_flags & 0x40000 != 0);
    assert(modifier_flags & 0x100000 == 0x100000 <==> modifier_flags & 0x100000 != 0);
    let from_code = code_key(event_physical_key(scancode, characters), scancode);
    assert(from_code is Named || from_code is Unidentified);
}

/// The text of an optional string.
pub open spec fn opt_text(o: Option<String>) -> Option<Seq<char>> {
    match o {
        Some(s) => Some(s@),
        None => None,
    }
}

/// The logical key of a character key heeding only Shift: the characters ignoring other
/// modifiers, or a dead key carrying the first modifier-less character when there are none.
pub open spec fn logical_key_char(ignoring_modifiers: Seq<char>, modifierless: Seq<char>) -> KeyView {
    if ignoring_modifiers.len() == 0 {
        KeyView::Dead(if modifierless.len() == 0 { None } else { Some(modifierless[0]) })
    } else {
        KeyView::Character(ignoring_modifiers)
    }
}

/// Whether a UTF-16 code unit is a leading (high) surrogate.
pub open spec fn is_high_surrogate(u: u16) -> bool {
    0xD800 <= u < 0xDC00
}

/// Whether a UTF-16 code unit is a trailing (low) surrogate.
pub open spec fn is_low_surrogate(u: u16) -> bool {
    0xDC00 <= u < 0xE000
}

/// The character that a surrogate pair encodes.
pub open spec fn surrogate_pair_char(high: u16, low: u16) -> char {
    (0x10000 + (high - 0xD800) * 0x400 + (low - 0xDC00)) as char
}

/// The text of UTF-16 code units: a leading surrogate followed by a trailing one encode
/// one character together, each other surrogate (unpaired) stands for U+FFFD, and every
/// other code unit is its own character.
pub open spec fn utf16_lossy(units: Seq<u16>) -> Seq<char>
    decreases units.len(),
{
    if units.len() == 0 {
        Seq::empty()
    } else if units.len() >= 2 && is_high_surrogate(units[0]) && is_low_surrogate(units[1]) {
        seq![surrogate_pair_char(units[0], units[1])] + utf16_lossy(units.subrange(2, units.len() as int))
    } else if is_high_surrogate(units[0]) || is_low_surrogate(units[0]) {
        seq!['\u{FFFD}'] + utf16_lossy(units.subrange(1, units.len() as int))
    } else {
        seq![units[0] as char] + utf16_lossy(units.subrange(1, units.len() as int))
    }
}

/// Calls `String::from_utf16_lossy`, which decodes UTF-16 code units, replacing each
/// unpaired surrogate by U+FFFD (see [`utf16_lossy`]).
#[verifier::external_body]
fn decode_utf16_lossy(units: &[u16]) -> (r: String)
    ensures
        r@ == utf16_lossy(units@),
{
    String::from_utf16_lossy(units)
}

/// The key that the current keyboard layout gives a scancode without any modifier.
/// `layout_text` is none when the layout could not be read, else the status that
/// `UCKeyTranslate` returned and the UTF-16 text it produced. The key is unidentified when
/// the layout could not be read or used, or when the key has no text (as a Fn key that
/// switches layouts).
pub fn get_modifierless_char(scancode: u16, layout_text: Option<(i32, &[u16])>) -> (r: Key)
    ensures
        r@ == match layout_text {
            Some((status, units)) => if status == 0 && units@.len() > 0 {
                KeyView::Character(utf16_lossy(units@))
            } else {
                KeyView::Unidentified(NativeKey::MacOS(scancode))
            },
            None => KeyView::Unidentified(NativeKey::MacOS(scancode)),
        },
{
    match layout_text {
        Some((status, units)) => {
            if status != 0 {
                return Key::Unidentified(NativeKey::MacOS(scancode));
            }
            if units.len() == 0 {
                // Not every key has a text.
                return Key::Unidentified(NativeKey::MacOS(scancode));
            }
            Key::Character(decode_utf16_lossy(units))
        },
        None => Key::Unidentified(NativeKey::MacOS(scancode)),
    }
}

/// The logical key of a key event heeding Shift but not Option: `characters_ignoring_modifiers`
/// is what the event reports ignoring modifiers, `modifierless_chars` what the layout gives
/// the key without any modifier.
pub fn get_logical_key_char(characters_ignoring_modifiers: &str, modifierless_chars: &str) -> (r: Key)
    ensures
        r@ == logical_key_char(characters_ignoring_modifiers@, modifierless_chars@),
{
    if characters_ignoring_modifiers.is_empty() {
        // Probably a dead key
        let first = first_char(modifierless_chars);
        return Key::Dead(first);
    }
    Key::Character(characters_ignoring_modifiers.to_owned())
}

/// The physical key of a key event: the scancode's key, or for an unknown scancode with
/// characters, one of the extra function keys.
pub open spec fn event_physical_key(scancode: u16, characters: Seq<char>) -> PhysicalKey {
    let p = scancode_physical(scancode as u32);
    if characters.len() != 0 && p is Unidentified {
        extra_function_key(scancode, characters)
    } else {
        p
    }
}

/// The logical key of a key event. Keys with a layout-independent meaning keep it; for the
/// others the typed characters count unless Control or Command is held, and otherwise the
/// layout's modifier-less key decides.
pub open spec fn event_logical_key(
    scancode: u16,
    characters: Seq<char>,
    characters_ignoring_modifiers: Seq<char>,
    modifier_flags: usize,
    modifierless: KeyView,
) -> KeyView {
    let from_code = code_key(event_physical_key(scancode, characters), scancode);
    if from_code is Unidentified {
        if characters.len() != 0 && !flags_contain(modifier_flags, NS_FLAG_CONTROL)
            && !flags_contain(modifier_flags, NS_FLAG_COMMAND) {
            KeyView::Character(characters)
        } else {
            match modifierless {
                KeyView::Character(ch) => logical_key_char(characters_ignoring_modifiers, ch),
                _ => modifierless,
            }
        }
    } else {
        from_code
    }
}

/// The key of a key event ignoring all modifiers.
pub open spec fn event_key_without_modifiers(scancode: u16, characters: Seq<char>, modifierless: KeyView) -> KeyView {
    let from_code = code_key(event_physical_key(scancode, characters), scancode);
    if from_code is Unidentified {
        modifierless
    } else {
        from_code
    }
}

/// Assembles the key event for a key press or release.
///
/// `characters` and `characters_ignoring_modifiers` are what the event reports (empty when
/// it reports none), `modifier_flags` its modifier flags, and `modifierless` the key that the
/// current keyboard layout gives the scancode when no modifier is held.
pub fn create_key_event(
    scancode: u16,
    characters: &str,
    characters_ignoring_modifiers: &str,
    modifier_flags: usize,
    modifierless: Key,
    is_press: bool,
    is_repeat: bool,
) -> (r: KeyEvent)
    ensures
        r.physical_key == event_physical_key(scancode, characters@),
        r.logical_key@ == event_logical_key(
            scancode,
            characters@,
            characters_ignoring_modifiers@,
            modifier_flags,
            modifierless@,
        ),
        r.platform_specific.key_without_modifiers@ == event_key_without_modifiers(
            scancode,
            characters@,
            modifierless@,
        ),
        opt_text(r.platform_specific.text_with_all_modifiers) == (if characters@.len() == 0 {
            None
        } else {
            Some(characters@)
        }),
        opt_text(r.text) == (if is_press {
            key_text(r.logical_key@)
        } else {
            None
        }),
        r.location == code_location(r.physical_key),
        r.state == (if is_press { ElementState::Pressed } else { ElementState::Released }),
        r.repeat == is_repeat,
{
    let state = if is_press { ElementState::Pressed } else { ElementState::Released };
    let mut physical_key = scancode_to_physicalkey(scancode as u32);

    let text_with_all_modifiers = if characters.is_empty() {
        None
    } else {
        if matches!(physical_key, PhysicalKey::Unidentified(_)) {
            // The key may be one of the funky function keys
            physical_key = extra_function_key_to_code(scancode, characters);
        }
        Some(characters.to_owned())
    };

    let key_from_code = code_to_key(physical_key, scancode);
    let (logical_key, key_without_modifiers) = if key_from_code.is_unidentified() {
        let has_ctrl = modifier_flags & NS_FLAG_CONTROL == NS_FLAG_CONTROL;
        let has_cmd = modifier_flags & NS_FLAG_COMMAND == NS_FLAG_COMMAND;
        let logical_key = match &text_with_all_modifiers {
            // Only Control and Command are checked: the effect of Option belongs in the key.
            Some(text) if !has_ctrl && !has_cmd => Key::Character(text.clone()),
            _ => match &modifierless {
                // Character heeding just Shift, ignoring Option.
                Key::Character(ch) => get_logical_key_char(characters_ignoring_modifiers, ch.as_str()),
                // Character ignoring all modifiers.
                _ => modifierless.duplicate(),
            },
        };
        (logical_key, modifierless)
    } else {
        (key_from_code.duplicate(), key_from_code)
    };

    let text = if is_press { logical_key.to_text() } else { None };
    let location = code_to_location(physical_key);

    KeyEvent {
        location,
        logical_key,
        physical_key,
        repeat: is_repeat,
        state,
        text,
        platform_specific: KeyEventExtra { text_with_all_modifiers, key_without_modifiers },
    }
}

} // verus!
