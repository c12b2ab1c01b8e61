//! Keyboard types shared by the platform code: physical key codes, logical keys,
//! key locations and modifier state.
use vstd::prelude::*;

verus! {

/// A position-independent identifier of a physical key, following the
/// W3C `KeyboardEvent.code` naming.
#[derive(Clone, Copy, Debug, PartialEq, Eq, Structural, Hash)]
pub enum KeyCode {
    Backquote,
    Backslash,
    BracketLeft,
    BracketRight,
    Comma,
    Digit0,
    Digit1,
    Digit2,
    Digit3,
    Digit4,
    Digit5,
    Digit6,
    Digit7,
    Digit8,
    Digit9,
    Equal,
    IntlBackslash,
    IntlRo,
    IntlYen,
    KeyA,
    KeyB,
    KeyC,
    KeyD,
    KeyE,
    KeyF,
    KeyG,
    KeyH,
    KeyI,
    KeyJ,
    KeyK,
    KeyL,
    KeyM,
    KeyN,
    KeyO,
    KeyP,
    KeyQ,
    KeyR,
    KeyS,
    KeyT,
    KeyU,
    KeyV,
    KeyW,
    KeyX,
    KeyY,
    KeyZ,
    Minus,
    Period,
    Quote,
    Semicolon,
    Slash,
    AltLeft,
    AltRight,
    Backspace,
    CapsLock,
    ContextMenu,
    ControlLeft,
    ControlRight,
    Enter,
    SuperLeft,
    SuperRight,
    ShiftLeft,
    ShiftRight,
    Space,
    Tab,
    Convert,
    KanaMode,
    Lang1,
    Lang2,
    NonConvert,
    Delete,
    End,
    Help,
    Home,
    Insert,
    PageDown,
    PageUp,
    ArrowDown,
    ArrowLeft,
    ArrowRight,
    ArrowUp,
    NumLock,
    Numpad0,
    Numpad1,
    Numpad2,
    Numpad3,
    Numpad4,
    Numpad5,
    Numpad6,
    Numpad7,
    Numpad8,
    Numpad9,
    NumpadAdd,
    NumpadBackspace,
    NumpadClear,
    NumpadComma,
    NumpadDecimal,
    NumpadDivide,
    NumpadEnter,
    NumpadEqual,
    NumpadMultiply,
    NumpadSubtract,
    Escape,
    Fn,
    FnLock,
    PrintScreen,
    ScrollLock,
    Pause,
    AudioVolumeDown,
    AudioVolumeMute,
    AudioVolumeUp,
    MediaPlayPause,
    MediaStop,
    MediaTrackNext,
    MediaTrackPrevious,
    Power,
    F1,
    F2,
    F3,
    F4,
    F5,
    F6,
    F7,
    F8,
    F9,
    F10,
    F11,
    F12,
    F13,
    F14,
    F15,
    F16,
    F17,
    F18,
    F19,
    F20,
    F21,
    F22,
    F23,
    F24,
}

/// A platform-specific code for a physical key that has no [`KeyCode`].
#[derive(Clone, Copy, Debug, PartialEq, Eq, Structural, Hash)]
pub enum NativeKeyCode {
    Unidentified,
    Android(u32),
    MacOS(u16),
    Windows(u16),
    Xkb(u32),
}

/// A platform-specific identifier of a logical key that has no [`NamedKey`].
#[derive(Clone, Copy, Debug, PartialEq, Eq, Structural, Hash)]
pub enum NativeKey {
    Unidentified,
    Android(u32),
    MacOS(u16),
    Windows(u16),
    Xkb(u32),
}

/// The native logical key that corresponds to a native physical key code.
pub open spec fn native_key_of(code: NativeKeyCode) -> NativeKey {
    match code {
        NativeKeyCode::Unidentified => NativeKey::Unidentified,
        NativeKeyCode::Android(c) => NativeKey::Android(c),
        NativeKeyCode::MacOS(c) => NativeKey::MacOS(c),
        NativeKeyCode::Windows(c) => NativeKey::Windows(c),
        NativeKeyCode::Xkb(c) => NativeKey::Xkb(c),
    }
}

impl NativeKeyCode {
    /// Converts a native key code into the native logical key with the same payload.
    pub fn to_native_key(self) -> (r: NativeKey)
        ensures
            r == native_key_of(self),
    {
        match self {
            NativeKeyCode::Unidentified => NativeKey::Unidentified,
            NativeKeyCode::Android(c) => NativeKey::Android(c),
            NativeKeyCode::MacOS(c) => NativeKey::MacOS(c),
            NativeKeyCode::Windows(c) => NativeKey::Windows(c),
            NativeKeyCode::Xkb(c) => NativeKey::Xkb(c),
        }
    }
}

/// A physical key: either one with a known [`KeyCode`] or a raw native code.
#[derive(Clone, Copy, Debug, PartialEq, Eq, Structural, Hash)]
pub enum PhysicalKey {
    Code(KeyCode),
    Unidentified(NativeKeyCode),
}

/// Logical keys that have a name rather than a textual value.
#[derive(Clone, Copy, Debug, PartialEq, Eq, Structural, Hash)]
pub enum NamedKey {
    Alt,
    CapsLock,
    Control,
    Fn,
    NumLock,
    Shift,
    Super,
    Enter,
    Tab,
    Space,
    ArrowDown,
    ArrowLeft,
    ArrowRight,
    ArrowUp,
    End,
    Home,
    PageDown,
    PageUp,
    Backspace,
    Delete,
    Insert,
    Escape,
    AudioVolumeDown,
    AudioVolumeUp,
    AudioVolumeMute,
    F1,
    F2,
    F3,
    F4,
    F5,
    F6,
    F7,
    F8,
    F9,
    F10,
    F11,
    F12,
    F13,
    F14,
    F15,
    F16,
    F17,
    F18,
    F19,
    F20,
}

/// A logical key: what the key means under the current layout and modifiers.
#[derive(Debug, PartialEq, Eq)]
pub enum Key {
    Named(NamedKey),
    Character(String),
    Unidentified(NativeKey),
    Dead(Option<char>),
}

/// The mathematical value of a [`Key`], with the text of a character key as a sequence.
pub enum KeyView {
    Named(NamedKey),
    Character(Seq<char>),
    Unidentified(NativeKey),
    Dead(Option<char>),
}

impl View for Key {
    type V = KeyView;

    open spec fn view(&self) -> KeyView {
        match self {
            Key::Named(n) => KeyView::Named(*n),
            Key::Character(s) => KeyView::Character(s@),
            Key::Unidentified(n) => KeyView::Unidentified(*n),
            Key::Dead(c) => KeyView::Dead(*c),
        }
    }
}

/// The text that a logical key produces when pressed, if any.
pub open spec fn key_text(k: KeyView) -> Option<Seq<char>> {
    match k {
        KeyView::Named(NamedKey::Enter) => Some(seq!['\r']),
        KeyView::Named(NamedKey::Backspace) => Some(seq!['\u{8}']),
        KeyView::Named(NamedKey::Tab) => Some(seq!['\t']),
        KeyView::Named(NamedKey::Space) => Some(seq![' ']),
        KeyView::Named(NamedKey::Escape) => Some(seq!['\u{1b}']),
        KeyView::Character(s) => Some(s),
        _ => None,
    }
}

impl Key {
    /// Whether this is a key that the platform could not identify.
    pub fn is_unidentified(&self) -> (r: bool)
        ensures
            r == (self@ is Unidentified),
    {
        match self {
            Key::Unidentified(_) => true,
            _ => false,
        }
    }

    /// A copy of this key.
    pub fn duplicate(&self) -> (r: Key)
        ensures
            r@ == self@,
    {
        match self {
            Key::Named(n) => Key::Named(*n),
            Key::Character(s) => Key::Character(s.clone()),
            Key::Unidentified(n) => Key::Unidentified(*n),
            Key::Dead(c) => Key::Dead(*c),
        }
    }

    /// The text this key produces when pressed: its characters for a character key, and the
    /// control character of Enter, Backspace, Tab, Space and Escape.
    pub fn to_text(&self) -> (r: Option<String>)
        ensures
            match r {
                Some(s) => key_text(self@) == Some(s@),
                None => key_text(self@) is None,
            },
    {
        match self {
            Key::Named(NamedKey::Enter) => {
                proof {
                    reveal_strlit("\r");
                }
                Some("\r".to_owned())
            },
            Key::Named(NamedKey::Backspace) => {
                proof {
                    reveal_strlit("\u{8}");
                }
                Some("\u{8}".to_owned())
            },
            Key::Named(NamedKey::Tab) => {
                proof {
                    reveal_strlit("\t");
                }
                Some("\t".to_owned())
            },
            Key::Named(NamedKey::Space) => {
                proof {
                    reveal_strlit(" ");
                }
                Some(" ".to_owned())
            },
            Key::Named(NamedKey::Escape) => {
                proof {
                    reveal_strlit("\u{1b}");
                }
                Some("\u{1b}".to_owned())
            },
            Key::Character(s) => Some(s.clone()),
            _ => None,
        }
    }
}

/// Where on the keyboard a key is, for keys that exist more than once.
#[derive(Clone, Copy, Debug, PartialEq, Eq, Structural, Hash)]
pub enum KeyLocation {
    Standard,
    Left,
    Right,
    Numpad,
}

/// Bit of [`ModifiersState`] for Shift.
pub const MODS_SHIFT: u32 = 0b100;
/// Bit of [`ModifiersState`] for Control.
pub const MODS_CONTROL: u32 = 0b100000;
/// Bit of [`ModifiersState`] for Alt (Option).
pub const MODS_ALT: u32 = 0b100000000;
/// Bit of [`ModifiersState`] for Super (Command).
pub const MODS_SUPER: u32 = 0b100000000000;

/// The set of logical modifiers that are active.
#[derive(Clone, Copy, Debug, PartialEq, Eq, Structural, Hash)]
pub struct ModifiersState {
    pub bits: u32,
}

impl ModifiersState {
    /// No modifier active.
    pub fn empty() -> (r: ModifiersState)
        ensures
            r.bits == 0,
    {
        ModifiersState { bits: 0 }
    }

    pub fn is_empty(&self) -> (r: bool)
        ensures
            r == (self.bits == 0),
    {
        self.bits == 0
    }

    /// Whether all modifiers of `other` are active.
    pub fn contains(&self, other: ModifiersState) -> (r: bool)
        ensures
            r == (self.bits & other.bits == other.bits),
    {
        self.bits & other.bits == other.bits
    }

    pub fn shift_key(&self) -> (r: bool)
        ensures
            r == (self.bits & MODS_SHIFT != 0),
    {
        self.bits & MODS_SHIFT != 0
    }

    pub fn control_key(&self) -> (r: bool)
        ensures
            r == (self.bits & MODS_CONTROL != 0),
    {
        self.bits & MODS_CONTROL != 0
    }

    pub fn alt_key(&self) -> (r: bool)
        ensures
            r == (self.bits & MODS_ALT != 0),
    {
        self.bits & MODS_ALT != 0
    }

    pub fn super_key(&self) -> (r: bool)
        ensures
            r == (self.bits & MODS_SUPER != 0),
    {
        self.bits & MODS_SUPER != 0
    }
}

/// Bits of [`ModifiersKeys`]: which physical modifier keys are held.
pub const KEYS_LSHIFT: u8 = 0b0000_0001;
pub const KEYS_RSHIFT: u8 = 0b0000_0010;
pub const KEYS_LCONTROL: u8 = 0b0000_0100;
pub const KEYS_RCONTROL: u8 = 0b0000_1000;
pub const KEYS_LALT: u8 = 0b0001_0000;
pub const KEYS_RALT: u8 = 0b0010_0000;
pub const KEYS_LSUPER: u8 = 0b0100_0000;
pub const KEYS_RSUPER: u8 = 0b1000_0000;

/// Which of the left and right modifier keys are held down.
#[derive(Clone, Copy, Debug, PartialEq, Eq, Structural, Hash)]
pub struct ModifiersKeys {
    pub bits: u8,
}

/// The modifier state together with the physical modifier keys behind it.
#[derive(Clone, Copy, Debug, PartialEq, Eq, Structural, Hash)]
pub struct Modifiers {
    pub state: ModifiersState,
    pub pressed_mods: ModifiersKeys,
}

impl Modifiers {
    /// No modifier active and no modifier key held.
    pub fn default_modifiers() -> (r: Modifiers)
        ensures
            r.state.bits == 0,
            r.pressed_mods.bits == 0,
    {
        Modifiers { state: ModifiersState { bits: 0 }, pressed_mods: ModifiersKeys { bits: 0 } }
    }

    pub fn state(&self) -> (r: ModifiersState)
        ensures
            r == self.state,
    {
        self.state
    }
}

} // verus!
