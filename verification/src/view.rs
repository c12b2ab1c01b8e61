//! The input state of a window's content view: cursor visibility, the input-method state
//! machine, the option-as-alt setting and the tracking of which modifier keys are held.
use vstd::prelude::*;

use crate::util::{empty_range, NSRange};

use crate::event::{
    code_key, code_location, code_to_key, code_to_location, event_mods, flags_contain,
    lalt_pressed, modifiers_keys_bits, modifiers_state_bits, ralt_pressed, scancode_physical,
    scancode_to_physicalkey, ElementState, Ime, KeyEvent, KeyEventExtra, MouseButton, WindowEvent,
    NS_FLAG_COMMAND, NS_FLAG_CONTROL, NS_FLAG_OPTION, NX_DEVICELALTKEYMASK, NX_DEVICERALTKEYMASK,
};
use crate::keyboard::{
    Key, KeyCode, KeyLocation, KeyView, Modifiers, ModifiersKeys, ModifiersState, NamedKey,
    PhysicalKey,
    MODS_ALT, MODS_CONTROL, MODS_SHIFT, MODS_SUPER,
};

verus! {

/// Which Option keys should act as Alt rather than produce characters.
#[derive(Clone, Copy, Debug, PartialEq, Eq, Structural, Hash)]
pub enum OptionAsAlt {
    OnlyLeft,
    OnlyRight,
    Both,
    Neither,
}

/// The state of the input method for a view.
#[derive(Clone, Copy, Debug, PartialEq, Eq, Structural)]
pub enum ImeState {
    /// IME events are disabled; only keyboard input is sent.
    Disabled,
    /// IME is enabled and neither composing nor just committed.
    Ground,
    /// IME is composing (preedit).
    Preedit,
    /// Text was just committed; the next keyboard input belongs to the IME.
    Committed,
}

/// Bit of [`ModLocationMask`] for the left key of a modifier.
pub const MOD_LOCATION_LEFT: u8 = 0b0001;
/// Bit of [`ModLocationMask`] for the right key of a modifier.
pub const MOD_LOCATION_RIGHT: u8 = 0b0010;

/// Which of the two keys of one modifier are held.
#[derive(Clone, Copy, Debug, PartialEq, Eq, Structural)]
pub struct ModLocationMask {
    pub bits: u8,
}

/// The mask bit of a left or right key location.
pub open spec fn location_bit(loc: KeyLocation) -> u8 {
    if loc == KeyLocation::Left {
        MOD_LOCATION_LEFT
    } else {
        MOD_LOCATION_RIGHT
    }
}

impl ModLocationMask {
    pub fn empty() -> (r: ModLocationMask)
        ensures
            r.bits == 0,
    {
        ModLocationMask { bits: 0 }
    }

    /// The mask of a left or right key location.
    pub fn from_location(loc: KeyLocation) -> (r: ModLocationMask)
        requires
            loc == KeyLocation::Left || loc == KeyLocation::Right,
        ensures
            r.bits == location_bit(loc),
    {
        match loc {
            KeyLocation::Left => ModLocationMask { bits: MOD_LOCATION_LEFT },
            _ => ModLocationMask { bits: MOD_LOCATION_RIGHT },
        }
    }

    pub fn contains(&self, other: ModLocationMask) -> (r: bool)
        ensures
            r == (self.bits & other.bits == other.bits),
    {
        self.bits & other.bits == other.bits
    }
}

/// The logical modifier (as a [`ModifiersState`] bit) that a logical key is, if any.
pub open spec fn modifier_of_key(key: KeyView) -> Option<u32> {
    match key {
        KeyView::Named(NamedKey::Alt) => Some(MODS_ALT),
        KeyView::Named(NamedKey::Control) => Some(MODS_CONTROL),
        KeyView::Named(NamedKey::Super) => Some(MODS_SUPER),
        KeyView::Named(NamedKey::Shift) => Some(MODS_SHIFT),
        _ => None,
    }
}

/// The modifier that a logical key is, if it is Alt, Control, Super or Shift.
pub fn key_to_modifier(key: &Key) -> (r: Option<ModifiersState>)
    ensures
        match r {
            Some(m) => modifier_of_key(key@) == Some(m.bits),
            None => modifier_of_key(key@) is None,
        },
{
    match key {
        Key::Named(NamedKey::Alt) => Some(ModifiersState { bits: MODS_ALT }),
        Key::Named(NamedKey::Control) => Some(ModifiersState { bits: MODS_CONTROL }),
        Key::Named(NamedKey::Super) => Some(ModifiersState { bits: MODS_SUPER }),
        Key::Named(NamedKey::Shift) => Some(ModifiersState { bits: MODS_SHIFT }),
        _ => None,
    }
}

/// The key code of the key of a modifier at a location (left unless `loc` is right).
pub open spec fn modifier_code(key: KeyView, loc: KeyLocation) -> KeyCode {
    match key {
        KeyView::Named(NamedKey::Alt) => if loc == KeyLocation::Right {
            KeyCode::AltRight
        } else {
            KeyCode::AltLeft
        },
        KeyView::Named(NamedKey::Control) => if loc == KeyLocation::Right {
            KeyCode::ControlRight
        } else {
            KeyCode::ControlLeft
        },
        KeyView::Named(NamedKey::Shift) => if loc == KeyLocation::Right {
            KeyCode::ShiftRight
        } else {
            KeyCode::ShiftLeft
        },
        _ => if loc == KeyLocation::Right {
            KeyCode::SuperRight
        } else {
            KeyCode::SuperLeft
        },
    }
}

/// The key code of the right key of a modifier.
pub fn get_right_modifier_code(key: &Key) -> (r: KeyCode)
    requires
        modifier_of_key(key@) is Some,
    ensures
        r == modifier_code(key@, KeyLocation::Right),
{
    match key {
        Key::Named(NamedKey::Alt) => KeyCode::AltRight,
        Key::Named(NamedKey::Control) => KeyCode::ControlRight,
        Key::Named(NamedKey::Shift) => KeyCode::ShiftRight,
        _ => KeyCode::SuperRight,
    }
}

/// The key code of the left key of a modifier.
pub fn get_left_modifier_code(key: &Key) -> (r: KeyCode)
    requires
        modifier_of_key(key@) is Some,
    ensures
        r == modifier_code(key@, KeyLocation::Left),
{
    match key {
        Key::Named(NamedKey::Alt) => KeyCode::AltLeft,
        Key::Named(NamedKey::Control) => KeyCode::ControlLeft,
        Key::Named(NamedKey::Shift) => KeyCode::ShiftLeft,
        _ => KeyCode::SuperLeft,
    }
}

/// The held keys of each modifier.
#[derive(Clone, Copy, Debug, PartialEq, Eq, Structural)]
pub struct PhysModifiers {
    pub alt: ModLocationMask,
    pub control: ModLocationMask,
    pub shift: ModLocationMask,
    pub super_key: ModLocationMask,
}

impl PhysModifiers {
    /// The held keys of the modifier with the given [`ModifiersState`] bit.
    pub open spec fn spec_get(self, modifier: u32) -> u8 {
        if modifier == MODS_ALT {
            self.alt.bits
        } else if modifier == MODS_CONTROL {
            self.control.bits
        } else if modifier == MODS_SHIFT {
            self.shift.bits
        } else {
            self.super_key.bits
        }
    }

    /// These held keys with those of one modifier replaced.
    pub open spec fn spec_set(self, modifier: u32, bits: u8) -> PhysModifiers {
        if modifier == MODS_ALT {
            PhysModifiers { alt: ModLocationMask { bits }, ..self }
        } else if modifier == MODS_CONTROL {
            PhysModifiers { control: ModLocationMask { bits }, ..self }
        } else if modifier == MODS_SHIFT {
            PhysModifiers { shift: ModLocationMask { bits }, ..self }
        } else {
            PhysModifiers { super_key: ModLocationMask { bits }, ..self }
        }
    }

    fn get(&self, modifier: u32) -> (r: ModLocationMask)
        ensures
            r.bits == self.spec_get(modifier),
    {
        if modifier == MODS_ALT {
            self.alt
        } else if modifier == MODS_CONTROL {
            self.control
        } else if modifier == MODS_SHIFT {
            self.shift
        } else {
            self.super_key
        }
    }

    fn set(&mut self, modifier: u32, mask: ModLocationMask)
        ensures
            *final(self) == old(self).spec_set(modifier, mask.bits),
    {
        if modifier == MODS_ALT {
            self.alt = mask;
        } else if modifier == MODS_CONTROL {
            self.control = mask;
        } else if modifier == MODS_SHIFT {
            self.shift = mask;
        } else {
            self.super_key = mask;
        }
    }
}

/// How the held keys of a modifier change on a flags-changed event for one of its keys,
/// and which key events to report.
///
/// When the modifier became inactive, every held key of it is reported released (left
/// first) and none stays held. When it is active and the changed key is the only one held,
/// the key is reported pressed (its release was missed while unfocused). Otherwise the
/// changed key toggles and is reported pressed or released accordingly.
pub open spec fn modifier_transition(phys: u8, is_active: bool, loc: KeyLocation) -> (u8, Seq<(KeyLocation, ElementState)>) {
    let mask = location_bit(loc);
    if !is_active {
        (
            0u8,
            (if phys & MOD_LOCATION_LEFT == MOD_LOCATION_LEFT {
                seq![(KeyLocation::Left, ElementState::Released)]
            } else {
                Seq::empty()
            }) + (if phys & MOD_LOCATION_RIGHT == MOD_LOCATION_RIGHT {
                seq![(KeyLocation::Right, ElementState::Released)]
            } else {
                Seq::empty()
            }),
        )
    } else if phys == mask {
        (phys, seq![(loc, ElementState::Pressed)])
    } else {
        let toggled = phys ^ mask;
        (
            toggled,
            seq![
                (loc, if toggled & mask == mask {
                    ElementState::Pressed
                } else {
                    ElementState::Released
                }),
            ],
        )
    }
}

/// The modifier key that a flags-changed event with this key code is about, if it is one.
pub open spec fn flags_changed_modifier_key(key_code: u16) -> Option<KeyView> {
    if key_code == 0 {
        None
    } else {
        let logical = code_key(scancode_physical(key_code as u32), key_code);
        if modifier_of_key(logical) is Some {
            Some(logical)
        } else {
            None
        }
    }
}

/// Whether a window event is the key event of one key of a modifier.
pub open spec fn is_modifier_key_event(
    e: WindowEvent,
    logical: KeyView,
    loc: KeyLocation,
    state: ElementState,
) -> bool {
    match e {
        WindowEvent::KeyboardInput { event, is_synthetic } => {
            &&& !is_synthetic
            &&& event.logical_key@ == logical
            &&& event.physical_key == PhysicalKey::Code(modifier_code(logical, loc))
            &&& event.location == loc
            &&& event.state == state
            &&& !event.repeat
            &&& event.text is None
            &&& event.platform_specific.text_with_all_modifiers is None
            &&& event.platform_specific.key_without_modifiers@ == logical
        },
        _ => false,
    }
}

/// A key whose scancode maps to a modifier sits on the left or the right.
proof fn lemma_modifier_location(key_code: u16)
    requires
        flags_changed_modifier_key(key_code) is Some,
    ensures
        code_location(scancode_physical(key_code as u32)) == KeyLocation::Left || code_location(
            scancode_physical(key_code as u32),
        ) == KeyLocation::Right,
        scancode_physical(key_code as u32) == PhysicalKey::Code(
            modifier_code(
                flags_changed_modifier_key(key_code)->0,
                code_location(scancode_physical(key_code as u32)),
            ),
        ),
{
}

/// The window events that report the key events of a modifier.
pub open spec fn modifier_events_ok(
    events: Seq<WindowEvent>,
    logical: KeyView,
    transitions: Seq<(KeyLocation, ElementState)>,
) -> bool {
    &&& events.len() >= transitions.len()
    &&& forall|i: int|
        0 <= i < transitions.len() ==> is_modifier_key_event(
            #[trigger] events[i],
            logical,
            transitions[i].0,
            transitions[i].1,
        )
}

/// Whether the characters of an Option-modified key event should be replaced by those
/// ignoring modifiers, so that Option acts as Alt.
pub open spec fn ignores_alt_characters(option_as_alt: OptionAsAlt, flags: usize) -> bool {
    let alt_active = match option_as_alt {
        OptionAsAlt::OnlyLeft => flags_contain(flags, NX_DEVICELALTKEYMASK),
        OptionAsAlt::OnlyRight => flags_contain(flags, NX_DEVICERALTKEYMASK),
        OptionAsAlt::Both => flags_contain(flags, NS_FLAG_OPTION),
        OptionAsAlt::Neither => false,
    };
    alt_active && !flags_contain(flags, NS_FLAG_CONTROL) && !flags_contain(flags, NS_FLAG_COMMAND)
}

/// Single-bit tests: a flag set holds a one-bit mask exactly when they share a bit.
proof fn lemma_single_bits(flags: usize)
    by (bit_vector)
    ensures
        (flags & 0x20usize == 0x20usize) == (flags & 0x20usize != 0),
        (flags & 0x40usize == 0x40usize) == (flags & 0x40usize != 0),
        (flags & 0x40000usize == 0x40000usize) == (flags & 0x40000usize != 0),
        (flags & 0x80000usize == 0x80000usize) == (flags & 0x80000usize != 0),
        (flags & 0x100000usize == 0x100000usize) == (flags & 0x100000usize != 0),
{
}

/// When Option acts as Alt for a key event, by the event's modifier flags: never while
/// Control (bit 18) or Command (bit 20) is held; otherwise, with `OnlyLeft` when the left
/// Option key's device bit (0x20) is set, with `OnlyRight` when the right Option key's
/// device bit (0x40) is set, with `Both` when the Option flag (bit 19) is set, and never
/// with `Neither`.
pub proof fn lemma_option_as_alt(flags: usize)
    ensures
        ignores_alt_characters(OptionAsAlt::OnlyLeft, flags) == (flags & 0x20 != 0 && flags
            & 0x40000 == 0 && flags & 0x100000 == 0),
        ignores_alt_characters(OptionAsAlt::OnlyRight, flags) == (flags & 0x40 != 0 && flags
            & 0x40000 == 0 && flags & 0x100000 == 0),
        ignores_alt_characters(OptionAsAlt::Both, flags) == (flags & 0x80000 != 0 && flags
            & 0x40000 == 0 && flags & 0x100000 == 0),
        !ignores_alt_characters(OptionAsAlt::Neither, flags),
{
    lemma_single_bits(flags);
    assert(NS_FLAG_CONTROL == 0x40000) by (bit_vector);
    assert(NS_FLAG_OPTION == 0x80000) by (bit_vector);
    assert(NS_FLAG_COMMAND == 0x100000) by (bit_vector);
}

/// Decides whether a key event must be rewritten so that Option acts as Alt: the
/// configured Option key is held and neither Control nor Command is.
pub fn should_ignore_alt_characters(option_as_alt: OptionAsAlt, flags: usize) -> (r: bool)
    ensures
        r == ignores_alt_characters(option_as_alt, flags),
{
    let ev_mods = event_mods(flags).state;
    proof {
        crate::event::lemma_modifiers_state_bits(flags);
    }
    let alt_active = match option_as_alt {
        OptionAsAlt::OnlyLeft => lalt_pressed(flags),
        OptionAsAlt::OnlyRight => ralt_pressed(flags),
        OptionAsAlt::Both => ev_mods.alt_key(),
        OptionAsAlt::Neither => false,
    };
    alt_active && !ev_mods.control_key() && !ev_mods.super_key()
}

/// The mouse button of an AppKit button number.
pub open spec fn button_of_number(n: isize) -> MouseButton {
    if n == 0 {
        MouseButton::Left
    } else if n == 1 {
        MouseButton::Right
    } else if n == 2 {
        MouseButton::Middle
    } else if n == 3 {
        MouseButton::Back
    } else if n == 4 {
        MouseButton::Forward
    } else {
        MouseButton::Other(n as u16)
    }
}

/// The mouse button of an event's button number: 0-2 are left, right and middle, 3 and 4
/// back and forward, anything else a generic button (its number truncated to 16 bits).
pub fn mouse_button(button_number: isize) -> (r: MouseButton)
    ensures
        r == button_of_number(button_number),
{
    match button_number {
        0 => MouseButton::Left,
        1 => MouseButton::Right,
        2 => MouseButton::Middle,
        3 => MouseButton::Back,
        4 => MouseButton::Forward,
        n => MouseButton::Other(n as u16),
    }
}

/// The input state of a window's content view.
#[derive(Debug)]
pub struct ViewState {
    pub cursor_visible: bool,
    pub modifiers: Modifiers,
    pub phys_modifiers: PhysModifiers,
    pub ime_state: ImeState,
    pub input_source: String,
    /// True iff the application wants IME events.
    pub ime_allowed: bool,
    /// True if the current key event should be forwarded to the application, even during IME.
    pub forward_key_to_app: bool,
    /// Whether the view holds marked (composing) text.
    pub has_marked_text: bool,
    pub accepts_first_mouse: bool,
    pub option_as_alt: OptionAsAlt,
}

/// The state of a new view: cursor visible, no modifier active or held, IME disabled and
/// not allowed, no marked text.
pub open spec fn initial_view(
    accepts_first_mouse: bool,
    option_as_alt: OptionAsAlt,
    input_source: String,
) -> ViewState {
    ViewState {
        cursor_visible: true,
        modifiers: Modifiers {
            state: ModifiersState { bits: 0 },
            pressed_mods: ModifiersKeys { bits: 0 },
        },
        phys_modifiers: PhysModifiers {
            alt: ModLocationMask { bits: 0 },
            control: ModLocationMask { bits: 0 },
            shift: ModLocationMask { bits: 0 },
            super_key: ModLocationMask { bits: 0 },
        },
        ime_state: ImeState::Disabled,
        input_source,
        ime_allowed: false,
        forward_key_to_app: false,
        has_marked_text: false,
        accepts_first_mouse,
        option_as_alt,
    }
}

/// A view after its modifiers are reset: when any modifier is active, none is active or
/// held any more; otherwise nothing changes.
pub open spec fn modifiers_reset(v: ViewState) -> ViewState {
    if v.modifiers.state.bits != 0 {
        ViewState {
            modifiers: Modifiers {
                state: ModifiersState { bits: 0 },
                pressed_mods: ModifiersKeys { bits: 0 },
            },
            ..v
        }
    } else {
        v
    }
}

impl ViewState {
    /// The state of a new view: cursor visible, no modifiers, IME disabled and not allowed.
    pub fn new(accepts_first_mouse: bool, option_as_alt: OptionAsAlt, input_source: String) -> (r: ViewState)
        ensures
            r == initial_view(accepts_first_mouse, option_as_alt, input_source),
            r.cursor_visible,
            r.modifiers.state.bits == 0,
            r.modifiers.pressed_mods.bits == 0,
            r.phys_modifiers.alt.bits == 0 && r.phys_modifiers.control.bits == 0
                && r.phys_modifiers.shift.bits == 0 && r.phys_modifiers.super_key.bits == 0,
            r.ime_state == ImeState::Disabled,
            r.input_source@ == input_source@,
            !r.ime_allowed,
            !r.forward_key_to_app,
            !r.has_marked_text,
            r.accepts_first_mouse == accepts_first_mouse,
            r.option_as_alt == option_as_alt,
    {
        ViewState {
            cursor_visible: true,
            modifiers: Modifiers::default_modifiers(),
            phys_modifiers: PhysModifiers {
                alt: ModLocationMask::empty(),
                control: ModLocationMask::empty(),
                shift: ModLocationMask::empty(),
                super_key: ModLocationMask::empty(),
            },
            ime_state: ImeState::Disabled,
            input_source,
            ime_allowed: false,
            forward_key_to_app: false,
            has_marked_text: false,
            accepts_first_mouse,
            option_as_alt,
        }
    }

    /// Whether the input method is enabled.
    pub fn is_ime_enabled(&self) -> (r: bool)
        ensures
            r == (self.ime_state != ImeState::Disabled),
    {
        !matches!(self.ime_state, ImeState::Disabled)
    }

    /// Sets whether the cursor is visible; returns whether this changed anything.
    pub fn set_cursor_visible(&mut self, visible: bool) -> (changed: bool)
        ensures
            changed == (visible != old(self).cursor_visible),
            *final(self) == (ViewState { cursor_visible: visible, ..*old(self) }),
    {
        if visible != self.cursor_visible {
            self.cursor_visible = visible;
            true
        } else {
            false
        }
    }

    pub fn set_option_as_alt(&mut self, value: OptionAsAlt)
        ensures
            *final(self) == (ViewState { option_as_alt: value, ..*old(self) }),
    {
        self.option_as_alt = value;
    }

    pub fn option_as_alt(&self) -> (r: OptionAsAlt)
        ensures
            r == self.option_as_alt,
    {
        self.option_as_alt
    }
}

/// Whether a character is a control character (Unicode general category Cc).
pub open spec fn is_control_char(c: char) -> bool {
    (c as u32) <= 0x1f || (0x7f <= (c as u32) && (c as u32) <= 0x9f)
}

/// Whether a character is a control character, as `char::is_control` decides it.
pub fn char_is_control(c: char) -> (r: bool)
    ensures
        r == is_control_char(c),
{
    let u = c as u32;
    u <= 0x1f || (0x7f <= u && u <= 0x9f)
}

/// Whether a text starts with a control character.
pub open spec fn starts_with_control(s: Seq<char>) -> bool {
    s.len() > 0 && is_control_char(s[0])
}

/// The key event of one key of a modifier, as a flags-changed event reports it.
fn modifier_key_event(logical_key: &Key, loc: KeyLocation, state: ElementState) -> (e: WindowEvent)
    requires
        modifier_of_key(logical_key@) is Some,
        loc == KeyLocation::Left || loc == KeyLocation::Right,
    ensures
        is_modifier_key_event(e, logical_key@, loc, state),
{
    let code = if loc == KeyLocation::Left {
        get_left_modifier_code(logical_key)
    } else {
        get_right_modifier_code(logical_key)
    };
    WindowEvent::KeyboardInput {
        event: KeyEvent {
            location: loc,
            logical_key: logical_key.duplicate(),
            physical_key: PhysicalKey::Code(code),
            repeat: false,
            state,
            text: None,
            platform_specific: KeyEventExtra {
                text_with_all_modifiers: None,
                key_without_modifiers: logical_key.duplicate(),
            },
        },
        is_synthetic: false,
    }
}

/// The parts of a view's state that only modifier handling changes stay as they were.
pub open spec fn same_ime_and_cursor(a: &ViewState, b: &ViewState) -> bool {
    &&& a.cursor_visible == b.cursor_visible
    &&& a.ime_state == b.ime_state
    &&& a.input_source@ == b.input_source@
    &&& a.ime_allowed == b.ime_allowed
    &&& a.forward_key_to_app == b.forward_key_to_app
    &&& a.has_marked_text == b.has_marked_text
    &&& a.accepts_first_mouse == b.accepts_first_mouse
    &&& a.option_as_alt == b.option_as_alt
}

/// The effect of a modifier update on a view's state and the events it reports.
pub open spec fn modifiers_updated(
    old_state: &ViewState,
    new_state: &ViewState,
    events: Seq<WindowEvent>,
    flags: usize,
    key_code: u16,
    is_flags_changed_event: bool,
) -> bool {
    let changed = old_state.modifiers != new_state.modifiers;
    let n_changed: int = if changed { 1 } else { 0 };
    &&& new_state.modifiers.state.bits == modifiers_state_bits(flags)
    &&& new_state.modifiers.pressed_mods.bits == modifiers_keys_bits(flags)
    &&& same_ime_and_cursor(old_state, new_state)
    &&& match (if is_flags_changed_event { flags_changed_modifier_key(key_code) } else { None }) {
        Some(logical) => {
            let m = modifier_of_key(logical)->0;
            let loc = code_location(scancode_physical(key_code as u32));
            let t = modifier_transition(
                old_state.phys_modifiers.spec_get(m),
                modifiers_state_bits(flags) & m == m,
                loc,
            );
            &&& new_state.phys_modifiers == old_state.phys_modifiers.spec_set(m, t.0)
            &&& events.len() == t.1.len() + n_changed
            &&& modifier_events_ok(events, logical, t.1)
        },
        None => {
            &&& new_state.phys_modifiers == old_state.phys_modifiers
            &&& events.len() == n_changed
        },
    }
    &&& changed ==> (events.last() matches WindowEvent::ModifiersChanged(m) && m
        == new_state.modifiers)
}

/// Updating the modifiers twice from the same modifier flags (outside flags-changed
/// events) reports nothing the second time and leaves them as they are.
pub proof fn lemma_update_modifiers_idempotent(
    v0: ViewState,
    v1: ViewState,
    v2: ViewState,
    e1: Seq<WindowEvent>,
    e2: Seq<WindowEvent>,
    flags: usize,
    key_code: u16,
)
    requires
        modifiers_updated(&v0, &v1, e1, flags, key_code, false),
        modifiers_updated(&v1, &v2, e2, flags, key_code, false),
    ensures
        v2.modifiers == v1.modifiers,
        e2.len() == 0,
{
}

impl ViewState {
    /// Updates the modifiers from an event's modifier flags and reports what changed.
    ///
    /// For a flags-changed event of a modifier key, also guesses whether that key was
    /// pressed or released (AppKit does not say) and reports the key events; see
    /// [`modifier_transition`]. A `ModifiersChanged` event ends the list when the
    /// modifiers differ from the previous ones.
    pub fn update_modifiers(&mut self, flags: usize, key_code: u16, is_flags_changed_event: bool) -> (events: Vec<WindowEvent>)
        ensures
            modifiers_updated(old(self), final(self), events@, flags, key_code, is_flags_changed_event),
    {
        let current_modifiers = event_mods(flags);
        let prev_modifiers = self.modifiers;
        self.modifiers = current_modifiers;
        let mut events: Vec<WindowEvent> = Vec::new();

        if is_flags_changed_event && key_code != 0 {
            let physical_key = scancode_to_physicalkey(key_code as u32);
            let logical_key = code_to_key(physical_key, key_code);
            // Unknown modifiers are ignored: whether they were pressed or released cannot be
            // told reliably.
            match key_to_modifier(&logical_key) {
                Some(event_modifier) => {
                    proof {
                        lemma_modifier_location(key_code);
                    }
                    let location = code_to_location(physical_key);
                    let location_mask = ModLocationMask::from_location(location);
                    let phys_mod = self.phys_modifiers.get(event_modifier.bits);
                    let is_active = current_modifiers.state.contains(event_modifier);
                    if !is_active {
                        if phys_mod.contains(ModLocationMask { bits: MOD_LOCATION_LEFT }) {
                            events.push(
                                modifier_key_event(&logical_key, KeyLocation::Left, ElementState::Released),
                            );
                        }
                        if phys_mod.contains(ModLocationMask { bits: MOD_LOCATION_RIGHT }) {
                            events.push(
                                modifier_key_event(&logical_key, KeyLocation::Right, ElementState::Released),
                            );
                        }
                        self.phys_modifiers.set(event_modifier.bits, ModLocationMask::empty());
                    } else {
                        let state = if phys_mod == location_mask {
                            // The only held key of this modifier is the one that changed, yet
                            // the modifier is active: its release was missed while the window
                            // was not focused, so it counts as pressed.
                            ElementState::Pressed
                        } else {
                            let toggled = ModLocationMask { bits: phys_mod.bits ^ location_mask.bits };
                            self.phys_modifiers.set(event_modifier.bits, toggled);
                            if toggled.contains(location_mask) {
                                ElementState::Pressed
                            } else {
                                ElementState::Released
                            }
                        };
                        events.push(modifier_key_event(&logical_key, location, state));
                    }
                },
                None => {},
            }
        }
        if prev_modifiers != current_modifiers {
            events.push(WindowEvent::ModifiersChanged(current_modifiers));
        }
        events
    }
}

/// Whether a window event is an IME preedit with the given text and cursor range.
pub open spec fn is_preedit(e: WindowEvent, text: Seq<char>, cursor: Option<(usize, usize)>) -> bool {
    e matches WindowEvent::Ime(Ime::Preedit(t, c)) && t@ == text && c == cursor
}

/// A view's state is unchanged apart from the IME fields.
pub open spec fn same_except_ime(a: &ViewState, b: &ViewState) -> bool {
    &&& a.cursor_visible == b.cursor_visible
    &&& a.modifiers == b.modifiers
    &&& a.phys_modifiers == b.phys_modifiers
    &&& a.ime_allowed == b.ime_allowed
    &&& a.accepts_first_mouse == b.accepts_first_mouse
    &&& a.option_as_alt == b.option_as_alt
}

/// A view after IME input is allowed or forbidden, and the events that this reports: nothing
/// changes when the setting is unchanged; allowing it changes nothing else; forbidding it
/// drops the marked text and disables the IME, reporting `Ime::Disabled` if it was enabled.
pub open spec fn ime_allowed_set(before: ViewState, allowed: bool) -> (ViewState, Seq<WindowEvent>) {
    if before.ime_allowed == allowed {
        (before, Seq::empty())
    } else if allowed {
        (ViewState { ime_allowed: true, ..before }, Seq::empty())
    } else {
        (
            ViewState {
                ime_allowed: false,
                has_marked_text: false,
                ime_state: ImeState::Disabled,
                ..before
            },
            if before.ime_state != ImeState::Disabled {
                seq![WindowEvent::Ime(Ime::Disabled)]
            } else {
                Seq::empty()
            },
        )
    }
}

impl ViewState {
    /// Allows or forbids IME input. Forbidding it drops the marked text and, if the IME was
    /// enabled, disables it and reports `Ime::Disabled`.
    pub fn set_ime_allowed(&mut self, ime_allowed: bool) -> (events: Vec<WindowEvent>)
        ensures
            *final(self) == ime_allowed_set(*old(self), ime_allowed).0,
            events@ == ime_allowed_set(*old(self), ime_allowed).1,
    {
        let mut events: Vec<WindowEvent> = Vec::new();
        if self.ime_allowed == ime_allowed {
            return events;
        }
        self.ime_allowed = ime_allowed;
        if self.ime_allowed {
            return events;
        }
        // Clear the marked text.
        self.has_marked_text = false;
        if self.ime_state != ImeState::Disabled {
            self.ime_state = ImeState::Disabled;
            events.push(WindowEvent::Ime(Ime::Disabled));
        }
        events
    }

    /// Resets the modifiers when any is active, reporting the change.
    pub fn reset_modifiers(&mut self) -> (events: Vec<WindowEvent>)
        ensures
            *final(self) == modifiers_reset(*old(self)),
            events@ == (if old(self).modifiers.state.bits != 0 {
                seq![WindowEvent::ModifiersChanged(modifiers_reset(*old(self)).modifiers)]
            } else {
                Seq::empty()
            }),
    {
        let mut events: Vec<WindowEvent> = Vec::new();
        if !self.modifiers.state().is_empty() {
            self.modifiers = Modifiers::default_modifiers();
            events.push(WindowEvent::ModifiersChanged(self.modifiers));
        }
        events
    }

    /// Handles new marked (composing) text from the input method.
    ///
    /// `has_marked_text` tells whether the marked text is non-empty, `selected_utf8` is the
    /// selected range converted to UTF-8 offsets, and `current_input_source` is the current
    /// keyboard input source. Enables the IME if it was disabled (reporting `Ime::Enabled`),
    /// enters preedit (or the ground state if the text was cleared) and reports the preedit
    /// text with its cursor range, none for an empty text.
    pub fn set_marked_text(
        &mut self,
        text: String,
        has_marked_text: bool,
        selected_utf8: (usize, usize),
        current_input_source: String,
    ) -> (events: Vec<WindowEvent>)
        ensures
            same_except_ime(old(self), final(self)),
            final(self).has_marked_text == has_marked_text,
            final(self).ime_state == (if has_marked_text {
                ImeState::Preedit
            } else {
                ImeState::Ground
            }),
            final(self).forward_key_to_app == old(self).forward_key_to_app,
            final(self).input_source@ == (if old(self).ime_state == ImeState::Disabled {
                current_input_source@
            } else {
                old(self).input_source@
            }),
            events.len() == (if old(self).ime_state == ImeState::Disabled { 2int } else { 1int }),
            old(self).ime_state == ImeState::Disabled ==> events[0] matches WindowEvent::Ime(
                Ime::Enabled,
            ),
            is_preedit(
                events@.last(),
                text@,
                if text@.len() == 0 {
                    None
                } else {
                    Some(selected_utf8)
                },
            ),
    {
        let mut events: Vec<WindowEvent> = Vec::new();
        self.has_marked_text = has_marked_text;
        // Tell the application that the IME is active if it does not know yet.
        if self.ime_state == ImeState::Disabled {
            self.input_source = current_input_source;
            events.push(WindowEvent::Ime(Ime::Enabled));
        }
        if has_marked_text {
            self.ime_state = ImeState::Preedit;
        } else {
            // The preedit was cleared.
            self.ime_state = ImeState::Ground;
        }
        // An empty string means there is no preedit, so no cursor range.
        let cursor_range = if text.as_str().is_empty() {
            None
        } else {
            Some(selected_utf8)
        };
        events.push(WindowEvent::Ime(Ime::Preedit(text, cursor_range)));
        events
    }

    /// Handles the input method dropping the marked text: reports an empty preedit and
    /// returns an enabled IME to the ground state.
    pub fn unmark_text(&mut self) -> (events: Vec<WindowEvent>)
        ensures
            same_except_ime(old(self), final(self)),
            !final(self).has_marked_text,
            final(self).forward_key_to_app == old(self).forward_key_to_app,
            final(self).input_source@ == old(self).input_source@,
            final(self).ime_state == (if old(self).ime_state != ImeState::Disabled {
                ImeState::Ground
            } else {
                ImeState::Disabled
            }),
            events.len() == 1,
            is_preedit(events[0], Seq::empty(), None),
    {
        let mut events: Vec<WindowEvent> = Vec::new();
        self.has_marked_text = false;
        let empty = String::new();
        proof {
            assert(empty@ =~= Seq::<char>::empty());
        }
        events.push(WindowEvent::Ime(Ime::Preedit(empty, None)));
        if self.is_ime_enabled() {
            // Leave the preedit state.
            self.ime_state = ImeState::Ground;
        }
        events
    }

    /// Handles text inserted by the input method: commits it when there is marked text, the
    /// IME is enabled and the text does not start with a control character.
    pub fn insert_text(&mut self, text: String) -> (events: Vec<WindowEvent>)
        ensures
            same_except_ime(old(self), final(self)),
            final(self).has_marked_text == old(self).has_marked_text,
            final(self).forward_key_to_app == old(self).forward_key_to_app,
            final(self).input_source@ == old(self).input_source@,
            if old(self).has_marked_text && old(self).ime_state != ImeState::Disabled
                && !starts_with_control(text@) {
                &&& final(self).ime_state == ImeState::Committed
                &&& events.len() == 2
                &&& is_preedit(events[0], Seq::empty(), None)
                &&& events[1] matches WindowEvent::Ime(Ime::Commit(t)) && t@ == text@
            } else {
                final(self).ime_state == old(self).ime_state && events.len() == 0
            },
    {
        let mut events: Vec<WindowEvent> = Vec::new();
        let is_control = match first_char_of(&text) {
            Some(c) => char_is_control(c),
            None => false,
        };
        // Commit only if there is marked text.
        if self.has_marked_text && self.is_ime_enabled() && !is_control {
            let empty = String::new();
            proof {
                assert(empty@ =~= Seq::<char>::empty());
            }
            events.push(WindowEvent::Ime(Ime::Preedit(empty, None)));
            events.push(WindowEvent::Ime(Ime::Commit(text)));
            self.ime_state = ImeState::Committed;
        }
        events
    }

    /// Handles a key that the input method did not turn into text (newlines, tabs, Ctrl+C):
    /// unless text was just committed, the key is forwarded to the application and a preedit
    /// with marked text returns to the ground state.
    pub fn do_command_by_selector(&mut self)
        ensures
            same_except_ime(old(self), final(self)),
            final(self).has_marked_text == old(self).has_marked_text,
            final(self).input_source@ == old(self).input_source@,
            if old(self).ime_state == ImeState::Committed {
                final(self).ime_state == old(self).ime_state && final(self).forward_key_to_app
                    == old(self).forward_key_to_app
            } else {
                &&& final(self).forward_key_to_app
                &&& final(self).ime_state == (if old(self).has_marked_text && old(self).ime_state
                    == ImeState::Preedit {
                    ImeState::Ground
                } else {
                    old(self).ime_state
                })
            },
    {
        // Keys of just committed text are not forwarded: some IMEs would send them twice.
        if self.ime_state == ImeState::Committed {
            return;
        }
        self.forward_key_to_app = true;
        if self.has_marked_text && self.ime_state == ImeState::Preedit {
            // Leave the preedit so that the key-up of this key is reported too.
            self.ime_state = ImeState::Ground;
        }
    }

    /// The first step of a key press, before the input method interprets it: a change of
    /// keyboard input source while the IME is enabled disables it (reporting
    /// `Ime::Disabled`). Returns the events and the IME state the key press starts from.
    pub fn key_down_begin(&mut self, current_input_source: String) -> (r: (Vec<WindowEvent>, ImeState))
        ensures
            same_except_ime(old(self), final(self)),
            final(self).has_marked_text == old(self).has_marked_text,
            !final(self).forward_key_to_app,
            r.1 == final(self).ime_state,
            if old(self).input_source@ != current_input_source@ && old(self).ime_state
                != ImeState::Disabled {
                &&& final(self).input_source@ == current_input_source@
                &&& final(self).ime_state == ImeState::Disabled
                &&& r.0.len() == 1
                &&& r.0[0] matches WindowEvent::Ime(Ime::Disabled)
            } else {
                &&& final(self).input_source@ == old(self).input_source@
                &&& final(self).ime_state == old(self).ime_state
                &&& r.0.len() == 0
            },
    {
        let mut events: Vec<WindowEvent> = Vec::new();
        if self.input_source != current_input_source && self.is_ime_enabled() {
            self.input_source = current_input_source;
            self.ime_state = ImeState::Disabled;
            events.push(WindowEvent::Ime(Ime::Disabled));
        }
        let old_ime_state = self.ime_state;
        self.forward_key_to_app = false;
        (events, old_ime_state)
    }

    /// The last step of a key press, after the input method interpreted it (when IME is
    /// allowed). Drops the marked text after a commit, updates the modifiers, and returns
    /// the events with whether the key itself goes to the application: it does when the key
    /// caused no IME input, or when the IME forwarded it.
    pub fn key_down_end(&mut self, old_ime_state: ImeState, flags: usize) -> (r: (Vec<WindowEvent>, bool))
        ensures
            ({
                let committed = old(self).ime_state == ImeState::Committed;
                let had_ime_input = committed || old(self).ime_state == ImeState::Preedit
                    || old_ime_state != old(self).ime_state;
                &&& final(self).ime_state == (if committed {
                    ImeState::Ground
                } else {
                    old(self).ime_state
                })
                &&& final(self).has_marked_text == (old(self).has_marked_text && !(old(
                    self,
                ).ime_allowed && committed))
                &&& final(self).modifiers.state.bits == modifiers_state_bits(flags)
                &&& final(self).modifiers.pressed_mods.bits == modifiers_keys_bits(flags)
                &&& final(self).phys_modifiers == old(self).phys_modifiers
                &&& final(self).forward_key_to_app == old(self).forward_key_to_app
                &&& final(self).input_source@ == old(self).input_source@
                &&& final(self).ime_allowed == old(self).ime_allowed
                &&& final(self).cursor_visible == old(self).cursor_visible
                &&& final(self).option_as_alt == old(self).option_as_alt
                &&& r.0.len() == (if old(self).modifiers != final(self).modifiers {
                    1int
                } else {
                    0int
                })
                &&& r.0.len() == 1 ==> (r.0[0] matches WindowEvent::ModifiersChanged(m) && m
                    == final(self).modifiers)
                &&& r.1 == (!had_ime_input || old(self).forward_key_to_app)
            }),
    {
        // After a commit, the marked text is removed so that normal input can continue.
        if self.ime_allowed && self.ime_state == ImeState::Committed {
            self.has_marked_text = false;
        }
        let events = self.update_modifiers(flags, 0, false);
        let had_ime_input = match self.ime_state {
            ImeState::Committed => {
                // Allow normal input after the commit.
                self.ime_state = ImeState::Ground;
                true
            },
            ImeState::Preedit => true,
            // The key press may have cleared the preedit, so compare with the old state.
            _ => old_ime_state != self.ime_state,
        };
        let deliver = !had_ime_input || self.forward_key_to_app;
        (events, deliver)
    }

    /// A key release: updates the modifiers and returns the events with whether the key
    /// itself goes to the application, which it does in the ground or disabled IME state.
    pub fn key_up(&mut self, flags: usize) -> (r: (Vec<WindowEvent>, bool))
        ensures
            modifiers_updated(old(self), final(self), r.0@, flags, 0, false),
            r.1 == (old(self).ime_state == ImeState::Ground || old(self).ime_state
                == ImeState::Disabled),
    {
        let events = self.update_modifiers(flags, 0, false);
        let deliver = matches!(self.ime_state, ImeState::Ground | ImeState::Disabled);
        (events, deliver)
    }

    /// A change of modifier flags: updates the modifiers and reports the modifier key events.
    pub fn flags_changed(&mut self, flags: usize, key_code: u16) -> (events: Vec<WindowEvent>)
        ensures
            modifiers_updated(old(self), final(self), events@, flags, key_code, true),
    {
        self.update_modifiers(flags, key_code, true)
    }

    /// A mouse button press or release: updates the modifiers, then reports the button.
    pub fn mouse_click(&mut self, flags: usize, button_number: isize, button_state: ElementState) -> (events: Vec<WindowEvent>)
        ensures
            events.len() >= 1,
            modifiers_updated(old(self), final(self), events@.drop_last(), flags, 0, false),
            events@.last() matches WindowEvent::MouseInput { state, button } && state
                == button_state && button == button_of_number(button_number),
    {
        let button = mouse_button(button_number);
        let mut events = self.update_modifiers(flags, 0, false);
        let ghost before = events@;
        events.push(WindowEvent::MouseInput { state: button_state, button });
        proof {
            assert(events@.drop_last() =~= before);
        }
        events
    }
}

/// The first character of a string, if any.
fn first_char_of(s: &String) -> (r: Option<char>)
    ensures
        r == (if s@.len() == 0 { None } else { Some(s@[0]) }),
{
    let mut it = s.as_str().chars();
    it.next()
}

/// The range of the marked text of a view whose marked text is `marked_length` UTF-16
/// units long: all of it, or "no range" when there is none.
pub fn marked_range(marked_length: usize) -> (r: NSRange)
    ensures
        r == (if marked_length > 0 {
            NSRange { location: 0, length: marked_length }
        } else {
            NSRange { location: isize::MAX as usize, length: 0 }
        }),
{
    if marked_length > 0 {
        NSRange { location: 0, length: marked_length }
    } else {
        empty_range()
    }
}

/// The selected range of a view: there is never a selection ("no range").
pub fn selected_range() -> (r: NSRange)
    ensures
        r == (NSRange { location: isize::MAX as usize, length: 0 }),
{
    empty_range()
}

impl ViewState {
    /// Command-period (the shortcut that closes a dialog) comes as `cancelOperation:`: the
    /// modifiers are updated from the current event, then its key event is reported.
    pub fn cancel_operation(&mut self, flags: usize, key_event: KeyEvent) -> (events: Vec<WindowEvent>)
        ensures
            events.len() >= 1,
            modifiers_updated(old(self), final(self), events@.drop_last(), flags, 0, false),
            events@.last() matches WindowEvent::KeyboardInput { event, is_synthetic } && !is_synthetic
                && event == key_event,
    {
        let mut events = self.update_modifiers(flags, 0, false);
        let ghost before = events@;
        events.push(WindowEvent::KeyboardInput { event: key_event, is_synthetic: false });
        proof {
            assert(events@.drop_last() =~= before);
        }
        events
    }

    /// The mouse entered the view.
    pub fn mouse_entered(&self) -> (r: WindowEvent)
        ensures
            r is CursorEntered,
    {
        WindowEvent::CursorEntered
    }

    /// The mouse left the view.
    pub fn mouse_exited(&self) -> (r: WindowEvent)
        ensures
            r is CursorLeft,
    {
        WindowEvent::CursorLeft
    }

    /// Whether a click that activates the window also goes to the view.
    pub fn accepts_first_mouse(&self) -> (r: bool)
        ensures
            r == self.accepts_first_mouse,
    {
        self.accepts_first_mouse
    }
}

} // verus!
