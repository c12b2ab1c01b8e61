use winit::event::{
    code_to_key, code_to_location, create_key_event, event_mods, extra_function_key_to_code,
    get_logical_key_char, get_modifierless_char, lalt_pressed, physicalkey_to_scancode, ralt_pressed,
    scancode_to_physicalkey, ElementState, MouseButton, WindowEvent, NS_FLAG_COMMAND, NS_FLAG_CONTROL,
    NS_FLAG_OPTION, NS_FLAG_SHIFT, NX_DEVICELALTKEYMASK, NX_DEVICELSHIFTKEYMASK, NX_DEVICERALTKEYMASK,
};
use winit::keyboard::{
    Key, KeyCode, KeyLocation, ModifiersState, NamedKey, NativeKey, NativeKeyCode, PhysicalKey,
    KEYS_LALT, KEYS_LSHIFT, KEYS_RALT, MODS_ALT, MODS_CONTROL, MODS_SHIFT, MODS_SUPER,
};
use winit::util::NSRange;
use winit::view::{
    marked_range, mouse_button, selected_range, should_ignore_alt_characters, OptionAsAlt, ViewState,
};

#[test]
fn scancodes_map_to_keys() {
    assert_eq!(scancode_to_physicalkey(0x00), PhysicalKey::Code(KeyCode::KeyA));
    assert_eq!(scancode_to_physicalkey(0x24), PhysicalKey::Code(KeyCode::Enter));
    assert_eq!(scancode_to_physicalkey(0x7a), PhysicalKey::Code(KeyCode::F1));
    assert_eq!(scancode_to_physicalkey(0x0a), PhysicalKey::Code(KeyCode::Backquote));
    assert_eq!(
        scancode_to_physicalkey(0x66),
        PhysicalKey::Unidentified(NativeKeyCode::MacOS(0x66))
    );
    assert_eq!(
        scancode_to_physicalkey(0x1_0042),
        PhysicalKey::Unidentified(NativeKeyCode::MacOS(0x42))
    );
}

#[test]
fn scancode_round_trip() {
    for scancode in 0u32..0x100 {
        let physical = scancode_to_physicalkey(scancode);
        match physical {
            // Backquote has a second scancode; Caps Lock and Fn are not mapped back.
            PhysicalKey::Code(KeyCode::CapsLock) | PhysicalKey::Code(KeyCode::Fn) => {
                assert_eq!(physicalkey_to_scancode(physical), None);
            },
            PhysicalKey::Code(_) if scancode != 0x0a => {
                assert_eq!(physicalkey_to_scancode(physical), Some(scancode));
            },
            _ => {},
        }
    }
    assert_eq!(physicalkey_to_scancode(scancode_to_physicalkey(0x0a)), Some(0x32));
    assert_eq!(physicalkey_to_scancode(PhysicalKey::Code(KeyCode::KeyS)), Some(0x01));
    assert_eq!(
        physicalkey_to_scancode(PhysicalKey::Unidentified(NativeKeyCode::MacOS(0x66))),
        None
    );
}

#[test]
fn layout_independent_keys() {
    assert_eq!(code_to_key(PhysicalKey::Code(KeyCode::Enter), 0x24), Key::Named(NamedKey::Enter));
    assert_eq!(
        code_to_key(PhysicalKey::Code(KeyCode::KeyA), 0x00),
        Key::Unidentified(NativeKey::MacOS(0x00))
    );
    assert_eq!(
        code_to_key(PhysicalKey::Unidentified(NativeKeyCode::MacOS(0x66)), 0x66),
        Key::Unidentified(NativeKey::MacOS(0x66))
    );
}

#[test]
fn key_locations() {
    assert_eq!(code_to_location(PhysicalKey::Code(KeyCode::ShiftLeft)), KeyLocation::Left);
    assert_eq!(code_to_location(PhysicalKey::Code(KeyCode::AltRight)), KeyLocation::Right);
    assert_eq!(code_to_location(PhysicalKey::Code(KeyCode::Numpad5)), KeyLocation::Numpad);
    assert_eq!(code_to_location(PhysicalKey::Code(KeyCode::KeyQ)), KeyLocation::Standard);
}

#[test]
fn function_keys_beyond_f20() {
    assert_eq!(extra_function_key_to_code(0x66, "\u{f718}"), PhysicalKey::Code(KeyCode::F21));
    assert_eq!(extra_function_key_to_code(0x66, "\u{f71b}x"), PhysicalKey::Code(KeyCode::F24));
    assert_eq!(
        extra_function_key_to_code(0x66, "a"),
        PhysicalKey::Unidentified(NativeKeyCode::MacOS(0x66))
    );
    assert_eq!(
        extra_function_key_to_code(0x66, ""),
        PhysicalKey::Unidentified(NativeKeyCode::MacOS(0x66))
    );
}

#[test]
fn modifier_flags() {
    let flags = NS_FLAG_SHIFT | NX_DEVICELSHIFTKEYMASK | NS_FLAG_OPTION | NX_DEVICERALTKEYMASK;
    let mods = event_mods(flags);
    assert_eq!(mods.state.bits, MODS_SHIFT | MODS_ALT);
    assert_eq!(mods.pressed_mods.bits, KEYS_LSHIFT | KEYS_RALT);
    assert!(ralt_pressed(flags));
    assert!(!lalt_pressed(flags));
    assert!(lalt_pressed(NX_DEVICELALTKEYMASK));
    let all = event_mods(NS_FLAG_SHIFT | NS_FLAG_CONTROL | NS_FLAG_OPTION | NS_FLAG_COMMAND);
    assert_eq!(all.state.bits, MODS_SHIFT | MODS_CONTROL | MODS_ALT | MODS_SUPER);
    assert_eq!(all.pressed_mods.bits, 0);
    assert!(ModifiersState { bits: MODS_SHIFT | MODS_ALT }.contains(ModifiersState { bits: MODS_ALT }));
    let _ = KEYS_LALT;
}

#[test]
fn modifierless_character() {
    let units: [u16; 1] = [0x61];
    assert_eq!(get_modifierless_char(0, Some((0, &units[..]))), Key::Character(String::from("a")));
    let pair: [u16; 2] = [0xd83d, 0xde00];
    assert_eq!(
        get_modifierless_char(0, Some((0, &pair[..]))),
        Key::Character(String::from("\u{1f600}"))
    );
    let lone: [u16; 1] = [0xd800];
    assert_eq!(
        get_modifierless_char(0, Some((0, &lone[..]))),
        Key::Character(String::from("\u{fffd}"))
    );
    assert_eq!(
        get_modifierless_char(3, Some((-50, &units[..]))),
        Key::Unidentified(NativeKey::MacOS(3))
    );
    assert_eq!(get_modifierless_char(3, Some((0, &[][..]))), Key::Unidentified(NativeKey::MacOS(3)));
    assert_eq!(get_modifierless_char(4, None), Key::Unidentified(NativeKey::MacOS(4)));
}

#[test]
fn logical_key_heeds_shift_only() {
    assert_eq!(get_logical_key_char("A", "a"), Key::Character(String::from("A")));
    assert_eq!(get_logical_key_char("", "e"), Key::Dead(Some('e')));
    assert_eq!(get_logical_key_char("", ""), Key::Dead(None));
}

#[test]
fn key_event_for_a_letter() {
    let event = create_key_event(
        0x00,
        "a",
        "a",
        0,
        Key::Character(String::from("a")),
        true,
        false,
    );
    assert_eq!(event.physical_key, PhysicalKey::Code(KeyCode::KeyA));
    assert_eq!(event.logical_key, Key::Character(String::from("a")));
    assert_eq!(event.text, Some(String::from("a")));
    assert_eq!(event.location, KeyLocation::Standard);
    assert_eq!(event.state, ElementState::Pressed);
    assert!(!event.repeat);
    assert_eq!(event.platform_specific.text_with_all_modifiers, Some(String::from("a")));
    assert_eq!(event.platform_specific.key_without_modifiers, Key::Character(String::from("a")));
}

#[test]
fn key_event_with_option_keeps_the_composed_character() {
    let event = create_key_event(
        0x00,
        "\u{e5}",
        "a",
        NS_FLAG_OPTION,
        Key::Character(String::from("a")),
        true,
        true,
    );
    assert_eq!(event.logical_key, Key::Character(String::from("\u{e5}")));
    assert_eq!(event.text, Some(String::from("\u{e5}")));
    assert!(event.repeat);
}

#[test]
fn key_event_with_command_uses_the_layout_character() {
    let event = create_key_event(
        0x00,
        "a",
        "A",
        NS_FLAG_COMMAND | NS_FLAG_SHIFT,
        Key::Character(String::from("a")),
        false,
        false,
    );
    assert_eq!(event.logical_key, Key::Character(String::from("A")));
    assert_eq!(event.text, None);
    assert_eq!(event.state, ElementState::Released);
}

#[test]
fn key_event_for_enter_and_f21() {
    let enter = create_key_event(0x24, "\r", "\r", 0, Key::Character(String::from("\r")), true, false);
    assert_eq!(enter.logical_key, Key::Named(NamedKey::Enter));
    assert_eq!(enter.text, Some(String::from("\r")));
    let f21 = create_key_event(0x66, "\u{f718}", "\u{f718}", 0, Key::Unidentified(NativeKey::MacOS(0x66)), true, false);
    assert_eq!(f21.physical_key, PhysicalKey::Code(KeyCode::F21));
}

#[test]
fn option_as_alt_selection() {
    let left = NS_FLAG_OPTION | NX_DEVICELALTKEYMASK;
    assert!(should_ignore_alt_characters(OptionAsAlt::OnlyLeft, left));
    assert!(!should_ignore_alt_characters(OptionAsAlt::OnlyRight, left));
    assert!(should_ignore_alt_characters(OptionAsAlt::Both, left));
    assert!(!should_ignore_alt_characters(OptionAsAlt::Neither, left));
    assert!(!should_ignore_alt_characters(OptionAsAlt::Both, left | NS_FLAG_COMMAND));
}

#[test]
fn mouse_buttons() {
    assert_eq!(mouse_button(0), MouseButton::Left);
    assert_eq!(mouse_button(1), MouseButton::Right);
    assert_eq!(mouse_button(2), MouseButton::Middle);
    assert_eq!(mouse_button(3), MouseButton::Back);
    assert_eq!(mouse_button(4), MouseButton::Forward);
    assert_eq!(mouse_button(9), MouseButton::Other(9));
}

#[test]
fn shift_press_is_reported() {
    let mut view = ViewState::new(false, OptionAsAlt::Neither, String::from("us"));
    let flags = NS_FLAG_SHIFT | NX_DEVICELSHIFTKEYMASK;
    let events = view.update_modifiers(flags, 0x38, true);
    assert_eq!(events.len(), 2);
    match &events[0] {
        WindowEvent::KeyboardInput { event, is_synthetic } => {
            assert!(!is_synthetic);
            assert_eq!(event.physical_key, PhysicalKey::Code(KeyCode::ShiftLeft));
            assert_eq!(event.logical_key, Key::Named(NamedKey::Shift));
            assert_eq!(event.location, KeyLocation::Left);
            assert_eq!(event.state, ElementState::Pressed);
        },
        other => panic!("unexpected event {other:?}"),
    }
    match &events[1] {
        WindowEvent::ModifiersChanged(m) => assert_eq!(m.state.bits, MODS_SHIFT),
        other => panic!("unexpected event {other:?}"),
    }
    let release = view.update_modifiers(0, 0x38, true);
    assert_eq!(release.len(), 2);
    match &release[0] {
        WindowEvent::KeyboardInput { event, .. } => assert_eq!(event.state, ElementState::Released),
        other => panic!("unexpected event {other:?}"),
    }
    let none = view.update_modifiers(0, 0x38, false);
    assert!(none.is_empty());
}

#[test]
fn focus_loss_resets_modifiers() {
    let mut view = ViewState::new(false, OptionAsAlt::Neither, String::from("us"));
    let _ = view.update_modifiers(NS_FLAG_COMMAND, 0, false);
    let events = view.reset_modifiers();
    assert_eq!(events.len(), 1);
    assert_eq!(view.modifiers.state.bits, 0);
    assert!(view.reset_modifiers().is_empty());
}

#[test]
fn marked_and_selected_ranges() {
    assert_eq!(marked_range(4), NSRange { location: 0, length: 4 });
    assert_eq!(marked_range(0), NSRange { location: isize::MAX as usize, length: 0 });
    assert_eq!(selected_range(), NSRange { location: isize::MAX as usize, length: 0 });
}

#[test]
fn cancel_operation_reports_the_key() {
    let mut view = ViewState::new(false, OptionAsAlt::Neither, String::from("us"));
    let key = create_key_event(0x2f, ".", ".", NS_FLAG_COMMAND, Key::Character(String::from(".")), true, false);
    let events = view.cancel_operation(NS_FLAG_COMMAND, key);
    assert_eq!(events.len(), 2);
    assert!(matches!(events[0], WindowEvent::ModifiersChanged(_)));
    match &events[1] {
        WindowEvent::KeyboardInput { event, is_synthetic } => {
            assert!(!is_synthetic);
            assert_eq!(event.logical_key, Key::Character(String::from(".")));
        },
        other => panic!("unexpected event {other:?}"),
    }
    assert!(view.accepts_first_mouse() == false);
    assert_eq!(view.mouse_entered(), WindowEvent::CursorEntered);
    assert_eq!(view.mouse_exited(), WindowEvent::CursorLeft);
}
