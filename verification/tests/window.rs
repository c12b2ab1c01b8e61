use winit::appkit::{
    NS_PRESENTATION_AUTO_HIDE_DOCK, NS_PRESENTATION_AUTO_HIDE_MENU_BAR, NS_PRESENTATION_FULL_SCREEN,
    NS_PRESENTATION_HIDE_DOCK, NS_PRESENTATION_HIDE_MENU_BAR, NS_WINDOW_STYLE_MASK_BORDERLESS,
    NS_WINDOW_STYLE_MASK_CLOSABLE, NS_WINDOW_STYLE_MASK_MINIATURIZABLE,
    NS_WINDOW_STYLE_MASK_RESIZABLE, NS_WINDOW_STYLE_MASK_TITLED,
};
use winit::cursor::Cursor;
use winit::monitor::VideoMode;
use winit::platform::WindowId;
use winit::event::{Ime, WindowEvent};
use winit::view::{ImeState, OptionAsAlt, ViewState};
use winit::window::{
    new_window, ExternalError, Fullscreen, NotSupportedError, PlatformSpecificWindowAttributes,
    ResizeDirection, SharedState, Theme, WindowAction, WindowAttrsModel, WindowButtons,
    WindowLevel, WinitWindow,
};
use winit::window_delegate::WindowDelegate;

const DECORATED: usize = NS_WINDOW_STYLE_MASK_TITLED
    | NS_WINDOW_STYLE_MASK_CLOSABLE
    | NS_WINDOW_STYLE_MASK_MINIATURIZABLE
    | NS_WINDOW_STYLE_MASK_RESIZABLE;

fn window(style_mask: usize, resizable: bool) -> WinitWindow {
    WinitWindow {
        id: WindowId(7),
        style_mask,
        visible: true,
        key_window: false,
        miniaturized: false,
        zoomed: false,
        zoom_button_enabled: true,
        opaque: true,
        ignores_mouse_events: false,
        has_shadow: true,
        movable: true,
        level: 0,
        title: String::from("title"),
        presentation_options: 0,
        shared: SharedState {
            resizable,
            fullscreen: None,
            in_fullscreen_transition: false,
            target_fullscreen: None,
            maximized: false,
            has_standard_frame: false,
            is_simple_fullscreen: false,
            saved_style: None,
            save_presentation_opts: None,
            current_theme: None,
            option_as_alt: OptionAsAlt::Neither,
            decorations: true,
        },
        view: ViewState::new(true, OptionAsAlt::Neither, String::from("com.apple.keylayout.US")),
        cursor: Cursor::default(),
    }
}

fn mode(monitor: u32) -> VideoMode {
    VideoMode { width: 1920, height: 1080, bit_depth: 32, refresh_rate_millihertz: 60000, monitor }
}

#[test]
fn borderless_window_enters_fullscreen_with_temporary_style() {
    let mut w = window(NS_WINDOW_STYLE_MASK_BORDERLESS, false);
    let actions = w.set_fullscreen(Some(Fullscreen::Borderless(Some(2))), Some(1), 20);
    let required = NS_WINDOW_STYLE_MASK_TITLED | NS_WINDOW_STYLE_MASK_RESIZABLE;
    assert_eq!(
        actions,
        vec![
            WindowAction::MoveToDisplay(2),
            WindowAction::SetStyleMask(required),
            WindowAction::SetLevel(0),
            WindowAction::ToggleFullScreen,
        ]
    );
    assert_eq!(w.style_mask, required);
    assert_eq!(w.shared.saved_style, Some(NS_WINDOW_STYLE_MASK_BORDERLESS));
    assert_eq!(w.shared.fullscreen, Some(Fullscreen::Borderless(Some(2))));
}

#[test]
fn leaving_fullscreen_restores_the_saved_style() {
    let mut w = window(NS_WINDOW_STYLE_MASK_BORDERLESS, false);
    let _ = w.set_fullscreen(Some(Fullscreen::Borderless(None)), Some(1), 20);
    let actions = w.restore_state_from_fullscreen();
    assert_eq!(actions[0], WindowAction::SetStyleMask(NS_WINDOW_STYLE_MASK_BORDERLESS));
    assert_eq!(w.style_mask, NS_WINDOW_STYLE_MASK_BORDERLESS);
    assert_eq!(w.shared.fullscreen, None);
    assert_eq!(w.shared.saved_style, None);
}

#[test]
fn fullscreen_request_without_monitor_is_ignored() {
    let mut w = window(DECORATED, true);
    let actions = w.set_fullscreen(Some(Fullscreen::Borderless(None)), None, 20);
    assert!(actions.is_empty());
    assert_eq!(w.shared.fullscreen, None);
}

#[test]
fn same_fullscreen_request_does_nothing() {
    let mut w = window(DECORATED, true);
    let actions = w.set_fullscreen(None, Some(1), 20);
    assert!(actions.is_empty());
}

#[test]
fn fullscreen_request_during_transition_waits() {
    let mut w = window(DECORATED, true);
    w.shared.in_fullscreen_transition = true;
    let actions = w.set_fullscreen(Some(Fullscreen::Exclusive(mode(3))), Some(1), 20);
    assert!(actions.is_empty());
    assert_eq!(w.shared.target_fullscreen, Some(Some(Fullscreen::Exclusive(mode(3)))));
    assert_eq!(w.shared.fullscreen, None);
}

#[test]
fn borderless_to_exclusive_and_back() {
    let mut w = window(DECORATED, true);
    w.shared.fullscreen = Some(Fullscreen::Borderless(Some(3)));
    w.presentation_options = NS_PRESENTATION_AUTO_HIDE_DOCK;
    let actions = w.set_fullscreen(Some(Fullscreen::Exclusive(mode(3))), Some(1), 20);
    let exclusive = NS_PRESENTATION_FULL_SCREEN | NS_PRESENTATION_HIDE_DOCK | NS_PRESENTATION_HIDE_MENU_BAR;
    assert_eq!(
        actions,
        vec![
            WindowAction::MoveToDisplay(3),
            WindowAction::CaptureDisplay(mode(3)),
            WindowAction::SetPresentationOptions(exclusive),
            WindowAction::SetLevel(21),
        ]
    );
    assert_eq!(w.level, 21);
    assert_eq!(w.shared.save_presentation_opts, Some(NS_PRESENTATION_AUTO_HIDE_DOCK));
    let back = w.set_fullscreen(Some(Fullscreen::Borderless(Some(3))), Some(1), 20);
    assert_eq!(
        back,
        vec![
            WindowAction::MoveToDisplay(3),
            WindowAction::SetPresentationOptions(NS_PRESENTATION_AUTO_HIDE_DOCK),
            WindowAction::ReleaseDisplay(3),
            WindowAction::SetLevel(0),
        ]
    );
    assert_eq!(w.presentation_options, NS_PRESENTATION_AUTO_HIDE_DOCK);
    assert_eq!(w.level, 0);
}

#[test]
fn exclusive_to_borderless_without_saved_options_auto_hides() {
    let mut w = window(DECORATED, true);
    w.shared.fullscreen = Some(Fullscreen::Exclusive(mode(4)));
    let _ = w.set_fullscreen(Some(Fullscreen::Borderless(None)), Some(4), 20);
    assert_eq!(
        w.presentation_options,
        NS_PRESENTATION_FULL_SCREEN | NS_PRESENTATION_AUTO_HIDE_DOCK | NS_PRESENTATION_AUTO_HIDE_MENU_BAR
    );
}

#[test]
fn leaving_exclusive_fullscreen_releases_the_display() {
    let mut w = window(DECORATED, true);
    w.shared.fullscreen = Some(Fullscreen::Exclusive(mode(5)));
    let actions = w.set_fullscreen(None, Some(1), 20);
    assert_eq!(
        actions,
        vec![WindowAction::ReleaseDisplay(5), WindowAction::SetLevel(0), WindowAction::ToggleFullScreen]
    );
}

#[test]
fn simple_fullscreen_round_trip() {
    let mut w = window(DECORATED, true);
    w.presentation_options = NS_PRESENTATION_HIDE_DOCK;
    let (changed, actions) = w.set_simple_fullscreen(true);
    assert!(changed);
    let m1 = DECORATED & !NS_WINDOW_STYLE_MASK_TITLED;
    let m2 = m1 & !NS_WINDOW_STYLE_MASK_MINIATURIZABLE;
    let m3 = m2 & !NS_WINDOW_STYLE_MASK_RESIZABLE;
    assert_eq!(
        actions,
        vec![
            WindowAction::SaveContentRectAsStandardFrame,
            WindowAction::SetPresentationOptions(NS_PRESENTATION_AUTO_HIDE_DOCK | NS_PRESENTATION_AUTO_HIDE_MENU_BAR),
            WindowAction::SetStyleMask(m1),
            WindowAction::SetFrameToScreen,
            WindowAction::SetStyleMask(m2),
            WindowAction::SetStyleMask(m3),
            WindowAction::SetMovable(false),
        ]
    );
    assert!(w.simple_fullscreen());
    assert!(!w.movable);
    let (changed, actions) = w.set_simple_fullscreen(false);
    assert!(changed);
    assert_eq!(
        actions,
        vec![
            WindowAction::SetStyleMask(DECORATED),
            WindowAction::SetPresentationOptions(NS_PRESENTATION_HIDE_DOCK),
            WindowAction::SetFrameToStandardFrame,
            WindowAction::SetMovable(true),
        ]
    );
    assert_eq!(w.style_mask, DECORATED);
    assert_eq!(w.presentation_options, NS_PRESENTATION_HIDE_DOCK);
    assert!(w.movable);
    assert!(!w.simple_fullscreen());
}

#[test]
fn simple_fullscreen_refused_in_native_fullscreen() {
    let mut w = window(DECORATED, true);
    w.shared.fullscreen = Some(Fullscreen::Borderless(None));
    let (changed, actions) = w.set_simple_fullscreen(true);
    assert!(!changed);
    assert!(actions.is_empty());
    let mut w = window(DECORATED, true);
    let (changed, _) = w.set_simple_fullscreen(false);
    assert!(!changed);
}

#[test]
fn maximizing_a_resizable_window_zooms() {
    let mut w = window(DECORATED, true);
    let actions = w.set_maximized(true);
    assert_eq!(actions, vec![WindowAction::SaveStandardFrame, WindowAction::Zoom]);
    assert!(w.zoomed);
    assert!(w.shared.maximized);
    let again = w.set_maximized(true);
    assert!(again.is_empty());
}

#[test]
fn maximizing_a_fixed_size_borderless_window_uses_the_screen() {
    let mut w = window(NS_WINDOW_STYLE_MASK_BORDERLESS, false);
    let actions = w.set_maximized(true);
    let required = NS_WINDOW_STYLE_MASK_TITLED | NS_WINDOW_STYLE_MASK_RESIZABLE;
    assert_eq!(
        actions,
        vec![
            WindowAction::SetStyleMask(required),
            WindowAction::SetStyleMask(NS_WINDOW_STYLE_MASK_BORDERLESS),
            WindowAction::SaveStandardFrame,
            WindowAction::SetFrameToVisibleScreen,
        ]
    );
    assert!(w.zoomed);
}

#[test]
fn maximizing_in_fullscreen_only_records_the_wish() {
    let mut w = window(DECORATED, true);
    w.shared.fullscreen = Some(Fullscreen::Borderless(None));
    let actions = w.set_maximized(true);
    assert_eq!(actions, vec![WindowAction::SaveStandardFrame]);
    assert!(w.shared.maximized);
    assert!(!w.zoomed);
}

#[test]
fn minimizing_twice_acts_once() {
    let mut w = window(DECORATED, true);
    assert_eq!(w.set_minimized(true), vec![WindowAction::Miniaturize]);
    assert!(w.set_minimized(true).is_empty());
    assert_eq!(w.is_minimized(), Some(true));
    assert_eq!(w.set_minimized(false), vec![WindowAction::Deminiaturize]);
}

#[test]
fn decorations_off_and_on() {
    let mut w = window(DECORATED, true);
    let off = w.set_decorations(false);
    let borderless = NS_WINDOW_STYLE_MASK_BORDERLESS | NS_WINDOW_STYLE_MASK_RESIZABLE;
    assert_eq!(off, vec![WindowAction::SetStyleMask(borderless)]);
    assert!(!w.is_decorated());
    assert!(w.set_decorations(false).is_empty());
    let on = w.set_decorations(true);
    assert_eq!(on, vec![WindowAction::SetStyleMask(DECORATED)]);
}

#[test]
fn decorations_of_a_fixed_size_window_stay_unresizable() {
    let mut w = window(NS_WINDOW_STYLE_MASK_TITLED, false);
    let off = w.set_decorations(false);
    assert_eq!(off, vec![WindowAction::SetStyleMask(NS_WINDOW_STYLE_MASK_BORDERLESS)]);
}

#[test]
fn visibility_and_hit_testing() {
    let mut w = window(DECORATED, true);
    assert_eq!(w.set_visible(false), vec![WindowAction::OrderOut]);
    assert_eq!(w.is_visible(), Some(false));
    assert_eq!(w.set_visible(true), vec![WindowAction::MakeKeyAndOrderFront]);
    let (r, actions) = w.set_cursor_hittest(false);
    assert_eq!(r, Ok(()));
    assert_eq!(actions, vec![WindowAction::SetIgnoresMouseEvents(true)]);
    assert_eq!(w.request_redraw(), vec![WindowAction::QueueRedraw(WindowId(7))]);
    assert_eq!(
        w.drag_resize_window(ResizeDirection::East),
        Err(ExternalError::NotSupported(NotSupportedError))
    );
}

#[test]
fn cursor_visibility_changes_invalidate_once() {
    let mut w = window(DECORATED, true);
    assert!(w.set_cursor_visible(true).is_empty());
    assert_eq!(w.set_cursor_visible(false), vec![WindowAction::InvalidateCursorRects]);
    assert!(w.set_cursor_visible(false).is_empty());
}

#[test]
fn delegate_transition_applies_waiting_request() {
    let mut d = WindowDelegate::new(window(DECORATED, true), false, false);
    let probe = d.window_will_enter_fullscreen(Some(9));
    assert!(probe.is_empty());
    assert_eq!(d.window.shared.fullscreen, Some(Fullscreen::Borderless(Some(9))));
    assert!(d.window.shared.in_fullscreen_transition);
    let waiting = d.set_fullscreen(None, Some(9), 20);
    assert!(waiting.is_empty());
    let actions = d.window_did_enter_fullscreen(Some(9), 20);
    assert_eq!(actions, vec![WindowAction::SetLevel(0), WindowAction::ToggleFullScreen]);
    assert_eq!(d.window.shared.fullscreen, None);
    assert!(!d.window.shared.in_fullscreen_transition);
}

#[test]
fn delegate_retries_failed_initial_fullscreen() {
    let mut d = WindowDelegate::new(window(DECORATED, true), true, false);
    d.window.shared.in_fullscreen_transition = true;
    let actions = d.window_did_fail_to_enter_fullscreen();
    assert_eq!(actions, vec![WindowAction::ToggleFullScreenLater]);
    assert!(!d.window.shared.in_fullscreen_transition);
}

#[test]
fn delegate_borderless_game_hides_dock_and_menu_bar() {
    let mut d = WindowDelegate::new(window(DECORATED, true), false, true);
    let actions = d.set_fullscreen(Some(Fullscreen::Borderless(Some(1))), None, 20);
    assert_eq!(
        actions,
        vec![
            WindowAction::MoveToDisplay(1),
            WindowAction::SetPresentationOptions(NS_PRESENTATION_HIDE_DOCK | NS_PRESENTATION_HIDE_MENU_BAR),
            WindowAction::SetLevel(0),
            WindowAction::ToggleFullScreen,
        ]
    );
    assert_eq!(
        d.window_will_use_fullscreen_presentation_options(NS_PRESENTATION_AUTO_HIDE_DOCK),
        NS_PRESENTATION_AUTO_HIDE_DOCK
    );
}

#[test]
fn delegate_simple_fullscreen_restores_style_last() {
    let mut d = WindowDelegate::new(window(DECORATED, true), false, false);
    let (changed, _) = d.set_simple_fullscreen(true);
    assert!(changed);
    let (changed, actions) = d.set_simple_fullscreen(false);
    assert!(changed);
    assert_eq!(
        actions,
        vec![
            WindowAction::SetPresentationOptions(0),
            WindowAction::SetFrameToStandardFrame,
            WindowAction::SetMovable(true),
            WindowAction::SetStyleMask(DECORATED),
        ]
    );
}

#[test]
fn exclusive_fullscreen_presentation_is_forced() {
    let mut d = WindowDelegate::new(window(DECORATED, true), false, false);
    d.window.shared.fullscreen = Some(Fullscreen::Exclusive(mode(1)));
    assert_eq!(
        d.window_will_use_fullscreen_presentation_options(0),
        NS_PRESENTATION_FULL_SCREEN | NS_PRESENTATION_HIDE_DOCK | NS_PRESENTATION_HIDE_MENU_BAR
    );
}

#[test]
fn restoring_from_fullscreen_reapplies_maximization() {
    let mut w = window(NS_WINDOW_STYLE_MASK_BORDERLESS, false);
    w.shared.maximized = true;
    let _ = w.set_fullscreen(Some(Fullscreen::Borderless(Some(1))), None, 20);
    let actions = w.restore_state_from_fullscreen();
    let required = NS_WINDOW_STYLE_MASK_TITLED | NS_WINDOW_STYLE_MASK_RESIZABLE;
    assert_eq!(
        actions,
        vec![
            WindowAction::SetStyleMask(NS_WINDOW_STYLE_MASK_BORDERLESS),
            WindowAction::SetStyleMask(required),
            WindowAction::SetStyleMask(NS_WINDOW_STYLE_MASK_BORDERLESS),
            WindowAction::SaveStandardFrame,
            WindowAction::SetFrameToVisibleScreen,
        ]
    );
    assert!(w.zoomed);
}

#[test]
fn tabs() {
    assert_eq!(winit::window::num_tabs(None), 1);
    assert_eq!(winit::window::num_tabs(Some(3)), 3);
    assert_eq!(winit::window::select_tab_at_index(true, Some(3), 2), Some(2));
    assert_eq!(winit::window::select_tab_at_index(true, Some(3), 3), None);
    assert_eq!(winit::window::select_tab_at_index(false, Some(3), 0), None);
    assert_eq!(winit::window::select_tab_at_index(true, None, 0), None);
}

#[test]
fn setting_the_same_cursor_again_changes_nothing() {
    let mut w = window(DECORATED, true);
    let actions = w.set_cursor(Cursor::Native("IBeamCursor"));
    assert_eq!(
        actions,
        vec![WindowAction::SetCursor(Cursor::Native("IBeamCursor")), WindowAction::InvalidateCursorRects]
    );
    assert!(w.set_cursor(Cursor::Native("IBeamCursor")).is_empty());
    assert_eq!(w.cursor, Cursor::Native("IBeamCursor"));
    let mut d = WindowDelegate::new(window(DECORATED, true), false, false);
    assert!(d.set_cursor(Cursor::default()).is_empty());
    assert_eq!(d.set_cursor(Cursor::WebKit("move")).len(), 2);
}

#[test]
fn forbidding_ime_through_the_delegate_disables_it() {
    let mut d = WindowDelegate::new(window(DECORATED, true), false, false);
    assert!(d.set_ime_allowed(true).is_empty());
    assert!(d.window.view.ime_allowed);
    d.window.view.ime_state = ImeState::Preedit;
    d.window.view.has_marked_text = true;
    assert!(d.set_ime_allowed(true).is_empty());
    assert_eq!(d.window.view.ime_state, ImeState::Preedit);
    let events = d.set_ime_allowed(false);
    assert_eq!(events, vec![WindowEvent::Ime(Ime::Disabled)]);
    assert_eq!(d.window.view.ime_state, ImeState::Disabled);
    assert!(!d.window.view.has_marked_text);
    assert!(!d.window.view.ime_allowed);
    assert!(d.set_ime_allowed(false).is_empty());
}

fn attrs() -> WindowAttrsModel {
    WindowAttrsModel {
        title: String::from("hello"),
        resizable: true,
        decorations: true,
        maximized: false,
        visible: true,
        active: true,
        transparent: false,
        blur: false,
        content_protected: false,
        has_position: false,
        enabled_buttons: WindowButtons { close: true, minimize: true, maximize: true },
        window_level: WindowLevel::Normal,
        preferred_theme: None,
        fullscreen: None,
        cursor: Cursor::default(),
        platform_specific: PlatformSpecificWindowAttributes::default_attributes(),
    }
}

#[test]
fn creating_a_default_window() {
    let a = attrs();
    let (d, mask, actions) = WindowDelegate::create(
        &a,
        WindowId(3),
        false,
        Theme::Dark,
        0,
        String::from("com.apple.keylayout.US"),
        Some(1),
        20,
    );
    assert_eq!(mask, DECORATED);
    assert_eq!(
        actions,
        vec![
            WindowAction::Center,
            WindowAction::SetWantsBestResolution(true),
            WindowAction::SetLevel(0),
            WindowAction::QueueEvent(WindowEvent::Focused(false)),
            WindowAction::MakeKeyAndOrderFront,
        ]
    );
    assert_eq!(d.window.style_mask, DECORATED);
    assert_eq!(d.window.title, "hello");
    assert!(d.window.visible);
    assert!(d.window.is_decorated());
    assert!(d.window.shared.resizable);
    assert_eq!(d.window.theme(), Some(Theme::Dark));
    assert!(!d.initial_fullscreen);
    assert!(!d.window.view.ime_allowed);
}

#[test]
fn creating_an_undecorated_maximized_hidden_window() {
    let mut a = attrs();
    a.decorations = false;
    a.resizable = false;
    a.maximized = true;
    a.visible = false;
    a.blur = true;
    a.has_position = true;
    a.preferred_theme = Some(Theme::Light);
    a.cursor = Cursor::Native("IBeamCursor");
    a.window_level = WindowLevel::AlwaysOnTop;
    a.platform_specific.tabbing_identifier = Some(String::from("tabs"));
    a.platform_specific.has_shadow = false;
    let (d, mask, actions) = WindowDelegate::create(
        &a,
        WindowId(4),
        false,
        Theme::Dark,
        0,
        String::from("com.apple.keylayout.US"),
        None,
        20,
    );
    let borderless = NS_WINDOW_STYLE_MASK_BORDERLESS | NS_WINDOW_STYLE_MASK_MINIATURIZABLE;
    assert_eq!(mask, borderless);
    assert_eq!(
        actions,
        vec![
            WindowAction::SetTabbingIdentifier(String::from("tabs")),
            WindowAction::SetHasShadow(false),
            WindowAction::SetWantsBestResolution(true),
            WindowAction::SetAppearance(Theme::Light),
            WindowAction::SetBlur(true),
            WindowAction::SetLevel(3),
            WindowAction::SetCursor(Cursor::Native("IBeamCursor")),
            WindowAction::InvalidateCursorRects,
            WindowAction::QueueEvent(WindowEvent::Focused(false)),
            WindowAction::SetStyleMask(NS_WINDOW_STYLE_MASK_TITLED | NS_WINDOW_STYLE_MASK_RESIZABLE),
            WindowAction::SetStyleMask(borderless),
            WindowAction::SaveStandardFrame,
            WindowAction::SetFrameToVisibleScreen,
        ]
    );
    assert!(!d.window.visible);
    assert!(!d.window.is_decorated());
    assert!(d.window.zoomed);
    assert!(d.window.shared.maximized);
    assert_eq!(d.window.theme(), Some(Theme::Light));
    assert!(!d.window.has_shadow);
}

#[test]
fn creating_a_window_with_a_full_size_content_view_and_no_close_button() {
    let mut a = attrs();
    a.enabled_buttons = WindowButtons { close: false, minimize: true, maximize: false };
    a.platform_specific.fullsize_content_view = true;
    a.content_protected = true;
    a.transparent = true;
    let (w, actions) =
        new_window(&a, WindowId(5), false, Theme::Light, 0, String::from("com.apple.keylayout.US"));
    assert_eq!(
        w.style_mask,
        NS_WINDOW_STYLE_MASK_TITLED
            | NS_WINDOW_STYLE_MASK_MINIATURIZABLE
            | NS_WINDOW_STYLE_MASK_RESIZABLE
            | winit::appkit::NS_WINDOW_STYLE_MASK_FULL_SIZE_CONTENT_VIEW
    );
    assert_eq!(
        actions,
        vec![
            WindowAction::SetSharingType(winit::appkit::NSWindowSharingType::NSWindowSharingNone),
            WindowAction::SetZoomButtonEnabled(false),
            WindowAction::Center,
            WindowAction::SetWantsBestResolution(true),
            WindowAction::SetOpaque(false),
        ]
    );
    assert!(!w.opaque);
    assert!(!w.zoom_button_enabled);
}
