use std::sync::mpsc;

use winit::app::{maybe_dispatch_device_event, send_event_route, DeviceEventKind, SendEventRoute};
use winit::appkit::NSEventType;
use winit::channel::PeekableReceiver;
use winit::cursor::{Cursor, CursorIcon};
use winit::event::{ElementState, WindowEvent, NS_FLAG_COMMAND, NS_FLAG_OPTION, NS_FLAG_SHIFT};
use winit::menu::{initialize, key_equivalent_parts, KeyEquivalent, MenuAction, MenuEntry};
use winit::monitor::{
    monitor_refresh_rate_millihertz, pixel_encoding_bit_depth, refresh_rate_millihertz_from_period,
    str_eq_ignore_ascii_case, video_mode_from_info, video_modes, CVTime, DisplayModeInfo, VideoMode,
};
use winit::platform::WindowId;
use winit::util::{
    has_flag, CFRange, CFUUIDBytes, CGDisplay, IntoOption, NSTrackingAreaOptions, ObjectRef,
    NS_TRACKING_ACTIVE_ALWAYS, NS_TRACKING_ACTIVE_IN_KEY_WINDOW, NS_TRACKING_ASSUME_INSIDE,
    NS_TRACKING_CURSOR_UPDATE, NS_TRACKING_MOUSE_ENTERED_AND_EXITED, NS_TRACKING_MOUSE_MOVED,
};
use winit::window::Theme;
use winit::window_delegate::theme_of_best_match;

#[test]
fn tracking_area_options_validity() {
    let valid = NSTrackingAreaOptions {
        bits: NS_TRACKING_MOUSE_ENTERED_AND_EXITED | NS_TRACKING_MOUSE_MOVED | NS_TRACKING_ACTIVE_ALWAYS,
    };
    assert!(valid.are_valid());
    let with_extra = NSTrackingAreaOptions {
        bits: NS_TRACKING_CURSOR_UPDATE | NS_TRACKING_ACTIVE_IN_KEY_WINDOW | NS_TRACKING_ASSUME_INSIDE,
    };
    assert!(with_extra.are_valid());
    let no_type = NSTrackingAreaOptions { bits: NS_TRACKING_ACTIVE_ALWAYS };
    assert!(!no_type.are_valid());
    let two_active = NSTrackingAreaOptions {
        bits: NS_TRACKING_MOUSE_MOVED | NS_TRACKING_ACTIVE_ALWAYS | NS_TRACKING_ACTIVE_IN_KEY_WINDOW,
    };
    assert!(!two_active.are_valid());
    let no_active = NSTrackingAreaOptions { bits: NS_TRACKING_MOUSE_MOVED };
    assert!(!no_active.are_valid());
}

#[test]
fn flags_and_plain_data() {
    assert!(has_flag(0b1011, 0b0011));
    assert!(!has_flag(0b1001, 0b0011));
    assert!(has_flag(5, 0));
    let range = CFRange::init(3, 4);
    assert_eq!((range.location, range.length), (3, 4));
    assert_eq!(CGDisplay::new(9).id, 9);
    let bytes = CFUUIDBytes { byte0: 1, byte15: 16, ..CFUUIDBytes::default() };
    let array = bytes.to_array();
    assert_eq!(array[0], 1);
    assert_eq!(array[15], 16);
    assert_eq!(array[7], 0);
    assert_eq!(ObjectRef(0).into_option(), None);
    assert_eq!(ObjectRef(42).into_option(), Some(ObjectRef(42)));
}

#[test]
fn pixel_encodings() {
    assert_eq!(pixel_encoding_bit_depth("--------RRRRRRRRGGGGGGGGBBBBBBBB"), Some(32));
    assert_eq!(pixel_encoding_bit_depth("--------rrrrrrrrggggggggbbbbbbbb"), Some(32));
    assert_eq!(pixel_encoding_bit_depth("-RRRRRGGGGGBBBBB"), Some(16));
    assert_eq!(pixel_encoding_bit_depth("--RRRRRRRRRRGGGGGGGGGGBBBBBBBBBB"), Some(30));
    assert_eq!(pixel_encoding_bit_depth("IIIIIIII"), None);
    assert!(str_eq_ignore_ascii_case("Straße", "STRAßE"));
    assert!(!str_eq_ignore_ascii_case("abc", "abd"));
    assert!(!str_eq_ignore_ascii_case("abc", "ab"));
}

#[test]
fn refresh_rates() {
    assert_eq!(refresh_rate_millihertz_from_period(1, 60, 0), Some(60_000));
    assert_eq!(refresh_rate_millihertz_from_period(1001, 60000, 0), Some(59_000));
    assert_eq!(refresh_rate_millihertz_from_period(0, 60, 0), None);
    assert_eq!(refresh_rate_millihertz_from_period(1, 60, 1), None);
    let link = CVTime { time_value: 1, time_scale: 120, flags: 0 };
    assert_eq!(monitor_refresh_rate_millihertz(Some(59_940), Some(link)), Some(59_940));
    assert_eq!(monitor_refresh_rate_millihertz(None, Some(link)), Some(120_000));
    assert_eq!(monitor_refresh_rate_millihertz(None, None), None);
}

#[test]
fn video_modes_of_display_modes() {
    let modes = vec![
        DisplayModeInfo {
            pixel_width: 2560,
            pixel_height: 1600,
            refresh_rate_millihertz: None,
            pixel_encoding: String::from("--------RRRRRRRRGGGGGGGGBBBBBBBB"),
        },
        DisplayModeInfo {
            pixel_width: 1280,
            pixel_height: 800,
            refresh_rate_millihertz: Some(75_000),
            pixel_encoding: String::from("-RRRRRGGGGGBBBBB"),
        },
    ];
    let result = video_modes(&modes, Some(60_000), 5).unwrap();
    assert_eq!(
        result,
        vec![
            VideoMode { width: 2560, height: 1600, bit_depth: 32, refresh_rate_millihertz: 60_000, monitor: 5 },
            VideoMode { width: 1280, height: 800, bit_depth: 16, refresh_rate_millihertz: 75_000, monitor: 5 },
        ]
    );
    assert_eq!(video_mode_from_info(&modes[0], None, 5).unwrap().refresh_rate_millihertz, 0);
    let unknown = vec![DisplayModeInfo {
        pixel_width: 1,
        pixel_height: 1,
        refresh_rate_millihertz: None,
        pixel_encoding: String::from("YUV"),
    }];
    assert_eq!(video_modes(&unknown, None, 5), None);
}

#[test]
fn application_menu() {
    let menu = initialize("Demo");
    assert_eq!(menu.len(), 7);
    assert_eq!(
        menu[0],
        MenuEntry::Item {
            title: String::from("About Demo"),
            action: MenuAction::OrderFrontStandardAboutPanel,
            key_equivalent: None,
        }
    );
    assert_eq!(menu[1], MenuEntry::Separator);
    assert_eq!(
        menu[2],
        MenuEntry::Item {
            title: String::from("Hide Demo"),
            action: MenuAction::Hide,
            key_equivalent: Some(KeyEquivalent { key: "h", masks: None }),
        }
    );
    assert_eq!(
        menu[3],
        MenuEntry::Item {
            title: String::from("Hide Others"),
            action: MenuAction::HideOtherApplications,
            key_equivalent: Some(KeyEquivalent { key: "h", masks: Some(NS_FLAG_OPTION | NS_FLAG_COMMAND) }),
        }
    );
    assert_eq!(
        menu[6],
        MenuEntry::Item {
            title: String::from("Quit Demo"),
            action: MenuAction::Terminate,
            key_equivalent: Some(KeyEquivalent { key: "q", masks: None }),
        }
    );
    assert_eq!(MenuAction::Terminate.selector_name(), "terminate:");
    assert_eq!(key_equivalent_parts(None), ("", None));
    assert_eq!(key_equivalent_parts(Some(KeyEquivalent { key: "q", masks: Some(1) })), ("q", Some(1)));
}

#[test]
fn peekable_receiver_returns_held_value_first() {
    let (sender, receiver) = mpsc::channel::<u32>();
    let mut peekable = PeekableReceiver::from_recv(receiver);
    assert_eq!(peekable.try_recv(), Err(mpsc::TryRecvError::Empty));
    sender.send(4).unwrap();
    sender.send(5).unwrap();
    assert_eq!(peekable.try_recv(), Ok(4));
    assert_eq!(peekable.try_recv(), Ok(5));
    drop(sender);
    assert_eq!(peekable.try_recv(), Err(mpsc::TryRecvError::Disconnected));
}

#[test]
fn send_event_routes() {
    assert_eq!(send_event_route(NSEventType::NSKeyUp, NS_FLAG_COMMAND), SendEventRoute::KeyWindow);
    assert_eq!(
        send_event_route(NSEventType::NSKeyUp, NS_FLAG_SHIFT),
        SendEventRoute::DeviceEventsThenAppKit
    );
    assert_eq!(
        send_event_route(NSEventType::NSKeyDown, NS_FLAG_COMMAND),
        SendEventRoute::DeviceEventsThenAppKit
    );
}

#[test]
fn device_events_of_mouse_events() {
    assert_eq!(
        maybe_dispatch_device_event(NSEventType::NSMouseMoved, true, false, 0),
        vec![DeviceEventKind::Motion { axis: 0 }, DeviceEventKind::MouseMotion]
    );
    assert_eq!(
        maybe_dispatch_device_event(NSEventType::NSRightMouseDragged, true, true, 0),
        vec![
            DeviceEventKind::Motion { axis: 0 },
            DeviceEventKind::Motion { axis: 1 },
            DeviceEventKind::MouseMotion
        ]
    );
    assert!(maybe_dispatch_device_event(NSEventType::NSMouseMoved, false, false, 0).is_empty());
    assert_eq!(
        maybe_dispatch_device_event(NSEventType::NSOtherMouseDown, false, false, 3),
        vec![DeviceEventKind::Button { button: 3, state: ElementState::Pressed }]
    );
    assert_eq!(
        maybe_dispatch_device_event(NSEventType::NSLeftMouseUp, false, false, 0),
        vec![DeviceEventKind::Button { button: 0, state: ElementState::Released }]
    );
    assert!(maybe_dispatch_device_event(NSEventType::NSKeyDown, true, true, 0).is_empty());
}

#[test]
fn cursors_of_icons() {
    assert_eq!(Cursor::from(CursorIcon::Default), Cursor::Native("arrowCursor"));
    assert_eq!(Cursor::from(CursorIcon::Help), Cursor::Undocumented("_helpCursor"));
    assert_eq!(Cursor::from(CursorIcon::Cell), Cursor::WebKit("cell"));
    assert_eq!(Cursor::default(), Cursor::Native("arrowCursor"));
}

#[test]
fn themes_and_window_ids() {
    assert_eq!(theme_of_best_match(Some(true)), Theme::Dark);
    assert_eq!(theme_of_best_match(Some(false)), Theme::Light);
    assert_eq!(theme_of_best_match(None), Theme::Light);
    let id = WindowId(0xdead_beef);
    assert_eq!(WindowId::from_u64(id.to_u64()), id);
    let _ = WindowEvent::Focused(true);
}
