//! AppKit enumerations and bit masks, with the raw values that AppKit expects.
use vstd::prelude::*;

verus! {

/// How an application appears in the Dock and may be activated.
#[derive(Clone, Copy, Debug, PartialEq, Eq, Structural, Hash)]
pub enum NSApplicationActivationPolicy {
    NSApplicationActivationPolicyRegular,
    NSApplicationActivationPolicyAccessory,
    NSApplicationActivationPolicyProhibited,
    NSApplicationActivationPolicyERROR,
}

impl NSApplicationActivationPolicy {
    /// The `NSInteger` value of the policy.
    pub fn raw(self) -> (r: isize)
        ensures
            r == match self {
                NSApplicationActivationPolicy::NSApplicationActivationPolicyRegular => 0isize,
                NSApplicationActivationPolicy::NSApplicationActivationPolicyAccessory => 1,
                NSApplicationActivationPolicy::NSApplicationActivationPolicyProhibited => 2,
                NSApplicationActivationPolicy::NSApplicationActivationPolicyERROR => -1isize,
            },
    {
        match self {
            NSApplicationActivationPolicy::NSApplicationActivationPolicyRegular => 0,
            NSApplicationActivationPolicy::NSApplicationActivationPolicyAccessory => 1,
            NSApplicationActivationPolicy::NSApplicationActivationPolicyProhibited => 2,
            NSApplicationActivationPolicy::NSApplicationActivationPolicyERROR => -1isize,
        }
    }
}

/// How urgently an application asks for the user's attention.
#[derive(Clone, Copy, Debug, PartialEq, Eq, Structural, Hash)]
pub enum NSRequestUserAttentionType {
    NSCriticalRequest,
    NSInformationalRequest,
}

impl NSRequestUserAttentionType {
    /// The `NSUInteger` value of the request type.
    pub fn raw(self) -> (r: usize)
        ensures
            r == (if self == NSRequestUserAttentionType::NSCriticalRequest {
                0usize
            } else {
                10usize
            }),
    {
        match self {
            NSRequestUserAttentionType::NSCriticalRequest => 0,
            NSRequestUserAttentionType::NSInformationalRequest => 10,
        }
    }
}

/// Subtypes of application-defined events.
#[derive(Clone, Copy, Debug, PartialEq, Eq, Structural, Hash)]
pub enum NSEventSubtype {
    NSWindowExposedEventType,
    NSApplicationActivatedEventType,
    NSApplicationDeactivatedEventType,
    NSWindowMovedEventType,
    NSScreenChangedEventType,
    NSAWTEventType,
}

impl NSEventSubtype {
    /// The `short` value of the subtype.
    pub fn raw(self) -> (r: i16)
        ensures
            r == match self {
                NSEventSubtype::NSWindowExposedEventType => 0i16,
                NSEventSubtype::NSApplicationActivatedEventType => 1,
                NSEventSubtype::NSApplicationDeactivatedEventType => 2,
                NSEventSubtype::NSWindowMovedEventType => 4,
                NSEventSubtype::NSScreenChangedEventType => 8,
                NSEventSubtype::NSAWTEventType => 16,
            },
    {
        match self {
            NSEventSubtype::NSWindowExposedEventType => 0,
            NSEventSubtype::NSApplicationActivatedEventType => 1,
            NSEventSubtype::NSApplicationDeactivatedEventType => 2,
            NSEventSubtype::NSWindowMovedEventType => 4,
            NSEventSubtype::NSScreenChangedEventType => 8,
            NSEventSubtype::NSAWTEventType => 16,
        }
    }
}

/// The kinds of AppKit events.
#[derive(Clone, Copy, Debug, PartialEq, Eq, Structural, Hash)]
pub enum NSEventType {
    NSLeftMouseDown,
    NSLeftMouseUp,
    NSRightMouseDown,
    NSRightMouseUp,
    NSMouseMoved,
    NSLeftMouseDragged,
    NSRightMouseDragged,
    NSMouseEntered,
    NSMouseExited,
    NSKeyDown,
    NSKeyUp,
    NSFlagsChanged,
    NSAppKitDefined,
    NSSystemDefined,
    NSApplicationDefined,
    NSPeriodic,
    NSCursorUpdate,
    NSScrollWheel,
    NSTabletPoint,
    NSTabletProximity,
    NSOtherMouseDown,
    NSOtherMouseUp,
    NSOtherMouseDragged,
    NSEventTypeGesture,
    NSEventTypeMagnify,
    NSEventTypeSwipe,
    NSEventTypeRotate,
    NSEventTypeBeginGesture,
    NSEventTypeEndGesture,
    NSEventTypePressure,
}

/// The `NSUInteger` value of an event type.
pub open spec fn event_type_value(t: NSEventType) -> usize {
    match t {
        NSEventType::NSLeftMouseDown => 1,
        NSEventType::NSLeftMouseUp => 2,
        NSEventType::NSRightMouseDown => 3,
        NSEventType::NSRightMouseUp => 4,
        NSEventType::NSMouseMoved => 5,
        NSEventType::NSLeftMouseDragged => 6,
        NSEventType::NSRightMouseDragged => 7,
        NSEventType::NSMouseEntered => 8,
        NSEventType::NSMouseExited => 9,
        NSEventType::NSKeyDown => 10,
        NSEventType::NSKeyUp => 11,
        NSEventType::NSFlagsChanged => 12,
        NSEventType::NSAppKitDefined => 13,
        NSEventType::NSSystemDefined => 14,
        NSEventType::NSApplicationDefined => 15,
        NSEventType::NSPeriodic => 16,
        NSEventType::NSCursorUpdate => 17,
        NSEventType::NSScrollWheel => 22,
        NSEventType::NSTabletPoint => 23,
        NSEventType::NSTabletProximity => 24,
        NSEventType::NSOtherMouseDown => 25,
        NSEventType::NSOtherMouseUp => 26,
        NSEventType::NSOtherMouseDragged => 27,
        NSEventType::NSEventTypeGesture => 29,
        NSEventType::NSEventTypeMagnify => 30,
        NSEventType::NSEventTypeSwipe => 31,
        NSEventType::NSEventTypeRotate => 18,
        NSEventType::NSEventTypeBeginGesture => 19,
        NSEventType::NSEventTypeEndGesture => 20,
        NSEventType::NSEventTypePressure => 34,
    }
}

impl NSEventType {
    /// The `NSUInteger` value of the event type.
    pub fn raw(self) -> (r: usize)
        ensures
            r == event_type_value(self),
    {
        match self {
            NSEventType::NSLeftMouseDown => 1,
            NSEventType::NSLeftMouseUp => 2,
            NSEventType::NSRightMouseDown => 3,
            NSEventType::NSRightMouseUp => 4,
            NSEventType::NSMouseMoved => 5,
            NSEventType::NSLeftMouseDragged => 6,
            NSEventType::NSRightMouseDragged => 7,
            NSEventType::NSMouseEntered => 8,
            NSEventType::NSMouseExited => 9,
            NSEventType::NSKeyDown => 10,
            NSEventType::NSKeyUp => 11,
            NSEventType::NSFlagsChanged => 12,
            NSEventType::NSAppKitDefined => 13,
            NSEventType::NSSystemDefined => 14,
            NSEventType::NSApplicationDefined => 15,
            NSEventType::NSPeriodic => 16,
            NSEventType::NSCursorUpdate => 17,
            NSEventType::NSScrollWheel => 22,
            NSEventType::NSTabletPoint => 23,
            NSEventType::NSTabletProximity => 24,
            NSEventType::NSOtherMouseDown => 25,
            NSEventType::NSOtherMouseUp => 26,
            NSEventType::NSOtherMouseDragged => 27,
            NSEventType::NSEventTypeGesture => 29,
            NSEventType::NSEventTypeMagnify => 30,
            NSEventType::NSEventTypeSwipe => 31,
            NSEventType::NSEventTypeRotate => 18,
            NSEventType::NSEventTypeBeginGesture => 19,
            NSEventType::NSEventTypeEndGesture => 20,
            NSEventType::NSEventTypePressure => 34,
        }
    }
}

/// Whether a window shows its title.
#[derive(Clone, Copy, Debug, PartialEq, Eq, Structural, Hash)]
pub enum NSWindowTitleVisibility {
    Visible,
    Hidden,
}

/// The standard buttons of a window's title bar.
#[derive(Clone, Copy, Debug, PartialEq, Eq, Structural, Hash)]
pub enum NSWindowButton {
    Close,
    Miniaturize,
    Zoom,
    Toolbar,
    DocumentIcon,
    DocumentVersions,
    FullScreen,
}

impl NSWindowButton {
    /// The `NSUInteger` value of the button.
    pub fn raw(self) -> (r: usize)
        ensures
            r == match self {
                NSWindowButton::Close => 0usize,
                NSWindowButton::Miniaturize => 1,
                NSWindowButton::Zoom => 2,
                NSWindowButton::Toolbar => 3,
                NSWindowButton::DocumentIcon => 4,
                NSWindowButton::DocumentVersions => 6,
                NSWindowButton::FullScreen => 7,
            },
    {
        match self {
            NSWindowButton::Close => 0,
            NSWindowButton::Miniaturize => 1,
            NSWindowButton::Zoom => 2,
            NSWindowButton::Toolbar => 3,
            NSWindowButton::DocumentIcon => 4,
            NSWindowButton::DocumentVersions => 6,
            NSWindowButton::FullScreen => 7,
        }
    }
}

/// How a window's contents are buffered.
#[derive(Clone, Copy, Debug, PartialEq, Eq, Structural, Hash)]
pub enum NSBackingStoreType {
    NSBackingStoreRetained,
    NSBackingStoreNonretained,
    NSBackingStoreBuffered,
}

/// Whether other processes may read a window's contents.
#[derive(Clone, Copy, Debug, PartialEq, Eq, Structural, Hash)]
pub enum NSWindowSharingType {
    NSWindowSharingNone,
    NSWindowSharingReadOnly,
    NSWindowSharingReadWrite,
}

/// Where a child window is ordered relative to its parent.
#[derive(Clone, Copy, Debug, PartialEq, Eq, Structural, Hash)]
pub enum NSWindowOrderingMode {
    NSWindowAbove,
    NSWindowBelow,
    NSWindowOut,
}

/// Whether a window joins tabs.
#[derive(Clone, Copy, Debug, PartialEq, Eq, Structural, Hash)]
pub enum NSWindowTabbingMode {
    NSWindowTabbingModeAutomatic,
    NSWindowTabbingModeDisallowed,
    NSWindowTabbingModePreferred,
}

/// `NSWindowStyleMask` bits.
pub const NS_WINDOW_STYLE_MASK_BORDERLESS: usize = 0;
pub const NS_WINDOW_STYLE_MASK_TITLED: usize = 0x1;
pub const NS_WINDOW_STYLE_MASK_CLOSABLE: usize = 0x2;
pub const NS_WINDOW_STYLE_MASK_MINIATURIZABLE: usize = 0x4;
pub const NS_WINDOW_STYLE_MASK_RESIZABLE: usize = 0x8;
pub const NS_WINDOW_STYLE_MASK_FULL_SCREEN: usize = 0x4000;
pub const NS_WINDOW_STYLE_MASK_FULL_SIZE_CONTENT_VIEW: usize = 0x8000;

/// `NSApplicationPresentationOptions` bits.
pub const NS_PRESENTATION_DEFAULT: usize = 0;
pub const NS_PRESENTATION_AUTO_HIDE_DOCK: usize = 0x1;
pub const NS_PRESENTATION_HIDE_DOCK: usize = 0x2;
pub const NS_PRESENTATION_AUTO_HIDE_MENU_BAR: usize = 0x4;
pub const NS_PRESENTATION_HIDE_MENU_BAR: usize = 0x8;
pub const NS_PRESENTATION_FULL_SCREEN: usize = 0x400;

/// Window levels (`CGWindowLevel.h`).
pub const K_CG_NORMAL_WINDOW_LEVEL: isize = 0;
pub const K_CG_FLOATING_WINDOW_LEVEL: isize = 3;

} // verus!
