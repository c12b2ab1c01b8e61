//! A window and the decisions about its native `NSWindow`: style mask, decorations,
//! resizability, maximisation, minimisation, fullscreen modes, cursor and visibility.
//!
//! [`WinitWindow`] holds, as plain values, what the logic reads of the native window, and
//! each operation returns the [`WindowAction`]s to apply to it, in order.
use vstd::prelude::*;

use crate::appkit::{
    NSRequestUserAttentionType, NSWindowSharingType, K_CG_FLOATING_WINDOW_LEVEL,
    K_CG_NORMAL_WINDOW_LEVEL, NS_PRESENTATION_AUTO_HIDE_DOCK, NS_PRESENTATION_AUTO_HIDE_MENU_BAR,
    NS_PRESENTATION_FULL_SCREEN, NS_PRESENTATION_HIDE_DOCK, NS_PRESENTATION_HIDE_MENU_BAR,
    NS_WINDOW_STYLE_MASK_BORDERLESS, NS_WINDOW_STYLE_MASK_CLOSABLE,
    NS_WINDOW_STYLE_MASK_FULL_SIZE_CONTENT_VIEW, NS_WINDOW_STYLE_MASK_MINIATURIZABLE,
    NS_WINDOW_STYLE_MASK_RESIZABLE, NS_WINDOW_STYLE_MASK_TITLED,
};
use crate::cursor::{same_cursor, Cursor};
use crate::event::WindowEvent;
use crate::monitor::VideoMode;
use crate::platform::WindowId;
use crate::view::{ime_allowed_set, initial_view, ImeState, OptionAsAlt, ViewState};

verus! {

/// The light or dark appearance of a window.
#[derive(Clone, Copy, Debug, PartialEq, Eq, Structural, Hash)]
pub enum Theme {
    Light,
    Dark,
}

/// The stacking level of a window.
#[derive(Clone, Copy, Debug, PartialEq, Eq, Structural, Hash)]
pub enum WindowLevel {
    AlwaysOnBottom,
    Normal,
    AlwaysOnTop,
}

/// How urgently a window asks for attention.
#[derive(Clone, Copy, Debug, PartialEq, Eq, Structural, Hash)]
pub enum UserAttentionType {
    Critical,
    Informational,
}

/// How the cursor is confined to a window.
#[derive(Clone, Copy, Debug, PartialEq, Eq, Structural, Hash)]
pub enum CursorGrabMode {
    NoGrab,
    Confined,
    Locked,
}

/// Which edge or corner of a window a resize drags.
#[derive(Clone, Copy, Debug, PartialEq, Eq, Structural, Hash)]
pub enum ResizeDirection {
    East,
    North,
    NorthEast,
    NorthWest,
    South,
    SouthEast,
    SouthWest,
    West,
}

/// What kind of text an input method is asked for.
#[derive(Clone, Copy, Debug, PartialEq, Eq, Structural, Hash)]
pub enum ImePurpose {
    Normal,
    Password,
    Terminal,
}

/// A fullscreen mode: borderless on a monitor (the current one if none is named), or
/// exclusive with a video mode.
#[derive(Clone, Copy, Debug, PartialEq, Eq, Structural, Hash)]
pub enum Fullscreen {
    Borderless(Option<u32>),
    Exclusive(VideoMode),
}

/// The operation is not supported on this platform.
#[derive(Clone, Copy, Debug, PartialEq, Eq, Structural)]
pub struct NotSupportedError;

/// A platform error: a Core Graphics error code, or why a window could not be created.
#[derive(Clone, Copy, Debug, PartialEq, Eq)]
pub enum OsError {
    CGError(i32),
    CreationError(&'static str),
}

/// The error of an operation on a window.
#[derive(Clone, Copy, Debug, PartialEq, Eq)]
pub enum ExternalError {
    NotSupported(NotSupportedError),
    Os(OsError),
}

/// The title-bar buttons that are enabled.
#[derive(Clone, Copy, Debug, PartialEq, Eq, Structural, Hash)]
pub struct WindowButtons {
    pub close: bool,
    pub minimize: bool,
    pub maximize: bool,
}

/// The macOS-specific attributes of a new window.
#[derive(Clone, Debug)]
pub struct PlatformSpecificWindowBuilderAttributes {
    pub movable_by_window_background: bool,
    pub titlebar_transparent: bool,
    pub title_hidden: bool,
    pub titlebar_hidden: bool,
    pub titlebar_buttons_hidden: bool,
    pub fullsize_content_view: bool,
    pub disallow_hidpi: bool,
    pub has_shadow: bool,
    pub accepts_first_mouse: bool,
    pub tabbing_identifier: Option<String>,
    pub option_as_alt: OptionAsAlt,
}

impl PlatformSpecificWindowBuilderAttributes {
    /// The defaults: a shadow, clicks that activate the window also go to it, and
    /// everything else off.
    pub fn default_attributes() -> (r: PlatformSpecificWindowBuilderAttributes)
        ensures
            !r.movable_by_window_background && !r.titlebar_transparent && !r.title_hidden
                && !r.titlebar_hidden && !r.titlebar_buttons_hidden && !r.fullsize_content_view
                && !r.disallow_hidpi,
            r.has_shadow && r.accepts_first_mouse,
            r.tabbing_identifier is None,
            r.option_as_alt == OptionAsAlt::Neither,
    {
        PlatformSpecificWindowBuilderAttributes {
            movable_by_window_background: false,
            titlebar_transparent: false,
            title_hidden: false,
            titlebar_hidden: false,
            titlebar_buttons_hidden: false,
            fullsize_content_view: false,
            disallow_hidpi: false,
            has_shadow: true,
            accepts_first_mouse: true,
            tabbing_identifier: None,
            option_as_alt: OptionAsAlt::Neither,
        }
    }
}

/// The macOS-specific attributes of a new window, with the option to behave like a
/// borderless game window.
#[derive(Clone, Debug)]
pub struct PlatformSpecificWindowAttributes {
    pub movable_by_window_background: bool,
    pub titlebar_transparent: bool,
    pub title_hidden: bool,
    pub titlebar_hidden: bool,
    pub titlebar_buttons_hidden: bool,
    pub fullsize_content_view: bool,
    pub disallow_hidpi: bool,
    pub has_shadow: bool,
    pub accepts_first_mouse: bool,
    pub tabbing_identifier: Option<String>,
    pub option_as_alt: OptionAsAlt,
    pub borderless_game: bool,
}

impl PlatformSpecificWindowAttributes {
    /// The defaults: a shadow, clicks that activate the window also go to it, and
    /// everything else off.
    pub fn default_attributes() -> (r: PlatformSpecificWindowAttributes)
        ensures
            !r.movable_by_window_background && !r.titlebar_transparent && !r.title_hidden
                && !r.titlebar_hidden && !r.titlebar_buttons_hidden && !r.fullsize_content_view
                && !r.disallow_hidpi && !r.borderless_game,
            r.has_shadow && r.accepts_first_mouse,
            r.tabbing_identifier is None,
            r.option_as_alt == OptionAsAlt::Neither,
    {
        PlatformSpecificWindowAttributes {
            movable_by_window_background: false,
            titlebar_transparent: false,
            title_hidden: false,
            titlebar_hidden: false,
            titlebar_buttons_hidden: false,
            fullsize_content_view: false,
            disallow_hidpi: false,
            has_shadow: true,
            accepts_first_mouse: true,
            tabbing_identifier: None,
            option_as_alt: OptionAsAlt::Neither,
            borderless_game: false,
        }
    }
}

/// Whether a style mask has all bits of `value`.
pub open spec fn mask_has(mask: usize, value: usize) -> bool {
    mask & value == value
}

/// Whether a style mask has all bits of `value`.
pub fn mask_contains(mask: usize, value: usize) -> (r: bool)
    ensures
        r == mask_has(mask, value),
{
    mask & value == value
}

/// The style mask of a new window.
///
/// A window without decorations (and not created fullscreen) or with a hidden title bar is
/// borderless, resizable and miniaturizable; otherwise it is titled, closable,
/// miniaturizable and resizable. Resizability and the minimise and close buttons are then
/// removed as asked, and a full-size content view added.
pub open spec fn initial_style_mask(
    decorations: bool,
    has_screen: bool,
    titlebar_hidden: bool,
    resizable: bool,
    buttons: WindowButtons,
    fullsize_content_view: bool,
) -> usize {
    let base = if (!decorations && !has_screen) || titlebar_hidden {
        NS_WINDOW_STYLE_MASK_BORDERLESS | NS_WINDOW_STYLE_MASK_RESIZABLE
            | NS_WINDOW_STYLE_MASK_MINIATURIZABLE
    } else {
        NS_WINDOW_STYLE_MASK_CLOSABLE | NS_WINDOW_STYLE_MASK_MINIATURIZABLE
            | NS_WINDOW_STYLE_MASK_RESIZABLE | NS_WINDOW_STYLE_MASK_TITLED
    };
    let m1 = if !resizable { base & !NS_WINDOW_STYLE_MASK_RESIZABLE } else { base };
    let m2 = if !buttons.minimize { m1 & !NS_WINDOW_STYLE_MASK_MINIATURIZABLE } else { m1 };
    let m3 = if !buttons.close { m2 & !NS_WINDOW_STYLE_MASK_CLOSABLE } else { m2 };
    if fullsize_content_view {
        m3 | NS_WINDOW_STYLE_MASK_FULL_SIZE_CONTENT_VIEW
    } else {
        m3
    }
}

/// The bits of a style mask built from a title-bar choice and the button, resizability
/// and content-view settings.
proof fn lemma_style_bits(titled: bool, close: bool, minimize: bool, resizable: bool, fullsize: bool)
    by (bit_vector)
    ensures
        ({
            let base: usize = if !titled {
                0usize | 8usize | 4usize
            } else {
                2usize | 4usize | 8usize | 1usize
            };
            let m1: usize = if !resizable { base & !8usize } else { base };
            let m2: usize = if !minimize { m1 & !4usize } else { m1 };
            let m3: usize = if !close { m2 & !2usize } else { m2 };
            let m: usize = if fullsize { m3 | 0x8000usize } else { m3 };
            &&& (m & 1usize == 1usize) == titled
            &&& (m & 2usize == 2usize) == (titled && close)
            &&& (m & 4usize == 4usize) == minimize
            &&& (m & 8usize == 8usize) == resizable
            &&& (m & 0x8000usize == 0x8000usize) == fullsize
            &&& m & !(1usize | 2usize | 4usize | 8usize | 0x8000usize) == 0
        }),
{
}

/// What the style mask of a new window holds: it is titled unless it has no decorations
/// (and is not created fullscreen on a screen) or its title bar is hidden; it has a close
/// button only when titled and the close button is enabled; it is miniaturizable exactly
/// when the minimise button is enabled, resizable exactly when asked, has a full-size
/// content view exactly when asked, and has no other bit.
pub proof fn lemma_initial_style_mask_bits(
    decorations: bool,
    has_screen: bool,
    titlebar_hidden: bool,
    resizable: bool,
    buttons: WindowButtons,
    fullsize_content_view: bool,
)
    ensures
        ({
            let m = initial_style_mask(
                decorations,
                has_screen,
                titlebar_hidden,
                resizable,
                buttons,
                fullsize_content_view,
            );
            let titled = (decorations || has_screen) && !titlebar_hidden;
            &&& mask_has(m, NS_WINDOW_STYLE_MASK_TITLED) == titled
            &&& mask_has(m, NS_WINDOW_STYLE_MASK_CLOSABLE) == (titled && buttons.close)
            &&& mask_has(m, NS_WINDOW_STYLE_MASK_MINIATURIZABLE) == buttons.minimize
            &&& mask_has(m, NS_WINDOW_STYLE_MASK_RESIZABLE) == resizable
            &&& mask_has(m, NS_WINDOW_STYLE_MASK_FULL_SIZE_CONTENT_VIEW) == fullsize_content_view
            &&& m & !(NS_WINDOW_STYLE_MASK_TITLED | NS_WINDOW_STYLE_MASK_CLOSABLE
                | NS_WINDOW_STYLE_MASK_MINIATURIZABLE | NS_WINDOW_STYLE_MASK_RESIZABLE
                | NS_WINDOW_STYLE_MASK_FULL_SIZE_CONTENT_VIEW) == 0
        }),
{
    let titled = (decorations || has_screen) && !titlebar_hidden;
    lemma_style_bits(titled, buttons.close, buttons.minimize, resizable, fullsize_content_view);
}

/// The native levels of the window levels: always on top is Core Graphics' floating level
/// (3), normal its normal level (0), always at the bottom one below normal (-1).
pub proof fn lemma_level_value()
    ensures
        level_value(WindowLevel::AlwaysOnTop) == 3,
        level_value(WindowLevel::Normal) == 0,
        level_value(WindowLevel::AlwaysOnBottom) == -1,
{
}

/// What a newly created window is: hidden, not key, not minimised or zoomed, at the normal
/// level, with the arrow cursor, not fullscreen and with nothing saved; its title, opacity,
/// shadow, zoom button, resizability, decorations, maximised wish and Option-as-Alt setting
/// are those of the attributes; its theme is the preferred one, else the system's; its
/// content view allows no IME yet; and its style mask has the bits that
/// [`lemma_initial_style_mask_bits`] describes.
pub proof fn lemma_created_window(
    attrs: WindowAttrsModel,
    id: WindowId,
    has_screen: bool,
    system_theme: Theme,
    presentation_options: usize,
    input_source: String,
)
    ensures
        ({
            let w = created_window(attrs, id, has_screen, system_theme, presentation_options, input_source);
            let titled = (attrs.decorations || (attrs.fullscreen is Some && has_screen))
                && !attrs.platform_specific.titlebar_hidden;
            &&& w.id == id
            &&& !w.visible && !w.key_window && !w.miniaturized && !w.zoomed
            &&& w.level == 0
            &&& w.cursor == Cursor::Native("arrowCursor")
            &&& w.title == attrs.title
            &&& w.opaque == !attrs.transparent
            &&& w.has_shadow == attrs.platform_specific.has_shadow
            &&& w.zoom_button_enabled == attrs.enabled_buttons.maximize
            &&& !w.ignores_mouse_events && w.movable
            &&& w.presentation_options == presentation_options
            &&& w.shared.resizable == attrs.resizable
            &&& w.shared.decorations == attrs.decorations
            &&& w.shared.maximized == attrs.maximized
            &&& w.shared.option_as_alt == attrs.platform_specific.option_as_alt
            &&& w.shared.fullscreen is None && !w.shared.in_fullscreen_transition
            &&& w.shared.target_fullscreen is None && !w.shared.is_simple_fullscreen
            &&& w.shared.saved_style is None && w.shared.save_presentation_opts is None
            &&& !w.shared.has_standard_frame
            &&& attrs.preferred_theme matches Some(t) ==> w.shared.current_theme == Some(t)
            &&& attrs.preferred_theme is None ==> w.shared.current_theme == Some(system_theme)
            &&& !w.view.ime_allowed && w.view.ime_state == ImeState::Disabled
            &&& !w.view.has_marked_text
            &&& w.view.accepts_first_mouse == attrs.platform_specific.accepts_first_mouse
            &&& w.view.option_as_alt == attrs.platform_specific.option_as_alt
            &&& w.view.input_source == input_source
            &&& mask_has(w.style_mask, NS_WINDOW_STYLE_MASK_TITLED) == titled
            &&& mask_has(w.style_mask, NS_WINDOW_STYLE_MASK_CLOSABLE) == (titled
                && attrs.enabled_buttons.close)
            &&& mask_has(w.style_mask, NS_WINDOW_STYLE_MASK_MINIATURIZABLE)
                == attrs.enabled_buttons.minimize
            &&& mask_has(w.style_mask, NS_WINDOW_STYLE_MASK_RESIZABLE) == attrs.resizable
            &&& mask_has(w.style_mask, NS_WINDOW_STYLE_MASK_FULL_SIZE_CONTENT_VIEW)
                == attrs.platform_specific.fullsize_content_view
        }),
{
    lemma_initial_style_mask_bits(
        attrs.decorations,
        attrs.fullscreen is Some && has_screen,
        attrs.platform_specific.titlebar_hidden,
        attrs.resizable,
        attrs.enabled_buttons,
        attrs.platform_specific.fullsize_content_view,
    );
}

/// The set-up of a newly created native window: it joins the tabbing group of its
/// identifier exactly when it has one, protects its content exactly when asked, makes its
/// title bar transparent, hides its title, hides its title-bar buttons and becomes movable
/// by its background exactly when asked, disables its zoom button exactly when the
/// maximise button is disabled, loses its shadow exactly when asked, is centred exactly
/// when no position was asked for, asks once for the best-resolution surface unless high
/// resolution is disallowed, and is made non-opaque exactly when transparent.
#[verifier::spinoff_prover]
#[verifier::rlimit(80)]
pub proof fn lemma_window_setup_actions(attrs: WindowAttrsModel)
    ensures
        ({
            let a = window_setup_actions(attrs);
            let p = attrs.platform_specific;
            &&& forall|id: String| #[trigger] a.contains(WindowAction::SetTabbingIdentifier(id))
                ==> p.tabbing_identifier == Some(id)
            &&& p.tabbing_identifier matches Some(id) ==> a[0] == WindowAction::SetTabbingIdentifier(id)
            &&& a.contains(WindowAction::SetSharingType(NSWindowSharingType::NSWindowSharingNone))
                == attrs.content_protected
            &&& a.contains(WindowAction::SetTitlebarTransparent) == p.titlebar_transparent
            &&& a.contains(WindowAction::HideTitle) == p.title_hidden
            &&& a.contains(WindowAction::HideTitlebarButtons) == p.titlebar_buttons_hidden
            &&& a.contains(WindowAction::SetMovableByWindowBackground)
                == p.movable_by_window_background
            &&& a.contains(WindowAction::SetZoomButtonEnabled(false)) == !attrs.enabled_buttons.maximize
            &&& a.contains(WindowAction::SetHasShadow(false)) == !p.has_shadow
            &&& a.contains(WindowAction::Center) == !attrs.has_position
            &&& a.contains(WindowAction::SetWantsBestResolution(!p.disallow_hidpi))
            &&& !a.contains(WindowAction::SetWantsBestResolution(p.disallow_hidpi))
            &&& a.contains(WindowAction::SetOpaque(false)) == attrs.transparent
            &&& !a.contains(WindowAction::SetOpaque(true))
        }),
{
    let p = attrs.platform_specific;
    lemma_setup_contains(attrs, WindowAction::SetSharingType(NSWindowSharingType::NSWindowSharingNone));
    lemma_setup_contains(attrs, WindowAction::SetTitlebarTransparent);
    lemma_setup_contains(attrs, WindowAction::HideTitle);
    lemma_setup_contains(attrs, WindowAction::HideTitlebarButtons);
    lemma_setup_contains(attrs, WindowAction::SetMovableByWindowBackground);
    lemma_setup_contains(attrs, WindowAction::SetZoomButtonEnabled(false));
    lemma_setup_contains(attrs, WindowAction::SetHasShadow(false));
    lemma_setup_contains(attrs, WindowAction::Center);
    lemma_setup_contains(attrs, WindowAction::SetWantsBestResolution(!p.disallow_hidpi));
    lemma_setup_contains(attrs, WindowAction::SetWantsBestResolution(p.disallow_hidpi));
    lemma_setup_contains(attrs, WindowAction::SetOpaque(false));
    lemma_setup_contains(attrs, WindowAction::SetOpaque(true));
    assert forall|id: String| #[trigger] window_setup_actions(attrs).contains(
        WindowAction::SetTabbingIdentifier(id),
    ) implies p.tabbing_identifier == Some(id) by {
        lemma_setup_contains(attrs, WindowAction::SetTabbingIdentifier(id));
    }
    if p.tabbing_identifier is Some {
        let t = seq![WindowAction::SetTabbingIdentifier(p.tabbing_identifier->0)];
        assert(window_setup_actions(attrs)[0] == t[0]);
    }
}

/// What the set-up of a new window holds: the tabbing action of its identifier, if any,
/// and each optional action whose setting asks for it.
#[verifier::spinoff_prover]
#[verifier::rlimit(30)]
proof fn lemma_setup_contains(attrs: WindowAttrsModel, x: WindowAction)
    ensures
        ({
            let p = attrs.platform_specific;
            window_setup_actions(attrs).contains(x) == ((p.tabbing_identifier matches Some(id)
                && x == WindowAction::SetTabbingIdentifier(id)) || (attrs.content_protected && x
                == WindowAction::SetSharingType(NSWindowSharingType::NSWindowSharingNone)) || (
            p.titlebar_transparent && x == WindowAction::SetTitlebarTransparent) || (
            p.title_hidden && x == WindowAction::HideTitle) || (p.titlebar_buttons_hidden && x
                == WindowAction::HideTitlebarButtons) || (p.movable_by_window_background && x
                == WindowAction::SetMovableByWindowBackground) || (!attrs.enabled_buttons.maximize
                && x == WindowAction::SetZoomButtonEnabled(false)) || (!p.has_shadow && x
                == WindowAction::SetHasShadow(false)) || (!attrs.has_position && x
                == WindowAction::Center) || x == WindowAction::SetWantsBestResolution(
                !p.disallow_hidpi,
            ) || (attrs.transparent && x == WindowAction::SetOpaque(false)))
        }),
{
    let p = attrs.platform_specific;
    let t = match p.tabbing_identifier {
        Some(identifier) => seq![WindowAction::SetTabbingIdentifier(identifier)],
        None => Seq::<WindowAction>::empty(),
    };
    let a1 = action_if(
        attrs.content_protected,
        WindowAction::SetSharingType(NSWindowSharingType::NSWindowSharingNone),
    );
    let a2 = action_if(p.titlebar_transparent, WindowAction::SetTitlebarTransparent);
    let a3 = action_if(p.title_hidden, WindowAction::HideTitle);
    let a4 = action_if(p.titlebar_buttons_hidden, WindowAction::HideTitlebarButtons);
    let a5 = action_if(p.movable_by_window_background, WindowAction::SetMovableByWindowBackground);
    let a6 = action_if(!attrs.enabled_buttons.maximize, WindowAction::SetZoomButtonEnabled(false));
    let a7 = action_if(!p.has_shadow, WindowAction::SetHasShadow(false));
    let a8 = action_if(!attrs.has_position, WindowAction::Center);
    let a9 = seq![WindowAction::SetWantsBestResolution(!p.disallow_hidpi)];
    let a10 = action_if(attrs.transparent, WindowAction::SetOpaque(false));
    let s1 = t + a1;
    let s2 = s1 + a2;
    let s3 = s2 + a3;
    let s4 = s3 + a4;
    let s5 = s4 + a5;
    let s6 = s5 + a6;
    let s7 = s6 + a7;
    let s8 = s7 + a8;
    let s9 = s8 + a9;
    assert(window_setup_actions(attrs) == s9 + a10);
    lemma_concat_contains(t, a1, x);
    lemma_concat_contains(s1, a2, x);
    lemma_concat_contains(s2, a3, x);
    lemma_concat_contains(s3, a4, x);
    lemma_concat_contains(s4, a5, x);
    lemma_concat_contains(s5, a6, x);
    lemma_concat_contains(s6, a7, x);
    lemma_concat_contains(s7, a8, x);
    lemma_concat_contains(s8, a9, x);
    lemma_concat_contains(s9, a10, x);
    lemma_singleton_contains(t, x);
    lemma_singleton_contains(a1, x);
    lemma_singleton_contains(a2, x);
    lemma_singleton_contains(a3, x);
    lemma_singleton_contains(a4, x);
    lemma_singleton_contains(a5, x);
    lemma_singleton_contains(a6, x);
    lemma_singleton_contains(a7, x);
    lemma_singleton_contains(a8, x);
    lemma_singleton_contains(a9, x);
    lemma_singleton_contains(a10, x);
}

/// A sequence of at most one element holds exactly its element.
pub(crate) proof fn lemma_singleton_contains(s: Seq<WindowAction>, x: WindowAction)
    requires
        s.len() <= 1,
    ensures
        s.contains(x) == (s.len() == 1 && s[0] == x),
{
    if s.len() == 1 && s[0] == x {
        assert(s[0] == x);
    }
}

/// An element of a concatenation is an element of one of its parts.
pub(crate) proof fn lemma_concat_contains(s1: Seq<WindowAction>, s2: Seq<WindowAction>, x: WindowAction)
    ensures
        (s1 + s2).contains(x) == (s1.contains(x) || s2.contains(x)),
{
    if (s1 + s2).contains(x) {
        let k = choose|k: int| 0 <= k < (s1 + s2).len() && (s1 + s2)[k] == x;
        if k < s1.len() {
            assert(s1[k] == x);
        } else {
            assert(s2[k - s1.len()] == x);
        }
    }
    if s1.contains(x) {
        let k = choose|k: int| 0 <= k < s1.len() && s1[k] == x;
        assert((s1 + s2)[k] == x);
    }
    if s2.contains(x) {
        let k = choose|k: int| 0 <= k < s2.len() && s2[k] == x;
        assert((s1 + s2)[s1.len() + k] == x);
    }
}

/// Computes the style mask of a new window; see [`initial_style_mask`].
pub fn window_style_mask(
    decorations: bool,
    has_screen: bool,
    titlebar_hidden: bool,
    resizable: bool,
    buttons: WindowButtons,
    fullsize_content_view: bool,
) -> (r: usize)
    ensures
        r == initial_style_mask(
            decorations,
            has_screen,
            titlebar_hidden,
            resizable,
            buttons,
            fullsize_content_view,
        ),
{
    let mut masks = if (!decorations && !has_screen) || titlebar_hidden {
        // Resizable without a title bar or borders.
        NS_WINDOW_STYLE_MASK_BORDERLESS | NS_WINDOW_STYLE_MASK_RESIZABLE
            | NS_WINDOW_STYLE_MASK_MINIATURIZABLE
    } else {
        // The default: resizable, with a title bar and its buttons.
        NS_WINDOW_STYLE_MASK_CLOSABLE | NS_WINDOW_STYLE_MASK_MINIATURIZABLE
            | NS_WINDOW_STYLE_MASK_RESIZABLE | NS_WINDOW_STYLE_MASK_TITLED
    };
    if !resizable {
        masks = masks & !NS_WINDOW_STYLE_MASK_RESIZABLE;
    }
    if !buttons.minimize {
        masks = masks & !NS_WINDOW_STYLE_MASK_MINIATURIZABLE;
    }
    if !buttons.close {
        masks = masks & !NS_WINDOW_STYLE_MASK_CLOSABLE;
    }
    if fullsize_content_view {
        masks = masks | NS_WINDOW_STYLE_MASK_FULL_SIZE_CONTENT_VIEW;
    }
    masks
}

/// The native window level of a window level.
pub open spec fn level_value(level: WindowLevel) -> isize {
    match level {
        WindowLevel::AlwaysOnTop => K_CG_FLOATING_WINDOW_LEVEL,
        WindowLevel::AlwaysOnBottom => (K_CG_NORMAL_WINDOW_LEVEL - 1) as isize,
        WindowLevel::Normal => K_CG_NORMAL_WINDOW_LEVEL,
    }
}

/// The native window level for a window level: floating on top, one below normal at the
/// bottom, and normal.
pub fn window_level_value(level: WindowLevel) -> (r: isize)
    ensures
        r == level_value(level),
{
    match level {
        WindowLevel::AlwaysOnTop => K_CG_FLOATING_WINDOW_LEVEL,
        WindowLevel::AlwaysOnBottom => K_CG_NORMAL_WINDOW_LEVEL - 1,
        WindowLevel::Normal => K_CG_NORMAL_WINDOW_LEVEL,
    }
}

/// The AppKit request for a kind of user attention.
pub fn user_attention_request(request_type: UserAttentionType) -> (r: NSRequestUserAttentionType)
    ensures
        r == (if request_type == UserAttentionType::Critical {
            NSRequestUserAttentionType::NSCriticalRequest
        } else {
            NSRequestUserAttentionType::NSInformationalRequest
        }),
{
    match request_type {
        UserAttentionType::Critical => NSRequestUserAttentionType::NSCriticalRequest,
        UserAttentionType::Informational => NSRequestUserAttentionType::NSInformationalRequest,
    }
}

/// Whether grabbing the cursor keeps the mouse associated with the cursor position:
/// locking dissociates them, releasing the grab associates them, and confining is not
/// supported.
pub fn cursor_grab_association(mode: CursorGrabMode) -> (r: Result<bool, ExternalError>)
    ensures
        r == (match mode {
            CursorGrabMode::Locked => Ok(false),
            CursorGrabMode::NoGrab => Ok(true),
            CursorGrabMode::Confined => Err(ExternalError::NotSupported(NotSupportedError)),
        }),
{
    match mode {
        CursorGrabMode::Locked => Ok(false),
        CursorGrabMode::NoGrab => Ok(true),
        CursorGrabMode::Confined => Err(ExternalError::NotSupported(NotSupportedError)),
    }
}

/// The sharing type that protects, or not, a window's contents from capture.
pub fn content_protection_sharing(protected: bool) -> (r: NSWindowSharingType)
    ensures
        r == (if protected {
            NSWindowSharingType::NSWindowSharingNone
        } else {
            NSWindowSharingType::NSWindowSharingReadOnly
        }),
{
    if protected {
        NSWindowSharingType::NSWindowSharingNone
    } else {
        NSWindowSharingType::NSWindowSharingReadOnly
    }
}

/// A change to apply to the native window or application.
#[derive(Debug, PartialEq, Eq)]
pub enum WindowAction {
    /// Set the style mask, then make the content view first responder again (without
    /// that, key handling breaks).
    SetStyleMask(usize),
    MakeKeyAndOrderFront,
    OrderFront,
    OrderOut,
    SetOpaque(bool),
    SetIgnoresMouseEvents(bool),
    /// Re-apply the cursor rectangles of the content view.
    InvalidateCursorRects,
    /// Use this cursor over the content view.
    SetCursor(Cursor),
    SetLevel(isize),
    ToggleFullScreen,
    /// Ask again for `toggleFullScreen:` after a short delay (half a second).
    ToggleFullScreenLater,
    /// Zoom the window natively.
    Zoom,
    /// Remember the current frame as the standard (unzoomed) frame.
    SaveStandardFrame,
    /// Remember the current content rectangle as the standard frame.
    SaveContentRectAsStandardFrame,
    /// Give the window the visible frame of the main screen.
    SetFrameToVisibleScreen,
    /// Give the window its standard frame (or the default one if none was saved).
    SetFrameToStandardFrame,
    /// Give the window the frame of its screen.
    SetFrameToScreen,
    Miniaturize,
    Deminiaturize,
    SetMovable(bool),
    SetHasShadow(bool),
    /// Move the window to the screen of a display before toggling fullscreen.
    MoveToDisplay(u32),
    /// Fade out, capture the display and switch it to the video mode, fade back in.
    CaptureDisplay(VideoMode),
    /// Restore the display configuration and release the captured display.
    ReleaseDisplay(u32),
    SetPresentationOptions(usize),
    /// Activate the application, ignoring other applications.
    ActivateApplication,
    RequestUserAttention(NSRequestUserAttentionType),
    SetSharingType(NSWindowSharingType),
    /// Ask the application delegate for a redraw of the window.
    QueueRedraw(WindowId),
    /// Enable or disable the zoom (maximise) button.
    SetZoomButtonEnabled(bool),
    /// Join windows with this tabbing identifier, preferring tabs.
    SetTabbingIdentifier(String),
    SetTitlebarTransparent,
    HideTitle,
    /// Hide the fullscreen, minimise, close and zoom buttons.
    HideTitlebarButtons,
    SetMovableByWindowBackground,
    /// Centre the window on its screen.
    Center,
    /// Ask, or not, for a best-resolution OpenGL surface in the content view.
    SetWantsBestResolution(bool),
    /// Give the window the appearance of a theme.
    SetAppearance(Theme),
    /// Blur, or not, what is behind the window.
    SetBlur(bool),
    /// Queue an event of the window for the application.
    QueueEvent(WindowEvent),
}

/// The attributes of a new window that its creation decides on. Sizes, positions and size
/// limits, which are floating point, are applied by the caller.
#[derive(Clone, Debug)]
pub struct WindowAttrsModel {
    pub title: String,
    pub resizable: bool,
    pub decorations: bool,
    pub maximized: bool,
    pub visible: bool,
    /// Whether the window becomes the key window when it is shown.
    pub active: bool,
    pub transparent: bool,
    pub blur: bool,
    pub content_protected: bool,
    /// Whether a position was asked for; otherwise the window is centred.
    pub has_position: bool,
    pub enabled_buttons: WindowButtons,
    pub window_level: WindowLevel,
    pub preferred_theme: Option<Theme>,
    pub fullscreen: Option<Fullscreen>,
    pub cursor: Cursor,
    pub platform_specific: PlatformSpecificWindowAttributes,
}

/// `a` alone if `b` holds, nothing otherwise.
pub open spec fn action_if(b: bool, a: WindowAction) -> Seq<WindowAction> {
    if b {
        seq![a]
    } else {
        Seq::empty()
    }
}

/// The style mask of a window created with these attributes; `has_screen` says whether a
/// screen was found for the initial fullscreen.
pub open spec fn attrs_style_mask(attrs: WindowAttrsModel, has_screen: bool) -> usize {
    initial_style_mask(
        attrs.decorations,
        attrs.fullscreen is Some && has_screen,
        attrs.platform_specific.titlebar_hidden,
        attrs.resizable,
        attrs.enabled_buttons,
        attrs.platform_specific.fullsize_content_view,
    )
}

/// A newly created native window, before its delegate sets it up: hidden, not key, not
/// zoomed, at the normal level with the arrow cursor; its theme is the preferred one, or
/// else the system's.
pub open spec fn created_window(
    attrs: WindowAttrsModel,
    id: WindowId,
    has_screen: bool,
    system_theme: Theme,
    presentation_options: usize,
    input_source: String,
) -> WinitWindow {
    WinitWindow {
        id,
        style_mask: attrs_style_mask(attrs, has_screen),
        visible: false,
        key_window: false,
        miniaturized: false,
        zoomed: false,
        zoom_button_enabled: attrs.enabled_buttons.maximize,
        opaque: !attrs.transparent,
        ignores_mouse_events: false,
        has_shadow: attrs.platform_specific.has_shadow,
        movable: true,
        level: K_CG_NORMAL_WINDOW_LEVEL,
        title: attrs.title,
        presentation_options,
        shared: SharedState {
            resizable: attrs.resizable,
            fullscreen: None,
            in_fullscreen_transition: false,
            target_fullscreen: None,
            maximized: attrs.maximized,
            has_standard_frame: false,
            is_simple_fullscreen: false,
            saved_style: None,
            save_presentation_opts: None,
            current_theme: Some(
                match attrs.preferred_theme {
                    Some(theme) => theme,
                    None => system_theme,
                },
            ),
            option_as_alt: attrs.platform_specific.option_as_alt,
            decorations: attrs.decorations,
        },
        view: initial_view(
            attrs.platform_specific.accepts_first_mouse,
            attrs.platform_specific.option_as_alt,
            input_source,
        ),
        cursor: Cursor::Native("arrowCursor"),
    }
}

/// The set-up of a newly created native window, in order: tabbing, content protection,
/// title bar, movability, the zoom button, the shadow, centring when no position was asked
/// for, the content view's resolution and transparency.
pub open spec fn window_setup_actions(attrs: WindowAttrsModel) -> Seq<WindowAction> {
    let p = attrs.platform_specific;
    (match p.tabbing_identifier {
        Some(identifier) => seq![WindowAction::SetTabbingIdentifier(identifier)],
        None => Seq::empty(),
    }) + action_if(
        attrs.content_protected,
        WindowAction::SetSharingType(NSWindowSharingType::NSWindowSharingNone),
    ) + action_if(p.titlebar_transparent, WindowAction::SetTitlebarTransparent) + action_if(
        p.title_hidden,
        WindowAction::HideTitle,
    ) + action_if(p.titlebar_buttons_hidden, WindowAction::HideTitlebarButtons) + action_if(
        p.movable_by_window_background,
        WindowAction::SetMovableByWindowBackground,
    ) + action_if(!attrs.enabled_buttons.maximize, WindowAction::SetZoomButtonEnabled(false))
        + action_if(!p.has_shadow, WindowAction::SetHasShadow(false)) + action_if(
        !attrs.has_position,
        WindowAction::Center,
    ) + seq![WindowAction::SetWantsBestResolution(!p.disallow_hidpi)] + action_if(
        attrs.transparent,
        WindowAction::SetOpaque(false),
    )
}

/// Pushes `a` if `b` holds.
fn push_if(actions: &mut Vec<WindowAction>, b: bool, a: WindowAction)
    ensures
        final(actions)@ == old(actions)@ + action_if(b, a),
{
    if b {
        actions.push(a);
    } else {
        proof {
            assert(old(actions)@ + Seq::<WindowAction>::empty() =~= old(actions)@);
        }
    }
}

/// Computes the set-up of a newly created native window; see [`window_setup_actions`].
#[verifier::spinoff_prover]
#[verifier::rlimit(30)]
fn window_setup(attrs: &WindowAttrsModel) -> (actions: Vec<WindowAction>)
    ensures
        actions@ == window_setup_actions(*attrs),
{
    let p = &attrs.platform_specific;
    let mut actions: Vec<WindowAction> = Vec::new();
    match &p.tabbing_identifier {
        Some(identifier) => actions.push(WindowAction::SetTabbingIdentifier(identifier.clone())),
        None => {},
    }
    proof {
        assert(actions@ =~= match attrs.platform_specific.tabbing_identifier {
            Some(identifier) => seq![WindowAction::SetTabbingIdentifier(identifier)],
            None => Seq::<WindowAction>::empty(),
        });
    }
    push_if(
        &mut actions,
        attrs.content_protected,
        WindowAction::SetSharingType(NSWindowSharingType::NSWindowSharingNone),
    );
    push_if(&mut actions, p.titlebar_transparent, WindowAction::SetTitlebarTransparent);
    push_if(&mut actions, p.title_hidden, WindowAction::HideTitle);
    push_if(&mut actions, p.titlebar_buttons_hidden, WindowAction::HideTitlebarButtons);
    push_if(&mut actions, p.movable_by_window_background, WindowAction::SetMovableByWindowBackground);
    push_if(&mut actions, !attrs.enabled_buttons.maximize, WindowAction::SetZoomButtonEnabled(false));
    push_if(&mut actions, !p.has_shadow, WindowAction::SetHasShadow(false));
    push_if(&mut actions, !attrs.has_position, WindowAction::Center);
    let ghost before = actions@;
    actions.push(WindowAction::SetWantsBestResolution(!p.disallow_hidpi));
    proof {
        assert(actions@ =~= before + seq![WindowAction::SetWantsBestResolution(!p.disallow_hidpi)]);
    }
    push_if(&mut actions, attrs.transparent, WindowAction::SetOpaque(false));
    actions
}

/// Creates a window with these attributes: its style mask, its state and the set-up of the
/// native window (see [`created_window`] and [`window_setup_actions`]). `has_screen` says
/// whether a screen was found for the initial fullscreen, `system_theme` is the theme of
/// the system and `presentation_options` the application's current ones.
pub fn new_window(
    attrs: &WindowAttrsModel,
    id: WindowId,
    has_screen: bool,
    system_theme: Theme,
    presentation_options: usize,
    input_source: String,
) -> (r: (WinitWindow, Vec<WindowAction>))
    ensures
        r.0 == created_window(
            *attrs,
            id,
            has_screen,
            system_theme,
            presentation_options,
            input_source,
        ),
        r.1@ == window_setup_actions(*attrs),
{
    let p = &attrs.platform_specific;
    let style_mask = window_style_mask(
        attrs.decorations,
        attrs.fullscreen.is_some() && has_screen,
        p.titlebar_hidden,
        attrs.resizable,
        attrs.enabled_buttons,
        p.fullsize_content_view,
    );
    let actions = window_setup(attrs);
    let theme = match attrs.preferred_theme {
        Some(theme) => theme,
        None => system_theme,
    };
    let window = WinitWindow {
        id,
        style_mask,
        visible: false,
        key_window: false,
        miniaturized: false,
        zoomed: false,
        zoom_button_enabled: attrs.enabled_buttons.maximize,
        opaque: !attrs.transparent,
        ignores_mouse_events: false,
        has_shadow: p.has_shadow,
        movable: true,
        level: K_CG_NORMAL_WINDOW_LEVEL,
        title: attrs.title.clone(),
        presentation_options,
        shared: SharedState {
            resizable: attrs.resizable,
            fullscreen: None,
            in_fullscreen_transition: false,
            target_fullscreen: None,
            maximized: attrs.maximized,
            has_standard_frame: false,
            is_simple_fullscreen: false,
            saved_style: None,
            save_presentation_opts: None,
            current_theme: Some(theme),
            option_as_alt: p.option_as_alt,
            decorations: attrs.decorations,
        },
        view: ViewState::new(p.accepts_first_mouse, p.option_as_alt, input_source),
        cursor: Cursor::Native("arrowCursor"),
    };
    (window, actions)
}

/// The state of a window that is not kept by `NSWindow` itself.
#[derive(Clone, Copy, Debug, PartialEq, Eq)]
pub struct SharedState {
    pub resizable: bool,
    /// The current fullscreen state of the window.
    pub fullscreen: Option<Fullscreen>,
    /// True between the start and the end of a transition into or out of fullscreen;
    /// fullscreen must not be toggled then.
    pub in_fullscreen_transition: bool,
    /// A fullscreen state requested during a transition, applied when it ends.
    pub target_fullscreen: Option<Option<Fullscreen>>,
    pub maximized: bool,
    /// Whether a standard (unzoomed) frame was saved.
    pub has_standard_frame: bool,
    pub is_simple_fullscreen: bool,
    pub saved_style: Option<usize>,
    /// Presentation options saved when entering simple fullscreen, or when switching from
    /// borderless to exclusive fullscreen, and restored afterwards.
    pub save_presentation_opts: Option<usize>,
    pub current_theme: Option<Theme>,
    pub option_as_alt: OptionAsAlt,
    pub decorations: bool,
}

/// A window: what the logic reads of the native `NSWindow`, the shared state and the
/// content view's input state.
#[derive(Debug)]
pub struct WinitWindow {
    /// The address of the native window.
    pub id: WindowId,
    pub style_mask: usize,
    pub visible: bool,
    /// Whether the window is the key window.
    pub key_window: bool,
    pub miniaturized: bool,
    /// What `isZoomed` reports while the window is titled and resizable.
    pub zoomed: bool,
    pub zoom_button_enabled: bool,
    pub opaque: bool,
    pub ignores_mouse_events: bool,
    pub has_shadow: bool,
    pub movable: bool,
    pub level: isize,
    pub title: String,
    /// The application's current presentation options.
    pub presentation_options: usize,
    pub shared: SharedState,
    pub view: ViewState,
    pub cursor: Cursor,
}

/// The style mask that a fullscreen toggle needs (it does nothing on a borderless window)
/// and that zoom detection needs.
pub open spec fn titled_resizable() -> usize {
    NS_WINDOW_STYLE_MASK_TITLED | NS_WINDOW_STYLE_MASK_RESIZABLE
}

impl WinitWindow {
    /// The identifier of the window.
    pub fn id(&self) -> (r: WindowId)
        ensures
            r == self.id,
    {
        self.id
    }

    /// The title of the window.
    pub fn title(&self) -> (r: String)
        ensures
            r@ == self.title@,
    {
        self.title.clone()
    }

    /// Sets the style mask, recording the action.
    pub(crate) fn set_style_mask(&mut self, mask: usize, actions: &mut Vec<WindowAction>)
        ensures
            *final(self) == (WinitWindow { style_mask: mask, ..*old(self) }),
            final(actions)@ == old(actions)@.push(WindowAction::SetStyleMask(mask)),
    {
        self.style_mask = mask;
        actions.push(WindowAction::SetStyleMask(mask));
    }

    /// Makes the window see-through (not opaque) or not.
    pub fn set_transparent(&mut self, transparent: bool) -> (actions: Vec<WindowAction>)
        ensures
            *final(self) == (WinitWindow { opaque: !transparent, ..*old(self) }),
            actions@ == seq![WindowAction::SetOpaque(!transparent)],
    {
        self.opaque = !transparent;
        let mut actions = Vec::new();
        actions.push(WindowAction::SetOpaque(!transparent));
        actions
    }

    /// Shows the window (making it key and ordering it front) or hides it.
    pub fn set_visible(&mut self, visible: bool) -> (actions: Vec<WindowAction>)
        ensures
            *final(self) == (WinitWindow { visible, ..*old(self) }),
            actions@ == seq![
                if visible {
                    WindowAction::MakeKeyAndOrderFront
                } else {
                    WindowAction::OrderOut
                },
            ],
    {
        self.visible = visible;
        let mut actions = Vec::new();
        if visible {
            actions.push(WindowAction::MakeKeyAndOrderFront);
        } else {
            actions.push(WindowAction::OrderOut);
        }
        actions
    }

    /// Whether the window is visible (always known on macOS).
    pub fn is_visible(&self) -> (r: Option<bool>)
        ensures
            r == Some(self.visible),
    {
        Some(self.visible)
    }

    /// Asks for a redraw of the window.
    pub fn request_redraw(&self) -> (actions: Vec<WindowAction>)
        ensures
            actions@ == seq![WindowAction::QueueRedraw(self.id)],
    {
        let mut actions = Vec::new();
        actions.push(WindowAction::QueueRedraw(self.id));
        actions
    }

    /// Nothing to do before presenting on macOS.
    pub fn pre_present_notify(&self) {
    }

    /// Whether the window can be resized by the user.
    pub fn is_resizable(&self) -> (r: bool)
        ensures
            r == mask_has(self.style_mask, NS_WINDOW_STYLE_MASK_RESIZABLE),
    {
        mask_contains(self.style_mask, NS_WINDOW_STYLE_MASK_RESIZABLE)
    }

    /// Uses a cursor over the window's content view; setting the cursor already in use
    /// changes nothing.
    pub fn set_cursor(&mut self, cursor: Cursor) -> (actions: Vec<WindowAction>)
        ensures
            same_cursor(cursor, old(self).cursor) ==> *final(self) == *old(self) && actions@
                == Seq::<WindowAction>::empty(),
            !same_cursor(cursor, old(self).cursor) ==> *final(self) == (WinitWindow {
                cursor,
                ..*old(self)
            }) && actions@ == seq![
                WindowAction::SetCursor(cursor),
                WindowAction::InvalidateCursorRects,
            ],
    {
        let mut actions = Vec::new();
        if cursor.same_as(&self.cursor) {
            return actions;
        }
        self.cursor = cursor;
        actions.push(WindowAction::SetCursor(cursor));
        actions.push(WindowAction::InvalidateCursorRects);
        actions
    }

    /// Shows or hides the cursor over the window; the cursor rectangles are re-applied only
    /// when this changes anything.
    pub fn set_cursor_visible(&mut self, visible: bool) -> (actions: Vec<WindowAction>)
        ensures
            *final(self) == (WinitWindow {
                view: ViewState { cursor_visible: visible, ..old(self).view },
                ..*old(self)
            }),
            actions@ == (if visible != old(self).view.cursor_visible {
                seq![WindowAction::InvalidateCursorRects]
            } else {
                Seq::empty()
            }),
    {
        let changed = self.view.set_cursor_visible(visible);
        let mut actions = Vec::new();
        if changed {
            actions.push(WindowAction::InvalidateCursorRects);
        }
        proof {
            if !changed {
                assert(actions@ =~= Seq::<WindowAction>::empty());
            }
        }
        actions
    }

    /// Dragging a window edge to resize it is not supported on macOS.
    pub fn drag_resize_window(&self, direction: ResizeDirection) -> (r: Result<(), ExternalError>)
        ensures
            r == Err::<(), ExternalError>(ExternalError::NotSupported(NotSupportedError)),
    {
        Err(ExternalError::NotSupported(NotSupportedError))
    }

    /// There is no window menu to show on macOS.
    pub fn show_window_menu(&self) {
    }

    /// Makes the window receive mouse events or let them through.
    pub fn set_cursor_hittest(&mut self, hittest: bool) -> (r: (Result<(), ExternalError>, Vec<WindowAction>))
        ensures
            *final(self) == (WinitWindow { ignores_mouse_events: !hittest, ..*old(self) }),
            r.0 == Ok::<(), ExternalError>(()),
            r.1@ == seq![WindowAction::SetIgnoresMouseEvents(!hittest)],
    {
        self.ignores_mouse_events = !hittest;
        let mut actions = Vec::new();
        actions.push(WindowAction::SetIgnoresMouseEvents(!hittest));
        (Ok(()), actions)
    }

    /// Whether the window is minimised (always known on macOS).
    pub fn is_minimized(&self) -> (r: Option<bool>)
        ensures
            r == Some(self.miniaturized),
    {
        Some(self.miniaturized)
    }

    /// Whether the window has decorations.
    pub fn is_decorated(&self) -> (r: bool)
        ensures
            r == self.shared.decorations,
    {
        self.shared.decorations
    }

    /// Windows have no icon on macOS.
    pub fn set_window_icon(&self) {
    }

    /// Allows or forbids IME input in the content view.
    pub fn set_ime_allowed(&mut self, allowed: bool) -> (events: Vec<WindowEvent>)
        ensures
            *final(self) == (WinitWindow {
                view: ime_allowed_set(old(self).view, allowed).0,
                ..*old(self)
            }),
            events@ == ime_allowed_set(old(self).view, allowed).1,
    {
        self.view.set_ime_allowed(allowed)
    }

    /// The IME purpose is ignored on macOS.
    pub fn set_ime_purpose(&self, purpose: ImePurpose) {
    }

    /// The window's theme.
    pub fn theme(&self) -> (r: Option<Theme>)
        ensures
            r == self.shared.current_theme,
    {
        self.shared.current_theme
    }

    /// Whether the window is the key window.
    pub fn has_focus(&self) -> (r: bool)
        ensures
            r == self.key_window,
    {
        self.key_window
    }

    /// Dead keys cannot be reset on macOS.
    pub fn reset_dead_keys(&self) {
    }

    /// Sets the stacking level of the window.
    pub fn set_window_level(&mut self, level: WindowLevel) -> (actions: Vec<WindowAction>)
        ensures
            *final(self) == (WinitWindow { level: level_value(level), ..*old(self) }),
            actions@ == seq![WindowAction::SetLevel(level_value(level))],
    {
        let value = window_level_value(level);
        self.level = value;
        let mut actions = Vec::new();
        actions.push(WindowAction::SetLevel(value));
        actions
    }

    /// Brings the window to the front and activates the application, unless the window is
    /// minimised or hidden.
    pub fn focus_window(&self) -> (actions: Vec<WindowAction>)
        ensures
            actions@ == (if !self.miniaturized && self.visible {
                seq![WindowAction::ActivateApplication, WindowAction::MakeKeyAndOrderFront]
            } else {
                Seq::empty()
            }),
    {
        let mut actions = Vec::new();
        if !self.miniaturized && self.visible {
            actions.push(WindowAction::ActivateApplication);
            actions.push(WindowAction::MakeKeyAndOrderFront);
        }
        proof {
            if !(!self.miniaturized && self.visible) {
                assert(actions@ =~= Seq::<WindowAction>::empty());
            }
        }
        actions
    }

    /// Asks for the user's attention, if a kind of attention is given.
    pub fn request_user_attention(&self, request_type: Option<UserAttentionType>) -> (actions: Vec<WindowAction>)
        ensures
            actions@ == (match request_type {
                Some(t) => seq![
                    WindowAction::RequestUserAttention(
                        if t == UserAttentionType::Critical {
                            NSRequestUserAttentionType::NSCriticalRequest
                        } else {
                            NSRequestUserAttentionType::NSInformationalRequest
                        },
                    ),
                ],
                None => Seq::empty(),
            }),
    {
        let mut actions = Vec::new();
        match request_type {
            Some(t) => actions.push(WindowAction::RequestUserAttention(user_attention_request(t))),
            None => {
                assert(actions@ =~= Seq::<WindowAction>::empty());
            },
        }
        actions
    }

    /// Protects the window's contents from capture, or not.
    pub fn set_content_protected(&self, protected: bool) -> (actions: Vec<WindowAction>)
        ensures
            actions@ == seq![
                WindowAction::SetSharingType(
                    if protected {
                        NSWindowSharingType::NSWindowSharingNone
                    } else {
                        NSWindowSharingType::NSWindowSharingReadOnly
                    },
                ),
            ],
    {
        let mut actions = Vec::new();
        actions.push(WindowAction::SetSharingType(content_protection_sharing(protected)));
        actions
    }

    /// Sets whether the window casts a shadow.
    pub fn set_has_shadow(&mut self, has_shadow: bool) -> (actions: Vec<WindowAction>)
        ensures
            *final(self) == (WinitWindow { has_shadow, ..*old(self) }),
            actions@ == seq![WindowAction::SetHasShadow(has_shadow)],
    {
        self.has_shadow = has_shadow;
        let mut actions = Vec::new();
        actions.push(WindowAction::SetHasShadow(has_shadow));
        actions
    }

    pub fn has_shadow(&self) -> (r: bool)
        ensures
            r == self.has_shadow,
    {
        self.has_shadow
    }

    pub fn set_option_as_alt(&mut self, option_as_alt: OptionAsAlt)
        ensures
            *final(self) == (WinitWindow {
                shared: SharedState { option_as_alt, ..old(self).shared },
                view: ViewState { option_as_alt, ..old(self).view },
                ..*old(self)
            }),
    {
        self.shared.option_as_alt = option_as_alt;
        self.view.set_option_as_alt(option_as_alt);
    }

    pub fn option_as_alt(&self) -> (r: OptionAsAlt)
        ensures
            r == self.shared.option_as_alt,
    {
        self.shared.option_as_alt
    }

    /// Whether the window is in simple (pre-Lion) fullscreen.
    pub fn simple_fullscreen(&self) -> (r: bool)
        ensures
            r == self.shared.is_simple_fullscreen,
    {
        self.shared.is_simple_fullscreen
    }
}

/// A style mask with a bit set or cleared.
pub open spec fn with_bit(mask: usize, bit: usize, on: bool) -> usize {
    if on {
        mask | bit
    } else {
        mask & !bit
    }
}

/// The style mask that a window's decorations setting gives it.
pub open spec fn decorations_mask(decorations: bool, resizable: bool) -> usize {
    let m = if decorations {
        NS_WINDOW_STYLE_MASK_CLOSABLE | NS_WINDOW_STYLE_MASK_MINIATURIZABLE
            | NS_WINDOW_STYLE_MASK_RESIZABLE | NS_WINDOW_STYLE_MASK_TITLED
    } else {
        NS_WINDOW_STYLE_MASK_BORDERLESS | NS_WINDOW_STYLE_MASK_RESIZABLE
    };
    if !resizable {
        m & !NS_WINDOW_STYLE_MASK_RESIZABLE
    } else {
        m
    }
}

/// The style mask to restore when leaving a fullscreen mode: the saved mask (or the current
/// one), made resizable or not as the window should be.
pub open spec fn restored_style(saved_style: Option<usize>, current: usize, resizable: bool) -> usize {
    let base = match saved_style {
        Some(m) => m,
        None => current,
    };
    with_bit(base, NS_WINDOW_STYLE_MASK_RESIZABLE, resizable)
}

/// The actions of the temporary style change that zoom detection makes on a window that
/// is not titled and resizable.
pub open spec fn zoom_probe_actions(mask: usize) -> Seq<WindowAction> {
    if !mask_has(mask, titled_resizable()) {
        seq![WindowAction::SetStyleMask(titled_resizable()), WindowAction::SetStyleMask(mask)]
    } else {
        Seq::empty()
    }
}

/// The actions of a request to maximise (or restore) a window with this style mask, zoom
/// state and fullscreen state.
pub open spec fn maximize_actions(mask: usize, zoomed: bool, in_fullscreen: bool, maximized: bool) -> Seq<
    WindowAction,
> {
    if zoomed == maximized {
        zoom_probe_actions(mask)
    } else {
        zoom_probe_actions(mask) + (if !zoomed {
            seq![WindowAction::SaveStandardFrame]
        } else {
            Seq::empty()
        }) + (if in_fullscreen {
            Seq::empty()
        } else if mask_has(mask, NS_WINDOW_STYLE_MASK_RESIZABLE) {
            seq![WindowAction::Zoom]
        } else if maximized {
            seq![WindowAction::SetFrameToVisibleScreen]
        } else {
            seq![WindowAction::SetFrameToStandardFrame]
        })
    }
}

/// The window after a request to maximise (or restore) it: unchanged when its zoom state
/// is already the one asked for; otherwise the wish is recorded (with the standard frame
/// saved when the window was not zoomed) and, out of fullscreen, the window zoomed or
/// restored.
pub open spec fn maximized_after(w: WinitWindow, maximized: bool) -> WinitWindow {
    if w.zoomed == maximized {
        w
    } else {
        WinitWindow {
            zoomed: if w.shared.fullscreen is Some {
                w.zoomed
            } else {
                maximized
            },
            shared: SharedState {
                maximized,
                has_standard_frame: w.shared.has_standard_frame || !w.zoomed,
                ..w.shared
            },
            ..w
        }
    }
}

/// The window when fullscreen has ended, before its maximised state is re-applied: no
/// fullscreen state, and the style mask to restore applied (the saved one used up).
pub open spec fn fullscreen_left(w: WinitWindow) -> WinitWindow {
    WinitWindow {
        style_mask: restored_style(w.shared.saved_style, w.style_mask, w.shared.resizable),
        shared: SharedState { fullscreen: None, saved_style: None, ..w.shared },
        ..w
    }
}

/// A window restored from fullscreen: its style restored and its maximised state
/// re-applied.
pub open spec fn restored_from_fullscreen(w: WinitWindow) -> WinitWindow {
    maximized_after(fullscreen_left(w), w.shared.maximized)
}

/// The actions that restore a window from fullscreen.
pub open spec fn restore_actions(w: WinitWindow) -> Seq<WindowAction> {
    seq![WindowAction::SetStyleMask(fullscreen_left(w).style_mask)] + maximize_actions(
        fullscreen_left(w).style_mask,
        w.zoomed,
        false,
        w.shared.maximized,
    )
}

impl WinitWindow {
    /// Makes the window resizable or not. In fullscreen the style mask is left alone until
    /// fullscreen ends.
    pub fn set_resizable(&mut self, resizable: bool) -> (actions: Vec<WindowAction>)
        ensures
            *final(self) == (WinitWindow {
                style_mask: final(self).style_mask,
                shared: SharedState { resizable, ..old(self).shared },
                ..*old(self)
            }),
            if old(self).shared.fullscreen is None {
                let m = with_bit(old(self).style_mask, NS_WINDOW_STYLE_MASK_RESIZABLE, resizable);
                final(self).style_mask == m && actions@ == seq![WindowAction::SetStyleMask(m)]
            } else {
                final(self).style_mask == old(self).style_mask && actions@.len() == 0
            },
    {
        let new_shared = SharedState { resizable, ..self.shared };
        let change = if self.shared.fullscreen.is_none() {
            Some(
                if resizable {
                    self.style_mask | NS_WINDOW_STYLE_MASK_RESIZABLE
                } else {
                    self.style_mask & !NS_WINDOW_STYLE_MASK_RESIZABLE
                },
            )
        } else {
            None
        };
        let mask = match change {
            Some(m) => m,
            None => self.style_mask,
        };
        self.replace_style_and_shared(mask, new_shared);
        style_actions(change)
    }

    /// Enables the close, minimise and maximise buttons as asked. The maximise button is
    /// enabled directly, because its style bit also controls resizability.
    pub fn set_enabled_buttons(&mut self, buttons: WindowButtons) -> (actions: Vec<WindowAction>)
        ensures
            ({
                let m = with_bit(
                    with_bit(old(self).style_mask, NS_WINDOW_STYLE_MASK_CLOSABLE, buttons.close),
                    NS_WINDOW_STYLE_MASK_MINIATURIZABLE,
                    buttons.minimize,
                );
                &&& *final(self) == (WinitWindow {
                    style_mask: m,
                    zoom_button_enabled: buttons.maximize,
                    ..*old(self)
                })
                &&& actions@ == seq![
                    WindowAction::SetStyleMask(m),
                    WindowAction::SetZoomButtonEnabled(buttons.maximize),
                ]
            }),
    {
        let mut mask = self.style_mask;
        if buttons.close {
            mask = mask | NS_WINDOW_STYLE_MASK_CLOSABLE;
        } else {
            mask = mask & !NS_WINDOW_STYLE_MASK_CLOSABLE;
        }
        if buttons.minimize {
            mask = mask | NS_WINDOW_STYLE_MASK_MINIATURIZABLE;
        } else {
            mask = mask & !NS_WINDOW_STYLE_MASK_MINIATURIZABLE;
        }
        let mut actions = Vec::new();
        // This must happen before the button's "enabled" status is set.
        self.set_style_mask(mask, &mut actions);
        self.zoom_button_enabled = buttons.maximize;
        actions.push(WindowAction::SetZoomButtonEnabled(buttons.maximize));
        actions
    }

    /// The enabled title-bar buttons.
    pub fn enabled_buttons(&self) -> (r: WindowButtons)
        ensures
            r.minimize == mask_has(self.style_mask, NS_WINDOW_STYLE_MASK_MINIATURIZABLE),
            r.maximize == self.zoom_button_enabled,
            r.close == mask_has(self.style_mask, NS_WINDOW_STYLE_MASK_CLOSABLE),
    {
        WindowButtons {
            minimize: mask_contains(self.style_mask, NS_WINDOW_STYLE_MASK_MINIATURIZABLE),
            maximize: self.zoom_button_enabled,
            close: mask_contains(self.style_mask, NS_WINDOW_STYLE_MASK_CLOSABLE),
        }
    }

    /// Whether the window is zoomed. `isZoomed` does not work on a borderless window, so
    /// the window is made titled and resizable for the check, then restored.
    pub fn is_zoomed(&mut self, actions: &mut Vec<WindowAction>) -> (r: bool)
        ensures
            r == old(self).zoomed,
            *final(self) == *old(self),
            final(actions)@ == old(actions)@ + zoom_probe_actions(old(self).style_mask),
    {
        let curr_mask = self.style_mask;
        let required = NS_WINDOW_STYLE_MASK_TITLED | NS_WINDOW_STYLE_MASK_RESIZABLE;
        let needs_temp_mask = !mask_contains(curr_mask, required);
        let ghost a0 = actions@;
        if needs_temp_mask {
            self.set_style_mask(required, actions);
        }
        let is_zoomed = self.zoomed;
        // Roll back the temporary style.
        if needs_temp_mask {
            self.set_style_mask(curr_mask, actions);
        }
        proof {
            assert(actions@ =~= a0 + zoom_probe_actions(curr_mask));
        }
        is_zoomed
    }

    /// Whether the window is maximised, that is zoomed.
    pub fn is_maximized(&mut self) -> (r: (bool, Vec<WindowAction>))
        ensures
            r.0 == old(self).zoomed,
            *final(self) == *old(self),
            r.1@ == zoom_probe_actions(old(self).style_mask),
    {
        let mut actions = Vec::new();
        let zoomed = self.is_zoomed(&mut actions);
        proof {
            assert(actions@ =~= zoom_probe_actions(old(self).style_mask));
        }
        (zoomed, actions)
    }

    /// The style mask to restore after fullscreen; the saved mask is used up.
    pub fn saved_style(&mut self) -> (r: usize)
        ensures
            r == restored_style(
                old(self).shared.saved_style,
                old(self).style_mask,
                old(self).shared.resizable,
            ),
            *final(self) == (WinitWindow {
                shared: SharedState { saved_style: None, ..old(self).shared },
                ..*old(self)
            }),
    {
        let base_mask = match self.shared.saved_style.take() {
            Some(m) => m,
            None => self.style_mask,
        };
        if self.shared.resizable {
            base_mask | NS_WINDOW_STYLE_MASK_RESIZABLE
        } else {
            base_mask & !NS_WINDOW_STYLE_MASK_RESIZABLE
        }
    }

    /// Minimises or restores the window, unless it already is so.
    pub fn set_minimized(&mut self, minimized: bool) -> (actions: Vec<WindowAction>)
        ensures
            *final(self) == (WinitWindow { miniaturized: minimized, ..*old(self) }),
            actions@ == (if old(self).miniaturized == minimized {
                Seq::empty()
            } else if minimized {
                seq![WindowAction::Miniaturize]
            } else {
                seq![WindowAction::Deminiaturize]
            }),
    {
        let mut actions = Vec::new();
        if self.miniaturized == minimized {
            assert(actions@ =~= Seq::<WindowAction>::empty());
            return actions;
        }
        if minimized {
            actions.push(WindowAction::Miniaturize);
        } else {
            actions.push(WindowAction::Deminiaturize);
        }
        self.miniaturized = minimized;
        actions
    }

    /// Maximises or restores the window, unless it already is so.
    ///
    /// The unzoomed frame is saved before zooming. In fullscreen only the wish is recorded
    /// (it is applied when fullscreen ends). A resizable window zooms natively; another one
    /// gets the screen's visible frame, or back its saved frame.
    pub fn set_maximized(&mut self, maximized: bool) -> (actions: Vec<WindowAction>)
        ensures
            *final(self) == maximized_after(*old(self), maximized),
            actions@ == maximize_actions(
                old(self).style_mask,
                old(self).zoomed,
                old(self).shared.fullscreen is Some,
                maximized,
            ),
    {
        let mut actions = Vec::new();
        let is_zoomed = self.is_zoomed(&mut actions);
        if is_zoomed == maximized {
            return actions;
        }
        // Save the standard frame if the window is not zoomed.
        if !is_zoomed {
            actions.push(WindowAction::SaveStandardFrame);
            self.shared.has_standard_frame = true;
        }
        let ghost a1 = actions@;
        self.shared.maximized = maximized;
        if self.shared.fullscreen.is_some() {
            // Applied when the window leaves fullscreen.
            proof {
                assert(actions@ =~= a1 + Seq::<WindowAction>::empty());
            }
            return actions;
        }
        if mask_contains(self.style_mask, NS_WINDOW_STYLE_MASK_RESIZABLE) {
            // Use the native zoom if resizable.
            actions.push(WindowAction::Zoom);
        } else if maximized {
            // Not resizable: set the frame directly.
            actions.push(WindowAction::SetFrameToVisibleScreen);
        } else {
            actions.push(WindowAction::SetFrameToStandardFrame);
        }
        self.zoomed = maximized;
        actions
    }

    /// Leaving fullscreen (by the green button or `toggleFullScreen:`): forgets the
    /// fullscreen state, restores the saved style and re-applies the maximised state.
    pub fn restore_state_from_fullscreen(&mut self) -> (actions: Vec<WindowAction>)
        ensures
            *final(self) == restored_from_fullscreen(*old(self)),
            actions@ == restore_actions(*old(self)),
    {
        self.shared.fullscreen = None;
        let maximized = self.shared.maximized;
        let mask = self.saved_style();
        let mut actions = Vec::new();
        self.set_style_mask(mask, &mut actions);
        let mut rest = self.set_maximized(maximized);
        actions.append(&mut rest);
        actions
    }

    /// Adds or removes the window's decorations. In fullscreen the style mask is applied
    /// when fullscreen ends.
    pub fn set_decorations(&mut self, decorations: bool) -> (actions: Vec<WindowAction>)
        ensures
            *final(self) == decorations_set(*old(self), decorations),
            actions@ == (if decorations == old(self).shared.decorations || old(
                self,
            ).shared.fullscreen is Some {
                Seq::empty()
            } else {
                seq![WindowAction::SetStyleMask(decorations_mask(decorations, old(self).shared.resizable))]
            }),
    {
        if decorations == self.shared.decorations {
            return Vec::new();
        }
        let new_shared = SharedState { decorations, ..self.shared };
        let change = if self.shared.fullscreen.is_some() {
            None
        } else {
            Some(decorations_style(decorations, self.shared.resizable))
        };
        let mask = match change {
            Some(m) => m,
            None => self.style_mask,
        };
        self.replace_style_and_shared(mask, new_shared);
        style_actions(change)
    }

    /// Sets the style mask and the shared state.
    fn replace_style_and_shared(&mut self, mask: usize, shared: SharedState)
        ensures
            *final(self) == (WinitWindow { style_mask: mask, shared, ..*old(self) }),
    {
        self.style_mask = mask;
        self.shared = shared;
    }
}

/// The window after its decorations are set: the setting recorded and, out of fullscreen,
/// the style mask that it gives applied; unchanged when the setting is the same.
pub open spec fn decorations_set(w: WinitWindow, decorations: bool) -> WinitWindow {
    if decorations == w.shared.decorations {
        w
    } else {
        WinitWindow {
            style_mask: if w.shared.fullscreen is Some {
                w.style_mask
            } else {
                decorations_mask(decorations, w.shared.resizable)
            },
            shared: SharedState { decorations, ..w.shared },
            ..w
        }
    }
}

/// The style mask that a window's decorations setting gives it.
fn decorations_style(decorations: bool, resizable: bool) -> (r: usize)
    ensures
        r == decorations_mask(decorations, resizable),
{
    let new_mask = if decorations {
        NS_WINDOW_STYLE_MASK_CLOSABLE | NS_WINDOW_STYLE_MASK_MINIATURIZABLE
            | NS_WINDOW_STYLE_MASK_RESIZABLE | NS_WINDOW_STYLE_MASK_TITLED
    } else {
        NS_WINDOW_STYLE_MASK_BORDERLESS | NS_WINDOW_STYLE_MASK_RESIZABLE
    };
    if !resizable {
        new_mask & !NS_WINDOW_STYLE_MASK_RESIZABLE
    } else {
        new_mask
    }
}

/// The action that applies a new style mask, if there is one.
fn style_actions(change: Option<usize>) -> (actions: Vec<WindowAction>)
    ensures
        actions@ == match change {
            Some(m) => seq![WindowAction::SetStyleMask(m)],
            None => Seq::empty(),
        },
{
    let mut actions = Vec::new();
    if let Some(m) = change {
        actions.push(WindowAction::SetStyleMask(m));
    }
    proof {
        if change is None {
            assert(actions@ =~= Seq::<WindowAction>::empty());
        }
    }
    actions
}

/// The monitor that a fullscreen mode is shown on: the one it names, the current one for
/// a borderless mode that names none, or the video mode's.
pub open spec fn fullscreen_screen(fullscreen: Fullscreen, current_monitor: Option<u32>) -> Option<u32> {
    match fullscreen {
        Fullscreen::Borderless(Some(monitor)) => Some(monitor),
        Fullscreen::Borderless(None) => current_monitor,
        Fullscreen::Exclusive(mode) => Some(mode.monitor),
    }
}

/// `toggleFullScreen:` only works at the normal window level.
pub open spec fn toggle_fullscreen_actions() -> Seq<WindowAction> {
    seq![WindowAction::SetLevel(K_CG_NORMAL_WINDOW_LEVEL), WindowAction::ToggleFullScreen]
}

/// Exclusive fullscreen hides the dock and the menu bar.
pub open spec fn exclusive_presentation() -> usize {
    NS_PRESENTATION_FULL_SCREEN | NS_PRESENTATION_HIDE_DOCK | NS_PRESENTATION_HIDE_MENU_BAR
}

/// Borderless fullscreen of a game hides the dock and the menu bar.
pub open spec fn hidden_presentation() -> usize {
    NS_PRESENTATION_HIDE_DOCK | NS_PRESENTATION_HIDE_MENU_BAR
}

/// What borderless fullscreen falls back to when leaving exclusive fullscreen without
/// saved options.
pub open spec fn auto_hide_fullscreen_presentation() -> usize {
    NS_PRESENTATION_FULL_SCREEN | NS_PRESENTATION_AUTO_HIDE_DOCK
        | NS_PRESENTATION_AUTO_HIDE_MENU_BAR
}

/// Whether a request for a fullscreen state changes anything: not in simple fullscreen,
/// not during a transition, a state other than the current one, on a known monitor.
pub open spec fn fullscreen_applies(
    w: WinitWindow,
    fullscreen: Option<Fullscreen>,
    current_monitor: Option<u32>,
) -> bool {
    &&& !w.shared.is_simple_fullscreen
    &&& !w.shared.in_fullscreen_transition
    &&& fullscreen != w.shared.fullscreen
    &&& (fullscreen matches Some(f) ==> fullscreen_screen(f, current_monitor) is Some)
}

/// Whether entering fullscreen needs the window to be made titled and resizable first.
pub open spec fn fullscreen_needs_temp_style(w: WinitWindow, fullscreen: Option<Fullscreen>) -> bool {
    &&& w.shared.fullscreen is None
    &&& fullscreen is Some
    &&& !mask_has(w.style_mask, titled_resizable())
}

/// Whether the change is from borderless to exclusive fullscreen.
pub open spec fn borderless_to_exclusive(from: Option<Fullscreen>, to: Option<Fullscreen>) -> bool {
    (from matches Some(Fullscreen::Borderless(_))) && (to matches Some(Fullscreen::Exclusive(_)))
}

/// Whether the change is from exclusive to borderless fullscreen.
pub open spec fn exclusive_to_borderless(from: Option<Fullscreen>, to: Option<Fullscreen>) -> bool {
    (from matches Some(Fullscreen::Exclusive(_))) && (to matches Some(Fullscreen::Borderless(_)))
}

/// The application's presentation options after a fullscreen change from `from` to `to`.
pub open spec fn presentation_after_fullscreen(
    from: Option<Fullscreen>,
    to: Option<Fullscreen>,
    options: usize,
    saved_options: Option<usize>,
    borderless_game: bool,
) -> usize {
    if from is None && (to matches Some(Fullscreen::Borderless(_))) && borderless_game {
        hidden_presentation()
    } else if borderless_to_exclusive(from, to) {
        exclusive_presentation()
    } else if exclusive_to_borderless(from, to) {
        match saved_options {
            Some(opts) => opts,
            None => auto_hide_fullscreen_presentation(),
        }
    } else {
        options
    }
}

/// The window level after a fullscreen change from `from` to `to`: just above the
/// shielding window from borderless to exclusive, unchanged between two modes of one kind,
/// else normal.
pub open spec fn level_after_fullscreen(
    from: Option<Fullscreen>,
    to: Option<Fullscreen>,
    level: isize,
    shielding_level: isize,
) -> isize {
    if borderless_to_exclusive(from, to) {
        (shielding_level + 1) as isize
    } else if (from matches Some(Fullscreen::Borderless(_))) && (to matches Some(
        Fullscreen::Borderless(_),
    )) {
        level
    } else if (from matches Some(Fullscreen::Exclusive(_))) && (to matches Some(
        Fullscreen::Exclusive(_),
    )) {
        level
    } else {
        K_CG_NORMAL_WINDOW_LEVEL
    }
}

/// The window after a request for a fullscreen state: unchanged in simple fullscreen;
/// the request kept for later during a transition; otherwise, if it changes anything, the
/// to state with the style, level and presentation options it needs.
pub open spec fn fullscreen_after(
    w: WinitWindow,
    fullscreen: Option<Fullscreen>,
    current_monitor: Option<u32>,
    shielding_level: isize,
    borderless_game: bool,
) -> WinitWindow {
    if w.shared.is_simple_fullscreen {
        w
    } else if w.shared.in_fullscreen_transition {
        WinitWindow {
            shared: SharedState { target_fullscreen: Some(fullscreen), ..w.shared },
            ..w
        }
    } else if !fullscreen_applies(w, fullscreen, current_monitor) {
        w
    } else {
        fullscreen_switched(w, fullscreen, shielding_level, borderless_game)
    }
}

/// The window after a change of its fullscreen state.
pub open spec fn fullscreen_switched(
    w: WinitWindow,
    fullscreen: Option<Fullscreen>,
    shielding_level: isize,
    borderless_game: bool,
) -> WinitWindow {
    let temp_style = fullscreen_needs_temp_style(w, fullscreen);
    WinitWindow {
        style_mask: if temp_style { titled_resizable() } else { w.style_mask },
        level: level_after_fullscreen(w.shared.fullscreen, fullscreen, w.level, shielding_level),
        presentation_options: presentation_after_fullscreen(
            w.shared.fullscreen,
            fullscreen,
            w.presentation_options,
            w.shared.save_presentation_opts,
            borderless_game,
        ),
        shared: SharedState {
            fullscreen,
            saved_style: if temp_style { Some(w.style_mask) } else { w.shared.saved_style },
            save_presentation_opts: if borderless_to_exclusive(w.shared.fullscreen, fullscreen) {
                Some(w.presentation_options)
            } else {
                w.shared.save_presentation_opts
            },
            ..w.shared
        },
        ..w
    }
}

/// The actions that switch from the fullscreen state `from` to `to`, after the window was
/// moved to its monitor and an exclusive mode's display was captured.
pub open spec fn fullscreen_switch_actions(
    from: Option<Fullscreen>,
    to: Option<Fullscreen>,
    style_mask: usize,
    saved_options: Option<usize>,
    shielding_level: isize,
    borderless_game: bool,
) -> Seq<WindowAction> {
    match (from, to) {
        (None, Some(f)) => (if !mask_has(style_mask, titled_resizable()) {
            seq![WindowAction::SetStyleMask(titled_resizable())]
        } else {
            Seq::empty()
        }) + (if borderless_game && (f is Borderless) {
            seq![WindowAction::SetPresentationOptions(hidden_presentation())]
        } else {
            Seq::empty()
        }) + toggle_fullscreen_actions(),
        (Some(Fullscreen::Borderless(_)), None) => toggle_fullscreen_actions(),
        (Some(Fullscreen::Exclusive(mode)), None) => seq![WindowAction::ReleaseDisplay(mode.monitor)]
            + toggle_fullscreen_actions(),
        (Some(Fullscreen::Borderless(_)), Some(Fullscreen::Exclusive(_))) => seq![
            WindowAction::SetPresentationOptions(exclusive_presentation()),
            WindowAction::SetLevel((shielding_level + 1) as isize),
        ],
        (Some(Fullscreen::Exclusive(mode)), Some(Fullscreen::Borderless(_))) => seq![
            WindowAction::SetPresentationOptions(match saved_options {
                Some(opts) => opts,
                None => auto_hide_fullscreen_presentation(),
            }),
            WindowAction::ReleaseDisplay(mode.monitor),
            WindowAction::SetLevel(K_CG_NORMAL_WINDOW_LEVEL),
        ],
        _ => Seq::empty(),
    }
}

/// The actions that change the fullscreen state from `from` to `to`: move the window to
/// the monitor `screen`, capture the display of an exclusive mode, then switch.
pub open spec fn fullscreen_change_actions(
    from: Option<Fullscreen>,
    to: Option<Fullscreen>,
    screen: u32,
    style_mask: usize,
    saved_options: Option<usize>,
    shielding_level: isize,
    borderless_game: bool,
) -> Seq<WindowAction> {
    (if to is Some {
        seq![WindowAction::MoveToDisplay(screen)]
    } else {
        Seq::empty()
    }) + (match to {
        Some(Fullscreen::Exclusive(mode)) => seq![WindowAction::CaptureDisplay(mode)],
        _ => Seq::empty(),
    }) + fullscreen_switch_actions(
        from,
        to,
        style_mask,
        saved_options,
        shielding_level,
        borderless_game,
    )
}

/// The actions of a request for a fullscreen state: none unless it changes something.
pub open spec fn fullscreen_actions(
    w: WinitWindow,
    fullscreen: Option<Fullscreen>,
    current_monitor: Option<u32>,
    shielding_level: isize,
    borderless_game: bool,
) -> Seq<WindowAction> {
    if !fullscreen_applies(w, fullscreen, current_monitor) {
        Seq::empty()
    } else {
        fullscreen_change_actions(
            w.shared.fullscreen,
            fullscreen,
            match fullscreen {
                Some(f) => fullscreen_screen(f, current_monitor)->0,
                None => 0,
            },
            w.style_mask,
            w.shared.save_presentation_opts,
            shielding_level,
            borderless_game,
        )
    }
}

/// The actions that change the fullscreen state.
fn change_fullscreen_actions(
    from: Option<Fullscreen>,
    to: Option<Fullscreen>,
    screen: u32,
    style_mask: usize,
    saved_options: Option<usize>,
    shielding_level: isize,
    borderless_game: bool,
) -> (actions: Vec<WindowAction>)
    requires
        shielding_level < isize::MAX,
    ensures
        actions@ == fullscreen_change_actions(
            from,
            to,
            screen,
            style_mask,
            saved_options,
            shielding_level,
            borderless_game,
        ),
{
    let mut actions: Vec<WindowAction> = Vec::new();
    // `toggleFullScreen:` uses the current screen, so the window moves first.
    if to.is_some() {
        actions.push(WindowAction::MoveToDisplay(screen));
    }
    if let Some(Fullscreen::Exclusive(mode)) = to {
        actions.push(WindowAction::CaptureDisplay(mode));
    }
    let ghost prefix = actions@;
    push_switch_actions(
        &mut actions,
        from,
        to,
        style_mask,
        saved_options,
        shielding_level,
        borderless_game,
    );
    proof {
        assert(prefix =~= (if to is Some {
            seq![WindowAction::MoveToDisplay(screen)]
        } else {
            Seq::empty()
        }) + (match to {
            Some(Fullscreen::Exclusive(mode)) => seq![WindowAction::CaptureDisplay(mode)],
            _ => Seq::<WindowAction>::empty(),
        }));
        assert(actions@ =~= fullscreen_change_actions(
            from,
            to,
            screen,
            style_mask,
            saved_options,
            shielding_level,
            borderless_game,
        ));
    }
    actions
}

/// Whether a change goes from borderless to exclusive fullscreen.
fn is_borderless_to_exclusive(from: Option<Fullscreen>, to: Option<Fullscreen>) -> (r: bool)
    ensures
        r == borderless_to_exclusive(from, to),
{
    match (from, to) {
        (Some(Fullscreen::Borderless(_)), Some(Fullscreen::Exclusive(_))) => true,
        _ => false,
    }
}

/// The window level after a fullscreen change.
fn fullscreen_level(
    from: Option<Fullscreen>,
    to: Option<Fullscreen>,
    level: isize,
    shielding_level: isize,
) -> (r: isize)
    requires
        shielding_level < isize::MAX,
    ensures
        r == level_after_fullscreen(from, to, level, shielding_level),
{
    match (from, to) {
        (Some(Fullscreen::Borderless(_)), Some(Fullscreen::Exclusive(_))) => shielding_level + 1,
        (Some(Fullscreen::Borderless(_)), Some(Fullscreen::Borderless(_))) => level,
        (Some(Fullscreen::Exclusive(_)), Some(Fullscreen::Exclusive(_))) => level,
        _ => K_CG_NORMAL_WINDOW_LEVEL,
    }
}

/// The presentation options after a fullscreen change.
fn fullscreen_presentation(
    from: Option<Fullscreen>,
    to: Option<Fullscreen>,
    options: usize,
    saved_options: Option<usize>,
    borderless_game: bool,
) -> (r: usize)
    ensures
        r == presentation_after_fullscreen(from, to, options, saved_options, borderless_game),
{
    match (from, to) {
        (None, Some(Fullscreen::Borderless(_))) => if borderless_game {
            NS_PRESENTATION_HIDE_DOCK | NS_PRESENTATION_HIDE_MENU_BAR
        } else {
            options
        },
        (Some(Fullscreen::Borderless(_)), Some(Fullscreen::Exclusive(_))) => NS_PRESENTATION_FULL_SCREEN
            | NS_PRESENTATION_HIDE_DOCK | NS_PRESENTATION_HIDE_MENU_BAR,
        (Some(Fullscreen::Exclusive(_)), Some(Fullscreen::Borderless(_))) => match saved_options {
            Some(opts) => opts,
            None => NS_PRESENTATION_FULL_SCREEN | NS_PRESENTATION_AUTO_HIDE_DOCK
                | NS_PRESENTATION_AUTO_HIDE_MENU_BAR,
        },
        _ => options,
    }
}

/// Appends the actions that switch from one fullscreen state to another.
fn push_switch_actions(
    actions: &mut Vec<WindowAction>,
    from: Option<Fullscreen>,
    to: Option<Fullscreen>,
    style_mask: usize,
    saved_options: Option<usize>,
    shielding_level: isize,
    borderless_game: bool,
)
    requires
        shielding_level < isize::MAX,
    ensures
        final(actions)@ == old(actions)@ + fullscreen_switch_actions(
            from,
            to,
            style_mask,
            saved_options,
            shielding_level,
            borderless_game,
        ),
{
    let ghost a0 = actions@;
    match (from, to) {
        (None, Some(f)) => {
            let required = NS_WINDOW_STYLE_MASK_TITLED | NS_WINDOW_STYLE_MASK_RESIZABLE;
            if !mask_contains(style_mask, required) {
                actions.push(WindowAction::SetStyleMask(required));
            }
            let ghost a1 = actions@;
            if borderless_game {
                if let Fullscreen::Borderless(_) = f {
                    actions.push(
                        WindowAction::SetPresentationOptions(
                            NS_PRESENTATION_HIDE_DOCK | NS_PRESENTATION_HIDE_MENU_BAR,
                        ),
                    );
                }
            }
            let ghost a2 = actions@;
            actions.push(WindowAction::SetLevel(K_CG_NORMAL_WINDOW_LEVEL));
            actions.push(WindowAction::ToggleFullScreen);
            proof {
                assert(actions@ =~= a0 + (a1.skip(a0.len() as int)) + (a2.skip(a1.len() as int))
                    + toggle_fullscreen_actions());
            }
        },
        (Some(Fullscreen::Borderless(_)), None) => {
            actions.push(WindowAction::SetLevel(K_CG_NORMAL_WINDOW_LEVEL));
            actions.push(WindowAction::ToggleFullScreen);
        },
        (Some(Fullscreen::Exclusive(mode)), None) => {
            actions.push(WindowAction::ReleaseDisplay(mode.monitor));
            actions.push(WindowAction::SetLevel(K_CG_NORMAL_WINDOW_LEVEL));
            actions.push(WindowAction::ToggleFullScreen);
        },
        (Some(Fullscreen::Borderless(_)), Some(Fullscreen::Exclusive(_))) => {
            // Above the shielding window of the captured display; the menu bar is then
            // hidden.
            actions.push(
                WindowAction::SetPresentationOptions(
                    NS_PRESENTATION_FULL_SCREEN | NS_PRESENTATION_HIDE_DOCK
                        | NS_PRESENTATION_HIDE_MENU_BAR,
                ),
            );
            actions.push(WindowAction::SetLevel(shielding_level + 1));
        },
        (Some(Fullscreen::Exclusive(mode)), Some(Fullscreen::Borderless(_))) => {
            let opts = match saved_options {
                Some(opts) => opts,
                None => NS_PRESENTATION_FULL_SCREEN | NS_PRESENTATION_AUTO_HIDE_DOCK
                    | NS_PRESENTATION_AUTO_HIDE_MENU_BAR,
            };
            actions.push(WindowAction::SetPresentationOptions(opts));
            actions.push(WindowAction::ReleaseDisplay(mode.monitor));
            actions.push(WindowAction::SetLevel(K_CG_NORMAL_WINDOW_LEVEL));
        },
        _ => {},
    }
    proof {
        assert(actions@ =~= a0 + fullscreen_switch_actions(
            from,
            to,
            style_mask,
            saved_options,
            shielding_level,
            borderless_game,
        ));
    }
}

/// Whether two fullscreen states are the same.
fn same_fullscreen(a: Option<Fullscreen>, b: Option<Fullscreen>) -> (r: bool)
    ensures
        r == (a == b),
{
    match (a, b) {
        (None, None) => true,
        (Some(x), Some(y)) => x == y,
        _ => false,
    }
}

impl WinitWindow {
    /// The current fullscreen state.
    pub fn fullscreen(&self) -> (r: Option<Fullscreen>)
        ensures
            r == self.shared.fullscreen,
    {
        self.shared.fullscreen
    }

    /// The style mask, level, presentation options, saved style and saved presentation
    /// options after a change of the fullscreen state.
    fn switched_fields(
        &self,
        fullscreen: Option<Fullscreen>,
        shielding_level: isize,
        borderless_game: bool,
    ) -> (r: (usize, isize, usize, Option<usize>, Option<usize>))
        requires
            shielding_level < isize::MAX,
        ensures
            r.0 == fullscreen_switched(*self, fullscreen, shielding_level, borderless_game).style_mask,
            r.1 == fullscreen_switched(*self, fullscreen, shielding_level, borderless_game).level,
            r.2 == fullscreen_switched(
                *self,
                fullscreen,
                shielding_level,
                borderless_game,
            ).presentation_options,
            r.3 == fullscreen_switched(
                *self,
                fullscreen,
                shielding_level,
                borderless_game,
            ).shared.saved_style,
            r.4 == fullscreen_switched(
                *self,
                fullscreen,
                shielding_level,
                borderless_game,
            ).shared.save_presentation_opts,
    {
        let old_fullscreen = self.shared.fullscreen;
        let curr_mask = self.style_mask;
        let curr_presentation = self.presentation_options;
        let saved_options = self.shared.save_presentation_opts;
        let required = NS_WINDOW_STYLE_MASK_TITLED | NS_WINDOW_STYLE_MASK_RESIZABLE;
        // A fullscreen toggle needs a titled, resizable window; the style is restored when
        // fullscreen ends.
        let temp_style = old_fullscreen.is_none() && fullscreen.is_some() && !mask_contains(
            curr_mask,
            required,
        );
        let presentation = fullscreen_presentation(
            old_fullscreen,
            fullscreen,
            curr_presentation,
            saved_options,
            borderless_game,
        );
        let level = fullscreen_level(old_fullscreen, fullscreen, self.level, shielding_level);
        let new_mask = if temp_style {
            required
        } else {
            curr_mask
        };
        let new_saved_style = if temp_style {
            Some(curr_mask)
        } else {
            self.shared.saved_style
        };
        // Restored when going back to borderless fullscreen.
        let new_saved_options = if is_borderless_to_exclusive(old_fullscreen, fullscreen) {
            Some(curr_presentation)
        } else {
            saved_options
        };
        (new_mask, level, presentation, new_saved_style, new_saved_options)
    }

    /// Sets the fields that a change of the fullscreen state changes.
    fn set_fullscreen_fields(
        &mut self,
        fullscreen: Option<Fullscreen>,
        fields: (usize, isize, usize, Option<usize>, Option<usize>),
    )
        ensures
            *final(self) == (WinitWindow {
                style_mask: fields.0,
                level: fields.1,
                presentation_options: fields.2,
                shared: SharedState {
                    fullscreen,
                    saved_style: fields.3,
                    save_presentation_opts: fields.4,
                    ..old(self).shared
                },
                ..*old(self)
            }),
    {
        self.style_mask = fields.0;
        self.level = fields.1;
        self.presentation_options = fields.2;
        self.shared = SharedState {
            fullscreen,
            saved_style: fields.3,
            save_presentation_opts: fields.4,
            ..self.shared
        };
    }

    /// Switches to another fullscreen state: the new state, with the style, level and
    /// presentation options it needs.
    fn switch_fullscreen(
        &mut self,
        fullscreen: Option<Fullscreen>,
        shielding_level: isize,
        borderless_game: bool,
    )
        requires
            shielding_level < isize::MAX,
        ensures
            *final(self) == fullscreen_switched(*old(self), fullscreen, shielding_level, borderless_game),
    {
        let fields = self.switched_fields(fullscreen, shielding_level, borderless_game);
        self.set_fullscreen_fields(fullscreen, fields);
    }

    /// Enters, leaves or changes fullscreen; the game variant of borderless fullscreen
    /// also hides the dock and menu bar.
    pub(crate) fn apply_fullscreen(
        &mut self,
        fullscreen: Option<Fullscreen>,
        current_monitor: Option<u32>,
        shielding_level: isize,
        borderless_game: bool,
    ) -> (actions: Vec<WindowAction>)
        requires
            shielding_level < isize::MAX,
        ensures
            *final(self) == fullscreen_after(
                *old(self),
                fullscreen,
                current_monitor,
                shielding_level,
                borderless_game,
            ),
            actions@ == fullscreen_actions(
                *old(self),
                fullscreen,
                current_monitor,
                shielding_level,
                borderless_game,
            ),
    {
        if self.shared.is_simple_fullscreen {
            return Vec::new();
        }
        if self.shared.in_fullscreen_transition {
            // Applied when the transition ends.
            self.shared.target_fullscreen = Some(fullscreen);
            return Vec::new();
        }
        if same_fullscreen(fullscreen, self.shared.fullscreen) {
            return Vec::new();
        }
        let screen = match fullscreen {
            Some(Fullscreen::Borderless(Some(monitor))) => monitor,
            Some(Fullscreen::Borderless(None)) => match current_monitor {
                Some(monitor) => monitor,
                None => {
                    // No monitor to show the window on.
                    return Vec::new();
                },
            },
            Some(Fullscreen::Exclusive(mode)) => mode.monitor,
            None => 0,
        };
        let actions = change_fullscreen_actions(
            self.shared.fullscreen,
            fullscreen,
            screen,
            self.style_mask,
            self.shared.save_presentation_opts,
            shielding_level,
            borderless_game,
        );
        self.switch_fullscreen(fullscreen, shielding_level, borderless_game);
        actions
    }

    /// Enters, leaves or changes fullscreen. Nothing happens in simple fullscreen; during
    /// a transition the request waits for its end.
    pub fn set_fullscreen(
        &mut self,
        fullscreen: Option<Fullscreen>,
        current_monitor: Option<u32>,
        shielding_level: isize,
    ) -> (actions: Vec<WindowAction>)
        requires
            shielding_level < isize::MAX,
        ensures
            *final(self) == fullscreen_after(
                *old(self),
                fullscreen,
                current_monitor,
                shielding_level,
                false,
            ),
            actions@ == fullscreen_actions(
                *old(self),
                fullscreen,
                current_monitor,
                shielding_level,
                false,
            ),
    {
        self.apply_fullscreen(fullscreen, current_monitor, shielding_level, false)
    }
}

/// The presentation options of simple fullscreen: the dock and the menu bar hidden for a
/// borderless game, shown on demand otherwise.
pub open spec fn simple_fullscreen_presentation(borderless_game: bool) -> usize {
    if borderless_game {
        NS_PRESENTATION_HIDE_DOCK | NS_PRESENTATION_HIDE_MENU_BAR
    } else {
        NS_PRESENTATION_AUTO_HIDE_DOCK | NS_PRESENTATION_AUTO_HIDE_MENU_BAR
    }
}

/// Whether a request for simple fullscreen changes anything: native fullscreen is off and
/// the request differs from the current state.
pub open spec fn simple_fullscreen_applies(w: WinitWindow, fullscreen: bool) -> bool {
    w.shared.fullscreen is None && fullscreen != w.shared.is_simple_fullscreen
}

/// The window after a request for simple fullscreen. Entering saves the style, the
/// presentation options and the content frame, hides the title bar and forbids resizing,
/// minimising and moving; leaving restores them.
pub open spec fn simple_fullscreen_after(w: WinitWindow, fullscreen: bool, borderless_game: bool) -> WinitWindow {
    if !simple_fullscreen_applies(w, fullscreen) {
        w
    } else if fullscreen {
        WinitWindow {
            style_mask: w.style_mask & !NS_WINDOW_STYLE_MASK_TITLED
                & !NS_WINDOW_STYLE_MASK_MINIATURIZABLE & !NS_WINDOW_STYLE_MASK_RESIZABLE,
            movable: false,
            presentation_options: simple_fullscreen_presentation(borderless_game),
            shared: SharedState {
                has_standard_frame: true,
                saved_style: Some(w.style_mask),
                save_presentation_opts: Some(w.presentation_options),
                is_simple_fullscreen: true,
                ..w.shared
            },
            ..w
        }
    } else {
        WinitWindow {
            style_mask: restored_style(w.shared.saved_style, w.style_mask, w.shared.resizable),
            movable: true,
            presentation_options: match w.shared.save_presentation_opts {
                Some(opts) => opts,
                None => w.presentation_options,
            },
            shared: SharedState { saved_style: None, is_simple_fullscreen: false, ..w.shared },
            ..w
        }
    }
}

/// The actions that enter simple fullscreen.
pub open spec fn simple_fullscreen_enter_actions(w: WinitWindow, borderless_game: bool) -> Seq<
    WindowAction,
> {
    let m1 = w.style_mask & !NS_WINDOW_STYLE_MASK_TITLED;
    let m2 = m1 & !NS_WINDOW_STYLE_MASK_MINIATURIZABLE;
    let m3 = m2 & !NS_WINDOW_STYLE_MASK_RESIZABLE;
    seq![
        WindowAction::SaveContentRectAsStandardFrame,
        WindowAction::SetPresentationOptions(simple_fullscreen_presentation(borderless_game)),
        WindowAction::SetStyleMask(m1),
        WindowAction::SetFrameToScreen,
        WindowAction::SetStyleMask(m2),
        WindowAction::SetStyleMask(m3),
        WindowAction::SetMovable(false),
    ]
}

/// The presentation options restored when simple fullscreen ends, if any were saved.
pub open spec fn restore_presentation_actions(w: WinitWindow) -> Seq<WindowAction> {
    match w.shared.save_presentation_opts {
        Some(opts) => seq![WindowAction::SetPresentationOptions(opts)],
        None => Seq::empty(),
    }
}

/// The actions that leave simple fullscreen: the saved style, presentation options, frame
/// and movability are restored, the style first or, with `style_last`, last.
pub open spec fn simple_fullscreen_exit_actions(w: WinitWindow, style_last: bool) -> Seq<WindowAction> {
    let style = seq![WindowAction::SetStyleMask(restored_style(w.shared.saved_style, w.style_mask, w.shared.resizable))];
    let rest = restore_presentation_actions(w) + seq![
        WindowAction::SetFrameToStandardFrame,
        WindowAction::SetMovable(true),
    ];
    if style_last {
        rest + style
    } else {
        style + rest
    }
}

/// The actions of a request for simple fullscreen on a window: when leaving, the style is
/// restored first, then the presentation options, the frame and movability.
pub open spec fn simple_fullscreen_actions(w: WinitWindow, fullscreen: bool) -> Seq<WindowAction> {
    if !simple_fullscreen_applies(w, fullscreen) {
        Seq::empty()
    } else if fullscreen {
        simple_fullscreen_enter_actions(w, false)
    } else {
        simple_fullscreen_exit_actions(w, false)
    }
}

impl WinitWindow {
    /// Sets or clears bits of the style mask.
    fn toggle_style_mask(&mut self, mask: usize, on: bool, actions: &mut Vec<WindowAction>)
        ensures
            *final(self) == (WinitWindow {
                style_mask: if on {
                    old(self).style_mask | mask
                } else {
                    old(self).style_mask & !mask
                },
                ..*old(self)
            }),
            final(actions)@ == old(actions)@.push(WindowAction::SetStyleMask(final(self).style_mask)),
    {
        let current = self.style_mask;
        let new_mask = if on {
            current | mask
        } else {
            current & !mask
        };
        self.style_mask = new_mask;
        actions.push(WindowAction::SetStyleMask(new_mask));
    }

    /// Enters simple fullscreen (the pre-Lion kind, without a new space).
    pub(crate) fn enter_simple_fullscreen(&mut self, borderless_game: bool, actions: &mut Vec<WindowAction>)
        requires
            simple_fullscreen_applies(*old(self), true),
        ensures
            *final(self) == simple_fullscreen_after(*old(self), true, borderless_game),
            final(actions)@ == old(actions)@ + simple_fullscreen_enter_actions(
                *old(self),
                borderless_game,
            ),
    {
        let ghost a0 = actions@;
        // The frame without the title bar.
        actions.push(WindowAction::SaveContentRectAsStandardFrame);
        self.shared.has_standard_frame = true;
        self.shared.saved_style = Some(self.style_mask);
        self.shared.save_presentation_opts = Some(self.presentation_options);
        self.shared.is_simple_fullscreen = true;
        let presentation = if borderless_game {
            NS_PRESENTATION_HIDE_DOCK | NS_PRESENTATION_HIDE_MENU_BAR
        } else {
            NS_PRESENTATION_AUTO_HIDE_DOCK | NS_PRESENTATION_AUTO_HIDE_MENU_BAR
        };
        self.presentation_options = presentation;
        actions.push(WindowAction::SetPresentationOptions(presentation));
        // No title bar.
        self.toggle_style_mask(NS_WINDOW_STYLE_MASK_TITLED, false, actions);
        actions.push(WindowAction::SetFrameToScreen);
        // Not resizable, minimisable or movable.
        self.toggle_style_mask(NS_WINDOW_STYLE_MASK_MINIATURIZABLE, false, actions);
        self.toggle_style_mask(NS_WINDOW_STYLE_MASK_RESIZABLE, false, actions);
        self.movable = false;
        actions.push(WindowAction::SetMovable(false));
        proof {
            assert(actions@ =~= a0 + simple_fullscreen_enter_actions(*old(self), borderless_game));
        }
    }

    /// The style mask to restore after fullscreen, without using up the saved mask.
    fn style_to_restore(&self) -> (r: usize)
        ensures
            r == restored_style(self.shared.saved_style, self.style_mask, self.shared.resizable),
    {
        let base_mask = match self.shared.saved_style {
            Some(m) => m,
            None => self.style_mask,
        };
        if self.shared.resizable {
            base_mask | NS_WINDOW_STYLE_MASK_RESIZABLE
        } else {
            base_mask & !NS_WINDOW_STYLE_MASK_RESIZABLE
        }
    }

    /// Sets the fields that leaving simple fullscreen restores.
    fn set_simple_exit_fields(&mut self, mask: usize, presentation: usize)
        ensures
            *final(self) == (WinitWindow {
                style_mask: mask,
                movable: true,
                presentation_options: presentation,
                shared: SharedState {
                    saved_style: None,
                    is_simple_fullscreen: false,
                    ..old(self).shared
                },
                ..*old(self)
            }),
    {
        self.style_mask = mask;
        self.movable = true;
        self.presentation_options = presentation;
        self.shared = SharedState { saved_style: None, is_simple_fullscreen: false, ..self.shared };
    }

    /// The actions that leave simple fullscreen.
    fn simple_exit_actions(&self, style_last: bool) -> (actions: Vec<WindowAction>)
        ensures
            actions@ == simple_fullscreen_exit_actions(*self, style_last),
    {
        let mut actions: Vec<WindowAction> = Vec::new();
        let new_mask = self.style_to_restore();
        if !style_last {
            actions.push(WindowAction::SetStyleMask(new_mask));
        }
        if let Some(opts) = self.shared.save_presentation_opts {
            actions.push(WindowAction::SetPresentationOptions(opts));
        }
        actions.push(WindowAction::SetFrameToStandardFrame);
        actions.push(WindowAction::SetMovable(true));
        if style_last {
            actions.push(WindowAction::SetStyleMask(new_mask));
        }
        proof {
            assert(actions@ =~= simple_fullscreen_exit_actions(*self, style_last));
        }
        actions
    }

    /// Leaves simple fullscreen, restoring what entering it saved.
    pub(crate) fn leave_simple_fullscreen(&mut self, style_last: bool, actions: &mut Vec<WindowAction>)
        requires
            simple_fullscreen_applies(*old(self), false),
        ensures
            *final(self) == simple_fullscreen_after(*old(self), false, false),
            final(actions)@ == old(actions)@ + simple_fullscreen_exit_actions(*old(self), style_last),
    {
        let mut exit_actions = self.simple_exit_actions(style_last);
        actions.append(&mut exit_actions);
        let new_mask = self.style_to_restore();
        let presentation = match self.shared.save_presentation_opts {
            Some(opts) => opts,
            None => self.presentation_options,
        };
        self.set_simple_exit_fields(new_mask, presentation);
    }

    /// Enters or leaves simple fullscreen; true when something changed. Nothing happens
    /// while native fullscreen is on.
    pub fn set_simple_fullscreen(&mut self, fullscreen: bool) -> (r: (bool, Vec<WindowAction>))
        ensures
            r.0 == simple_fullscreen_applies(*old(self), fullscreen),
            *final(self) == simple_fullscreen_after(*old(self), fullscreen, false),
            r.1@ == simple_fullscreen_actions(*old(self), fullscreen),
    {
        let mut actions: Vec<WindowAction> = Vec::new();
        let is_native_fullscreen = self.shared.fullscreen.is_some();
        let is_simple_fullscreen = self.shared.is_simple_fullscreen;
        if is_native_fullscreen || (fullscreen && is_simple_fullscreen) || (!fullscreen
            && !is_simple_fullscreen) {
            return (false, actions);
        }
        if fullscreen {
            self.enter_simple_fullscreen(false, &mut actions);
        } else {
            self.leave_simple_fullscreen(false, &mut actions);
        }
        (true, actions)
    }
}


impl WinitWindow {
    /// Toggles native fullscreen at the normal window level; when entering it
    /// (`not_fullscreen`), a window that is not titled and resizable is made so first and
    /// its style saved for later.
    pub fn toggle_full_screen(&mut self, not_fullscreen: bool) -> (actions: Vec<WindowAction>)
        ensures
            ({
                let temp = not_fullscreen && !mask_has(old(self).style_mask, titled_resizable());
                &&& final(self).style_mask == (if temp {
                    titled_resizable()
                } else {
                    old(self).style_mask
                })
                &&& final(self).shared.saved_style == (if temp {
                    Some(old(self).style_mask)
                } else {
                    old(self).shared.saved_style
                })
                &&& final(self).level == K_CG_NORMAL_WINDOW_LEVEL
                &&& actions@ == (if temp {
                    seq![WindowAction::SetStyleMask(titled_resizable())]
                } else {
                    Seq::empty()
                }) + toggle_fullscreen_actions()
            }),
    {
        let mut actions: Vec<WindowAction> = Vec::new();
        if not_fullscreen {
            let curr_mask = self.style_mask;
            let required = NS_WINDOW_STYLE_MASK_TITLED | NS_WINDOW_STYLE_MASK_RESIZABLE;
            if !mask_contains(curr_mask, required) {
                self.set_style_mask(required, &mut actions);
                self.shared.saved_style = Some(curr_mask);
            }
        }
        let ghost before = actions@;
        self.level = K_CG_NORMAL_WINDOW_LEVEL;
        actions.push(WindowAction::SetLevel(K_CG_NORMAL_WINDOW_LEVEL));
        actions.push(WindowAction::ToggleFullScreen);
        proof {
            assert(actions@ =~= before + toggle_fullscreen_actions());
        }
        actions
    }
}

/// A style mask whose resizable bit agrees with the window's resizability is left as it
/// is by making it resizable or not accordingly.
proof fn lemma_with_resizable_bit(mask: usize, resizable: bool)
    requires
        mask_has(mask, NS_WINDOW_STYLE_MASK_RESIZABLE) == resizable,
    ensures
        with_bit(mask, NS_WINDOW_STYLE_MASK_RESIZABLE, resizable) == mask,
{
    assert(mask & 8usize == 8usize ==> mask | 8usize == mask) by (bit_vector);
    assert(mask & 8usize != 8usize ==> mask & !8usize == mask) by (bit_vector);
}

/// Whether the resizable bit of a window's style mask agrees with its resizability.
pub open spec fn resizability_consistent(w: WinitWindow) -> bool {
    mask_has(w.style_mask, NS_WINDOW_STYLE_MASK_RESIZABLE) == w.shared.resizable
}

/// Leaving simple fullscreen gives back what entering it took: the style mask (when its
/// resizable bit agrees with the window's resizability), the presentation options and
/// movability; nothing stays saved.
pub proof fn lemma_simple_fullscreen_round_trip(w: WinitWindow, borderless_game: bool)
    requires
        w.shared.fullscreen is None,
        !w.shared.is_simple_fullscreen,
        resizability_consistent(w),
    ensures
        ({
            let entered = simple_fullscreen_after(w, true, borderless_game);
            let left = simple_fullscreen_after(entered, false, borderless_game);
            &&& entered.shared.is_simple_fullscreen
            &&& left.style_mask == w.style_mask
            &&& left.presentation_options == w.presentation_options
            &&& left.movable
            &&& !left.shared.is_simple_fullscreen
            &&& left.shared.saved_style is None
        }),
{
    lemma_with_resizable_bit(w.style_mask, w.shared.resizable);
}

/// Leaving fullscreen restores the style mask that the window had before entering it
/// (when nothing else was saved and its resizable bit agrees with the window's
/// resizability), although entering may have made the window titled and resizable.
pub proof fn lemma_fullscreen_restores_style(
    w: WinitWindow,
    fullscreen: Fullscreen,
    current_monitor: Option<u32>,
    shielding_level: isize,
    borderless_game: bool,
)
    requires
        fullscreen_applies(w, Some(fullscreen), current_monitor),
        w.shared.fullscreen is None,
        w.shared.saved_style is None,
        resizability_consistent(w),
    ensures
        ({
            let entered = fullscreen_after(
                w,
                Some(fullscreen),
                current_monitor,
                shielding_level,
                borderless_game,
            );
            let restored = restored_from_fullscreen(entered);
            &&& entered.shared.fullscreen == Some(fullscreen)
            &&& mask_has(entered.style_mask, titled_resizable())
            &&& restored.style_mask == w.style_mask
            &&& restored.shared.fullscreen is None
            &&& restored.shared.saved_style is None
        }),
{
    lemma_with_resizable_bit(w.style_mask, w.shared.resizable);
    assert(titled_resizable() == 9usize) by {
        assert(1usize | 8usize == 9usize) by (bit_vector);
    }
    assert(9usize & 9usize == 9usize) by (bit_vector);
}

/// Going from borderless to exclusive fullscreen and back (on a known monitor) gives the
/// application its presentation options back and the window the normal level.
pub proof fn lemma_exclusive_round_trip_presentation(
    w: WinitWindow,
    monitor: Option<u32>,
    mode: VideoMode,
    current_monitor: Option<u32>,
    shielding_level: isize,
    borderless_game: bool,
)
    requires
        w.shared.fullscreen == Some(Fullscreen::Borderless(monitor)),
        !w.shared.is_simple_fullscreen,
        !w.shared.in_fullscreen_transition,
        fullscreen_screen(Fullscreen::Borderless(monitor), current_monitor) is Some,
    ensures
        ({
            let exclusive = fullscreen_after(
                w,
                Some(Fullscreen::Exclusive(mode)),
                current_monitor,
                shielding_level,
                borderless_game,
            );
            let back = fullscreen_after(
                exclusive,
                Some(Fullscreen::Borderless(monitor)),
                current_monitor,
                shielding_level,
                borderless_game,
            );
            &&& exclusive.presentation_options == exclusive_presentation()
            &&& back.shared.fullscreen == w.shared.fullscreen
            &&& back.presentation_options == w.presentation_options
            &&& back.level == K_CG_NORMAL_WINDOW_LEVEL
            &&& back.style_mask == w.style_mask
        }),
{
}

/// The number of tabs of a window, given how many windows its tab group holds (none when
/// the window is not tabbed): a window on its own is one tab.
pub fn num_tabs(tabbed_windows: Option<usize>) -> (r: usize)
    ensures
        r == match tabbed_windows {
            Some(n) => n,
            None => 1,
        },
{
    match tabbed_windows {
        Some(n) => n,
        None => 1,
    }
}

/// The tab to select for a request to select the tab at `index`: that tab when the window
/// has a tab group and the index is below the number of tabbed windows, otherwise none.
pub fn select_tab_at_index(has_tab_group: bool, tabbed_windows: Option<usize>, index: usize) -> (r:
    Option<usize>)
    ensures
        r == (if has_tab_group && (tabbed_windows matches Some(n) && index < n) {
            Some(index)
        } else {
            None
        }),
{
    if !has_tab_group {
        return None;
    }
    match tabbed_windows {
        Some(n) => if index < n {
            Some(index)
        } else {
            None
        },
        None => None,
    }
}

} // verus!
