//! The delegate of a window: the callbacks that `NSWindow` makes on focus, closing,
//! occlusion, appearance and fullscreen transitions, and the window operations that go
//! through it.
use vstd::prelude::*;

use crate::appkit::{
    NS_PRESENTATION_FULL_SCREEN, NS_PRESENTATION_HIDE_DOCK, NS_PRESENTATION_HIDE_MENU_BAR,
    NS_WINDOW_STYLE_MASK_RESIZABLE,
};
use crate::cursor::{same_cursor, Cursor};
use crate::event::WindowEvent;
use crate::platform::WindowId;
use crate::view::{ime_allowed_set, modifiers_reset, ViewState};
use crate::window::{
    action_if, created_window, exclusive_presentation, fullscreen_actions, fullscreen_after,
    level_value, mask_has, maximize_actions, maximized_after, new_window, restore_actions,
    window_setup_actions, WindowAttrsModel, WindowLevel,
    restored_from_fullscreen,
    restored_style, simple_fullscreen_exit_actions, simple_fullscreen_after,
    simple_fullscreen_applies, simple_fullscreen_enter_actions, zoom_probe_actions,
    ExternalError, Fullscreen, ImePurpose, NotSupportedError, ResizeDirection, SharedState, Theme,
    WindowAction, WinitWindow,
};
use crate::window::{attrs_style_mask, lemma_concat_contains, lemma_singleton_contains};

verus! {

/// The delegate of a window, with the state it keeps beside the window's own.
#[derive(Debug)]
pub struct WindowDelegate {
    pub window: WinitWindow,
    /// Set when the window was created fullscreen; a failed first transition is then retried.
    pub initial_fullscreen: bool,
    /// Whether borderless fullscreen also hides the dock and the menu bar.
    pub is_borderless_game: bool,
}

/// The actions of a request for simple fullscreen through the delegate: when leaving, the
/// presentation options, the frame and movability are restored first, then the style.
pub open spec fn delegate_simple_fullscreen_actions(
    w: WinitWindow,
    fullscreen: bool,
    borderless_game: bool,
) -> Seq<WindowAction> {
    if !simple_fullscreen_applies(w, fullscreen) {
        Seq::empty()
    } else if fullscreen {
        simple_fullscreen_enter_actions(w, borderless_game)
    } else {
        simple_fullscreen_exit_actions(w, true)
    }
}

/// The theme event of a change of the window's effective appearance: none when the window
/// has an appearance of its own (the change then came from setting it) or when the theme
/// stays the same.
pub open spec fn appearance_change_event(custom_appearance: bool, from: Theme, to: Theme) -> Option<
    Theme,
> {
    if custom_appearance || from == to {
        None
    } else {
        Some(to)
    }
}

/// The theme of an appearance from the best match among the light and dark appearance
/// names: dark for the dark name, light otherwise, and light when nothing matched.
pub fn theme_of_best_match(best_match_is_dark: Option<bool>) -> (r: Theme)
    ensures
        r == (if best_match_is_dark == Some(true) {
            Theme::Dark
        } else {
            Theme::Light
        }),
{
    match best_match_is_dark {
        Some(true) => Theme::Dark,
        _ => Theme::Light,
    }
}

/// A window at the end of a fullscreen transition: no transition, no request waiting.
pub open spec fn transition_settled(w: WinitWindow) -> WinitWindow {
    WinitWindow {
        shared: SharedState { in_fullscreen_transition: false, target_fullscreen: None, ..w.shared },
        ..w
    }
}

/// The window once its delegate has applied the window level and the cursor of the
/// attributes (the cursor only if it is not the one in use).
pub open spec fn delegate_setup_window(w: WinitWindow, attrs: WindowAttrsModel) -> WinitWindow {
    WinitWindow {
        level: level_value(attrs.window_level),
        cursor: if same_cursor(attrs.cursor, w.cursor) {
            w.cursor
        } else {
            attrs.cursor
        },
        ..w
    }
}

/// What the delegate of a new window sets up, in order: the appearance of the preferred
/// theme, the blur, the window level, the cursor (unless it is the one in use), and then
/// a `Focused(false)` event, queued so that the real focus events at start-up are not
/// obscured.
pub open spec fn delegate_setup_actions(w: WinitWindow, attrs: WindowAttrsModel) -> Seq<
    WindowAction,
> {
    (match attrs.preferred_theme {
        Some(theme) => seq![WindowAction::SetAppearance(theme)],
        None => Seq::empty(),
    }) + action_if(attrs.blur, WindowAction::SetBlur(true)) + seq![
        WindowAction::SetLevel(level_value(attrs.window_level)),
    ] + (if same_cursor(attrs.cursor, w.cursor) {
        Seq::empty()
    } else {
        seq![WindowAction::SetCursor(attrs.cursor), WindowAction::InvalidateCursorRects]
    }) + seq![WindowAction::QueueEvent(WindowEvent::Focused(false))]
}

/// The window once shown, if it is to be visible.
pub open spec fn shown_initially(w: WinitWindow, visible: bool) -> WinitWindow {
    if visible {
        WinitWindow { visible: true, ..w }
    } else {
        w
    }
}

/// How a new window is shown: made key and ordered front when active, only ordered front
/// otherwise, and not at all when it is to stay hidden.
pub open spec fn show_actions(visible: bool, active: bool) -> Seq<WindowAction> {
    if !visible {
        Seq::empty()
    } else if active {
        seq![WindowAction::MakeKeyAndOrderFront]
    } else {
        seq![WindowAction::OrderFront]
    }
}

/// The delegate of a window created with these attributes, and everything done to the
/// native window after it was created: the window's set-up, the delegate's, the initial
/// fullscreen, showing the window (after fullscreen, so that it does not appear briefly at
/// its normal size) and maximising it.
pub open spec fn created_delegate(
    attrs: WindowAttrsModel,
    id: WindowId,
    has_screen: bool,
    system_theme: Theme,
    presentation_options: usize,
    input_source: String,
    current_monitor: Option<u32>,
    shielding_level: isize,
) -> (WindowDelegate, Seq<WindowAction>) {
    let w0 = created_window(attrs, id, has_screen, system_theme, presentation_options, input_source);
    let w1 = delegate_setup_window(w0, attrs);
    let game = attrs.platform_specific.borderless_game;
    let w2 = fullscreen_after(w1, attrs.fullscreen, current_monitor, shielding_level, game);
    let w3 = shown_initially(w2, attrs.visible);
    let w4 = if attrs.maximized {
        maximized_after(w3, true)
    } else {
        w3
    };
    (
        WindowDelegate {
            window: w4,
            initial_fullscreen: attrs.fullscreen is Some,
            is_borderless_game: game,
        },
        window_setup_actions(attrs) + delegate_setup_actions(w0, attrs) + fullscreen_actions(
            w1,
            attrs.fullscreen,
            current_monitor,
            shielding_level,
            game,
        ) + show_actions(attrs.visible, attrs.active) + (if attrs.maximized {
            maximize_actions(w3.style_mask, w3.zoomed, w3.shared.fullscreen is Some, true)
        } else {
            Seq::empty()
        }),
    )
}

impl WindowDelegate {
    /// Creates a window and its delegate from the attributes: returns the delegate, the
    /// style mask to create the native window with, and what to do to the native window
    /// once it exists (see [`created_delegate`]). `has_screen` says whether a screen was
    /// found for the initial fullscreen, `system_theme` is the theme of the system,
    /// `presentation_options` the application's current ones and `input_source` the
    /// current keyboard input source.
    pub fn create(
        attrs: &WindowAttrsModel,
        id: WindowId,
        has_screen: bool,
        system_theme: Theme,
        presentation_options: usize,
        input_source: String,
        current_monitor: Option<u32>,
        shielding_level: isize,
    ) -> (r: (WindowDelegate, usize, Vec<WindowAction>))
        requires
            shielding_level < isize::MAX,
        ensures
            r.0 == created_delegate(
                *attrs,
                id,
                has_screen,
                system_theme,
                presentation_options,
                input_source,
                current_monitor,
                shielding_level,
            ).0,
            r.1 == attrs_style_mask(*attrs, has_screen),
            r.2@ == created_delegate(
                *attrs,
                id,
                has_screen,
                system_theme,
                presentation_options,
                input_source,
                current_monitor,
                shielding_level,
            ).1,
    {
        let (window, mut actions) = new_window(
            attrs,
            id,
            has_screen,
            system_theme,
            presentation_options,
            input_source,
        );
        let mask = window.style_mask;
        let ghost w0 = window;
        let mut delegate = WindowDelegate::new(
            window,
            attrs.fullscreen.is_some(),
            attrs.platform_specific.borderless_game,
        );
        let mut setup = delegate.set_up(attrs);
        let ghost w1 = delegate.window;
        let ghost a1 = actions@;
        actions.append(&mut setup);
        let mut fullscreen = delegate.set_fullscreen(attrs.fullscreen, current_monitor, shielding_level);
        let ghost a2 = actions@;
        actions.append(&mut fullscreen);
        let mut shown = delegate.show_initially(attrs.visible, attrs.active);
        let ghost w3 = delegate.window;
        let ghost a3 = actions@;
        actions.append(&mut shown);
        let ghost a4 = actions@;
        if attrs.maximized {
            let mut maximize = delegate.window.set_maximized(true);
            actions.append(&mut maximize);
        }
        proof {
            assert(a1 =~= window_setup_actions(*attrs));
            assert(a4 =~= window_setup_actions(*attrs) + delegate_setup_actions(w0, *attrs)
                + fullscreen_actions(
                w1,
                attrs.fullscreen,
                current_monitor,
                shielding_level,
                attrs.platform_specific.borderless_game,
            ) + show_actions(attrs.visible, attrs.active));
            if !attrs.maximized {
                assert(actions@ =~= a4 + Seq::<WindowAction>::empty());
            }
        }
        (delegate, mask, actions)
    }

    /// The delegate's set-up of a new window; see [`delegate_setup_actions`].
    fn set_up(&mut self, attrs: &WindowAttrsModel) -> (actions: Vec<WindowAction>)
        ensures
            *final(self) == (WindowDelegate {
                window: delegate_setup_window(old(self).window, *attrs),
                ..*old(self)
            }),
            actions@ == delegate_setup_actions(old(self).window, *attrs),
    {
        let mut actions: Vec<WindowAction> = Vec::new();
        match attrs.preferred_theme {
            Some(theme) => actions.push(WindowAction::SetAppearance(theme)),
            None => {},
        }
        let ghost t = actions@;
        if attrs.blur {
            actions.push(WindowAction::SetBlur(true));
        }
        let ghost b = actions@;
        let mut level = self.window.set_window_level(attrs.window_level);
        actions.append(&mut level);
        let ghost l = actions@;
        let mut cursor = self.window.set_cursor(attrs.cursor);
        actions.append(&mut cursor);
        let ghost c = actions@;
        actions.push(WindowAction::QueueEvent(WindowEvent::Focused(false)));
        proof {
            let tp = match attrs.preferred_theme {
                Some(theme) => seq![WindowAction::SetAppearance(theme)],
                None => Seq::<WindowAction>::empty(),
            };
            assert(t =~= tp);
            assert(b =~= tp + action_if(attrs.blur, WindowAction::SetBlur(true)));
            assert(actions@ =~= delegate_setup_actions(old(self).window, *attrs));
        }
        actions
    }

    /// Shows a new window, if it is to be visible; see [`show_actions`].
    fn show_initially(&mut self, visible: bool, active: bool) -> (actions: Vec<WindowAction>)
        ensures
            *final(self) == (WindowDelegate {
                window: shown_initially(old(self).window, visible),
                ..*old(self)
            }),
            actions@ == show_actions(visible, active),
    {
        let mut actions: Vec<WindowAction> = Vec::new();
        if visible {
            self.window.visible = true;
            if active {
                actions.push(WindowAction::MakeKeyAndOrderFront);
            } else {
                actions.push(WindowAction::OrderFront);
            }
        }
        actions
    }

    /// The delegate of a new window; `fullscreen` says whether the window is created
    /// fullscreen.
    pub fn new(window: WinitWindow, fullscreen: bool, borderless_game: bool) -> (r: WindowDelegate)
        ensures
            r.window == window,
            r.initial_fullscreen == fullscreen,
            r.is_borderless_game == borderless_game,
    {
        WindowDelegate { window, initial_fullscreen: fullscreen, is_borderless_game: borderless_game }
    }

    /// The identifier of the window.
    pub fn id(&self) -> (r: WindowId)
        ensures
            r == self.window.id,
    {
        self.window.id
    }

    /// Asked whether the window may close: it never closes by itself, the application is
    /// told instead.
    pub fn window_should_close(&self) -> (r: (bool, WindowEvent))
        ensures
            !r.0,
            r.1 is CloseRequested,
    {
        (false, WindowEvent::CloseRequested)
    }

    /// The window closes.
    pub fn window_will_close(&self) -> (r: WindowEvent)
        ensures
            r is Destroyed,
    {
        WindowEvent::Destroyed
    }

    /// The window became the key window.
    pub fn window_did_become_key(&mut self) -> (r: WindowEvent)
        ensures
            r matches WindowEvent::Focused(true),
            *final(self) == (WindowDelegate {
                window: WinitWindow { key_window: true, ..old(self).window },
                ..*old(self)
            }),
    {
        self.window.key_window = true;
        WindowEvent::Focused(true)
    }

    /// The window is no longer the key window. Modifier releases may then never arrive, so
    /// the modifiers are reset (reported if any was active) before the focus loss.
    pub fn window_did_resign_key(&mut self) -> (events: Vec<WindowEvent>)
        ensures
            *final(self) == (WindowDelegate {
                window: WinitWindow {
                    key_window: false,
                    view: modifiers_reset(old(self).window.view),
                    ..old(self).window
                },
                ..*old(self)
            }),
            events@ == (if old(self).window.view.modifiers.state.bits != 0 {
                seq![
                    WindowEvent::ModifiersChanged(modifiers_reset(old(self).window.view).modifiers),
                    WindowEvent::Focused(false),
                ]
            } else {
                seq![WindowEvent::Focused(false)]
            }),
    {
        self.window.key_window = false;
        let mut events = self.window.view.reset_modifiers();
        events.push(WindowEvent::Focused(false));
        events
    }

    /// The occlusion state of the window changed.
    pub fn window_did_change_occlusion_state(&self, visible: bool) -> (r: WindowEvent)
        ensures
            r matches WindowEvent::Occluded(occluded) && occluded == !visible,
    {
        WindowEvent::Occluded(!visible)
    }

    /// The window moved to another screen: in simple fullscreen it then takes that screen's
    /// frame.
    pub fn window_did_change_screen(&self) -> (actions: Vec<WindowAction>)
        ensures
            actions@ == (if self.window.shared.is_simple_fullscreen {
                seq![WindowAction::SetFrameToScreen]
            } else {
                Seq::empty()
            }),
    {
        let mut actions = Vec::new();
        if self.window.shared.is_simple_fullscreen {
            actions.push(WindowAction::SetFrameToScreen);
        }
        proof {
            if !self.window.shared.is_simple_fullscreen {
                assert(actions@ =~= Seq::<WindowAction>::empty());
            }
        }
        actions
    }

    /// The effective appearance of the window changed from the theme `from` to `to`.
    pub fn effective_appearance_changed(&self, custom_appearance: bool, from: Theme, to: Theme) -> (r:
        Option<WindowEvent>)
        ensures
            match appearance_change_event(custom_appearance, from, to) {
                Some(theme) => r matches Some(WindowEvent::ThemeChanged(t)) && t == theme,
                None => r is None,
            },
    {
        if custom_appearance {
            return None;
        }
        if from == to {
            return None;
        }
        Some(WindowEvent::ThemeChanged(to))
    }

    /// Before the window enters fullscreen: the maximised state is remembered, and a
    /// transition that the user started (with the green button) becomes borderless
    /// fullscreen on the current monitor.
    pub fn window_will_enter_fullscreen(&mut self, current_monitor: Option<u32>) -> (actions: Vec<
        WindowAction,
    >)
        ensures
            actions@ == zoom_probe_actions(old(self).window.style_mask),
            *final(self) == (WindowDelegate {
                window: WinitWindow {
                    shared: SharedState {
                        maximized: old(self).window.zoomed,
                        fullscreen: if old(self).window.shared.fullscreen is None {
                            Some(Fullscreen::Borderless(current_monitor))
                        } else {
                            old(self).window.shared.fullscreen
                        },
                        in_fullscreen_transition: true,
                        ..old(self).window.shared
                    },
                    ..old(self).window
                },
                ..*old(self)
            }),
    {
        let mut actions = Vec::new();
        let zoomed = self.window.is_zoomed(&mut actions);
        proof {
            assert(actions@ =~= zoom_probe_actions(old(self).window.style_mask));
        }
        let fullscreen = match self.window.shared.fullscreen {
            // A transition that the user started.
            None => Some(Fullscreen::Borderless(current_monitor)),
            // Set by `set_fullscreen` already.
            Some(f) => Some(f),
        };
        self.begin_transition(zoomed, fullscreen);
        actions
    }

    /// Starts a fullscreen transition, recording the maximised state and the fullscreen
    /// state.
    fn begin_transition(&mut self, maximized: bool, fullscreen: Option<Fullscreen>)
        ensures
            *final(self) == (WindowDelegate {
                window: WinitWindow {
                    shared: SharedState {
                        maximized,
                        fullscreen,
                        in_fullscreen_transition: true,
                        ..old(self).window.shared
                    },
                    ..old(self).window
                },
                ..*old(self)
            }),
    {
        self.window.shared = SharedState {
            maximized,
            fullscreen,
            in_fullscreen_transition: true,
            ..self.window.shared
        };
    }

    /// Before the window leaves fullscreen.
    pub fn window_will_exit_fullscreen(&mut self)
        ensures
            *final(self) == (WindowDelegate {
                window: WinitWindow {
                    shared: SharedState {
                        in_fullscreen_transition: true,
                        ..old(self).window.shared
                    },
                    ..old(self).window
                },
                ..*old(self)
            }),
    {
        self.window.shared.in_fullscreen_transition = true;
    }

    /// The presentation options of the fullscreen space: the proposed ones, except in
    /// exclusive fullscreen, where the window sits above the menu bar, so the dock and the
    /// menu bar are always hidden.
    pub fn window_will_use_fullscreen_presentation_options(&self, proposed: usize) -> (r: usize)
        ensures
            r == (if self.window.shared.fullscreen matches Some(Fullscreen::Exclusive(_)) {
                exclusive_presentation()
            } else {
                proposed
            }),
    {
        if let Some(Fullscreen::Exclusive(_)) = self.window.shared.fullscreen {
            NS_PRESENTATION_FULL_SCREEN | NS_PRESENTATION_HIDE_DOCK | NS_PRESENTATION_HIDE_MENU_BAR
        } else {
            proposed
        }
    }

    /// Enters, leaves or changes fullscreen (see [`WinitWindow::set_fullscreen`]); a
    /// borderless game also hides the dock and the menu bar.
    pub fn set_fullscreen(
        &mut self,
        fullscreen: Option<Fullscreen>,
        current_monitor: Option<u32>,
        shielding_level: isize,
    ) -> (actions: Vec<WindowAction>)
        requires
            shielding_level < isize::MAX,
        ensures
            final(self).window == fullscreen_after(
                old(self).window,
                fullscreen,
                current_monitor,
                shielding_level,
                old(self).is_borderless_game,
            ),
            actions@ == fullscreen_actions(
                old(self).window,
                fullscreen,
                current_monitor,
                shielding_level,
                old(self).is_borderless_game,
            ),
            final(self).initial_fullscreen == old(self).initial_fullscreen,
            final(self).is_borderless_game == old(self).is_borderless_game,
    {
        let game = self.is_borderless_game;
        self.window.apply_fullscreen(fullscreen, current_monitor, shielding_level, game)
    }

    /// Ends a fullscreen transition, handing out the request made during it.
    fn settle_transition(&mut self) -> (r: Option<Option<Fullscreen>>)
        ensures
            r == old(self).window.shared.target_fullscreen,
            *final(self) == (WindowDelegate {
                window: WinitWindow {
                    shared: SharedState {
                        in_fullscreen_transition: false,
                        target_fullscreen: None,
                        ..old(self).window.shared
                    },
                    ..old(self).window
                },
                ..*old(self)
            }),
    {
        let target = self.window.shared.target_fullscreen;
        self.window.shared.in_fullscreen_transition = false;
        self.window.shared.target_fullscreen = None;
        target
    }

    /// The window entered fullscreen; a request made during the transition is applied now.
    pub fn window_did_enter_fullscreen(&mut self, current_monitor: Option<u32>, shielding_level: isize) -> (actions: Vec<WindowAction>)
        requires
            shielding_level < isize::MAX,
        ensures
            !final(self).initial_fullscreen,
            ({
                let settled = WinitWindow {
                    shared: SharedState {
                        in_fullscreen_transition: false,
                        target_fullscreen: None,
                        ..old(self).window.shared
                    },
                    ..old(self).window
                };
                match old(self).window.shared.target_fullscreen {
                    Some(target) => {
                        &&& final(self).window == fullscreen_after(
                            settled,
                            target,
                            current_monitor,
                            shielding_level,
                            old(self).is_borderless_game,
                        )
                        &&& actions@ == fullscreen_actions(
                            settled,
                            target,
                            current_monitor,
                            shielding_level,
                            old(self).is_borderless_game,
                        )
                    },
                    None => final(self).window == settled && actions@.len() == 0,
                }
            }),
    {
        let target = self.settle_transition();
        self.initial_fullscreen = false;
        match target {
            Some(target) => self.set_fullscreen(target, current_monitor, shielding_level),
            None => Vec::new(),
        }
    }

    /// The window left fullscreen: its state before fullscreen is restored, then a request
    /// made during the transition is applied.
    #[verifier::spinoff_prover]
    #[verifier::rlimit(30)]
    pub fn window_did_exit_fullscreen(&mut self, current_monitor: Option<u32>, shielding_level: isize) -> (actions: Vec<WindowAction>)
        requires
            shielding_level < isize::MAX,
        ensures
            final(self).initial_fullscreen == old(self).initial_fullscreen,
            final(self).is_borderless_game == old(self).is_borderless_game,
            ({
                let restored = transition_settled(restored_from_fullscreen(old(self).window));
                match old(self).window.shared.target_fullscreen {
                    Some(target) => {
                        &&& final(self).window == fullscreen_after(
                            restored,
                            target,
                            current_monitor,
                            shielding_level,
                            old(self).is_borderless_game,
                        )
                        &&& actions@ == restore_actions(old(self).window) + fullscreen_actions(
                            restored,
                            target,
                            current_monitor,
                            shielding_level,
                            old(self).is_borderless_game,
                        )
                    },
                    None => final(self).window == restored && actions@ == restore_actions(
                        old(self).window,
                    ),
                }
            }),
    {
        let ghost before = self.window;
        let mut actions = self.window.restore_state_from_fullscreen();
        let ghost restored = self.window;
        assert(restored == restored_from_fullscreen(before));
        let target = self.settle_transition();
        assert(self.window == transition_settled(restored));
        if let Some(target) = target {
            let mut rest = self.set_fullscreen(target, current_monitor, shielding_level);
            actions.append(&mut rest);
        }
        actions
    }

    /// Entering fullscreen failed (for instance during another animation). For a window
    /// created fullscreen the transition is asked for again later; otherwise the state
    /// before fullscreen is restored.
    pub fn window_did_fail_to_enter_fullscreen(&mut self) -> (actions: Vec<WindowAction>)
        ensures
            final(self).initial_fullscreen == old(self).initial_fullscreen,
            final(self).is_borderless_game == old(self).is_borderless_game,
            if old(self).initial_fullscreen {
                &&& final(self).window == transition_settled(old(self).window)
                &&& actions@ == seq![WindowAction::ToggleFullScreenLater]
            } else {
                &&& final(self).window == restored_from_fullscreen(transition_settled(old(self).window))
                &&& actions@ == restore_actions(old(self).window)
            },
    {
        let _ = self.settle_transition();
        if self.initial_fullscreen {
            let mut actions = Vec::new();
            actions.push(WindowAction::ToggleFullScreenLater);
            actions
        } else {
            self.window.restore_state_from_fullscreen()
        }
    }

    /// Whether the window is in simple fullscreen.
    pub fn simple_fullscreen(&self) -> (r: bool)
        ensures
            r == self.window.shared.is_simple_fullscreen,
    {
        self.window.shared.is_simple_fullscreen
    }

    /// Enters or leaves simple fullscreen; true when something changed. Nothing happens
    /// while native fullscreen is on.
    pub fn set_simple_fullscreen(&mut self, fullscreen: bool) -> (r: (bool, Vec<WindowAction>))
        ensures
            r.0 == simple_fullscreen_applies(old(self).window, fullscreen),
            final(self).window == simple_fullscreen_after(
                old(self).window,
                fullscreen,
                old(self).is_borderless_game,
            ),
            r.1@ == delegate_simple_fullscreen_actions(
                old(self).window,
                fullscreen,
                old(self).is_borderless_game,
            ),
            final(self).initial_fullscreen == old(self).initial_fullscreen,
            final(self).is_borderless_game == old(self).is_borderless_game,
    {
        let mut actions: Vec<WindowAction> = Vec::new();
        let is_native_fullscreen = self.window.shared.fullscreen.is_some();
        let is_simple_fullscreen = self.window.shared.is_simple_fullscreen;
        if is_native_fullscreen || (fullscreen && is_simple_fullscreen) || (!fullscreen
            && !is_simple_fullscreen) {
            return (false, actions);
        }
        let game = self.is_borderless_game;
        if fullscreen {
            self.window.enter_simple_fullscreen(game, &mut actions);
        } else {
            self.window.leave_simple_fullscreen(true, &mut actions);
        }
        (true, actions)
    }

    /// Makes borderless fullscreen hide the dock and the menu bar, or not.
    pub fn set_borderless_game(&mut self, borderless_game: bool)
        ensures
            final(self).is_borderless_game == borderless_game,
            final(self).window == old(self).window,
            final(self).initial_fullscreen == old(self).initial_fullscreen,
    {
        self.is_borderless_game = borderless_game;
    }

    /// Whether borderless fullscreen hides the dock and the menu bar.
    pub fn is_borderless_game(&self) -> (r: bool)
        ensures
            r == self.is_borderless_game,
    {
        self.is_borderless_game
    }

    /// Shows the window (making it key and ordering it front) or hides it.
    pub fn set_visible(&mut self, visible: bool) -> (actions: Vec<WindowAction>)
        ensures
            *final(self) == (WindowDelegate {
                window: WinitWindow { visible, ..old(self).window },
                ..*old(self)
            }),
            actions@ == seq![
                if visible {
                    WindowAction::MakeKeyAndOrderFront
                } else {
                    WindowAction::OrderOut
                },
            ],
    {
        self.window.set_visible(visible)
    }

    /// Whether the window is visible (always known on macOS).
    pub fn is_visible(&self) -> (r: Option<bool>)
        ensures
            r == Some(self.window.visible),
    {
        self.window.is_visible()
    }

    /// Asks for a redraw of the window.
    pub fn request_redraw(&self) -> (actions: Vec<WindowAction>)
        ensures
            actions@ == seq![WindowAction::QueueRedraw(self.window.id)],
    {
        self.window.request_redraw()
    }

    /// Nothing to do before presenting on macOS.
    pub fn pre_present_notify(&self) {
    }

    /// Whether the window can be resized by the user.
    pub fn is_resizable(&self) -> (r: bool)
        ensures
            r == mask_has(self.window.style_mask, NS_WINDOW_STYLE_MASK_RESIZABLE),
    {
        self.window.is_resizable()
    }

    /// Uses a cursor over the window's content view; setting the cursor already in use
    /// changes nothing.
    pub fn set_cursor(&mut self, cursor: Cursor) -> (actions: Vec<WindowAction>)
        ensures
            same_cursor(cursor, old(self).window.cursor) ==> *final(self) == *old(self)
                && actions@ == Seq::<WindowAction>::empty(),
            !same_cursor(cursor, old(self).window.cursor) ==> *final(self) == (WindowDelegate {
                window: WinitWindow { cursor, ..old(self).window },
                ..*old(self)
            }) && actions@ == seq![
                WindowAction::SetCursor(cursor),
                WindowAction::InvalidateCursorRects,
            ],
    {
        self.window.set_cursor(cursor)
    }

    /// Shows or hides the cursor over the window; the cursor rectangles are re-applied only
    /// when this changes anything.
    pub fn set_cursor_visible(&mut self, visible: bool) -> (actions: Vec<WindowAction>)
        ensures
            *final(self) == (WindowDelegate {
                window: WinitWindow {
                    view: ViewState { cursor_visible: visible, ..old(self).window.view },
                    ..old(self).window
                },
                ..*old(self)
            }),
            actions@ == (if visible != old(self).window.view.cursor_visible {
                seq![WindowAction::InvalidateCursorRects]
            } else {
                Seq::empty()
            }),
    {
        self.window.set_cursor_visible(visible)
    }

    /// Dragging a window edge to resize it is not supported on macOS.
    pub fn drag_resize_window(&self, direction: ResizeDirection) -> (r: Result<(), ExternalError>)
        ensures
            r == Err::<(), ExternalError>(ExternalError::NotSupported(NotSupportedError)),
    {
        self.window.drag_resize_window(direction)
    }

    /// There is no window menu to show on macOS.
    pub fn show_window_menu(&self) {
    }

    /// Makes the window receive mouse events or let them through.
    pub fn set_cursor_hittest(&mut self, hittest: bool) -> (r: (Result<(), ExternalError>, Vec<WindowAction>))
        ensures
            *final(self) == (WindowDelegate {
                window: WinitWindow { ignores_mouse_events: !hittest, ..old(self).window },
                ..*old(self)
            }),
            r.0 == Ok::<(), ExternalError>(()),
            r.1@ == seq![WindowAction::SetIgnoresMouseEvents(!hittest)],
    {
        self.window.set_cursor_hittest(hittest)
    }

    /// Whether the window is minimised (always known on macOS).
    pub fn is_minimized(&self) -> (r: Option<bool>)
        ensures
            r == Some(self.window.miniaturized),
    {
        self.window.is_minimized()
    }

    /// Whether the window is maximised, that is zoomed.
    pub fn is_maximized(&mut self) -> (r: (bool, Vec<WindowAction>))
        ensures
            r.0 == old(self).window.zoomed,
            *final(self) == *old(self),
            r.1@ == zoom_probe_actions(old(self).window.style_mask),
    {
        self.window.is_maximized()
    }

    /// Whether the window has decorations.
    pub fn is_decorated(&self) -> (r: bool)
        ensures
            r == self.window.shared.decorations,
    {
        self.window.is_decorated()
    }

    /// Windows have no icon on macOS.
    pub fn set_window_icon(&self) {
    }

    /// Allows or forbids IME input in the content view.
    pub fn set_ime_allowed(&mut self, allowed: bool) -> (events: Vec<WindowEvent>)
        ensures
            *final(self) == (WindowDelegate {
                window: WinitWindow {
                    view: ime_allowed_set(old(self).window.view, allowed).0,
                    ..old(self).window
                },
                ..*old(self)
            }),
            events@ == ime_allowed_set(old(self).window.view, allowed).1,
    {
        self.window.set_ime_allowed(allowed)
    }

    /// The IME purpose is ignored on macOS.
    pub fn set_ime_purpose(&self, purpose: ImePurpose) {
    }

    /// Whether the window is the key window.
    pub fn has_focus(&self) -> (r: bool)
        ensures
            r == self.window.key_window,
    {
        self.window.has_focus()
    }

    /// The title of the window.
    pub fn title(&self) -> (r: String)
        ensures
            r@ == self.window.title@,
    {
        self.window.title()
    }

    /// Dead keys cannot be reset on macOS.
    pub fn reset_dead_keys(&self) {
    }
}

/// A window reports the decorations it was created with, also when it was created
/// fullscreen or maximised.
pub proof fn lemma_created_decorations(
    attrs: WindowAttrsModel,
    id: WindowId,
    has_screen: bool,
    system_theme: Theme,
    presentation_options: usize,
    input_source: String,
    current_monitor: Option<u32>,
    shielding_level: isize,
)
    ensures
        created_delegate(
            attrs,
            id,
            has_screen,
            system_theme,
            presentation_options,
            input_source,
            current_monitor,
            shielding_level,
        ).0.window.shared.decorations == attrs.decorations,
{
}

/// The parts of a concatenation of three.
proof fn lemma_concat3_contains(
    s1: Seq<WindowAction>,
    s2: Seq<WindowAction>,
    s3: Seq<WindowAction>,
    x: WindowAction,
)
    ensures
        (s1 + s2 + s3).contains(x) == (s1.contains(x) || s2.contains(x) || s3.contains(x)),
{
    lemma_concat_contains(s1, s2, x);
    lemma_concat_contains(s1 + s2, s3, x);
}

/// What the delegate of a new window sets up: the appearance of the preferred theme
/// exactly when there is one (first), a blur exactly when asked, the window level of the
/// attributes, the cursor of the attributes (with its rectangles invalidated) exactly when
/// it is not the one in use, and, last and only there, the queued `Focused(false)`.
#[verifier::spinoff_prover]
#[verifier::rlimit(30)]
pub proof fn lemma_delegate_setup_actions(w: WinitWindow, attrs: WindowAttrsModel)
    ensures
        ({
            let a = delegate_setup_actions(w, attrs);
            let changes_cursor = !same_cursor(attrs.cursor, w.cursor);
            &&& a.last() == WindowAction::QueueEvent(WindowEvent::Focused(false))
            &&& forall|e: WindowEvent| #[trigger] a.contains(WindowAction::QueueEvent(e))
                ==> e == WindowEvent::Focused(false)
            &&& forall|t: Theme| #[trigger] a.contains(WindowAction::SetAppearance(t))
                == (attrs.preferred_theme == Some(t))
            &&& attrs.preferred_theme matches Some(t) ==> a[0] == WindowAction::SetAppearance(t)
            &&& a.contains(WindowAction::SetBlur(true)) == attrs.blur
            &&& !a.contains(WindowAction::SetBlur(false))
            &&& forall|l: isize| #[trigger] a.contains(WindowAction::SetLevel(l)) == (l == level_value(
                attrs.window_level,
            ))
            &&& forall|c: Cursor| #[trigger] a.contains(WindowAction::SetCursor(c)) == (changes_cursor
                && c == attrs.cursor)
            &&& a.contains(WindowAction::InvalidateCursorRects) == changes_cursor
        }),
{
    let t = match attrs.preferred_theme {
        Some(theme) => seq![WindowAction::SetAppearance(theme)],
        None => Seq::<WindowAction>::empty(),
    };
    let b = action_if(attrs.blur, WindowAction::SetBlur(true));
    let l = seq![WindowAction::SetLevel(level_value(attrs.window_level))];
    let c = if same_cursor(attrs.cursor, w.cursor) {
        Seq::<WindowAction>::empty()
    } else {
        seq![WindowAction::SetCursor(attrs.cursor), WindowAction::InvalidateCursorRects]
    };
    let f = seq![WindowAction::QueueEvent(WindowEvent::Focused(false))];
    let a = delegate_setup_actions(w, attrs);
    assert(a == t + b + l + c + f);
    assert forall|x: WindowAction| #[trigger] a.contains(x) == (t.contains(x) || b.contains(x)
        || l.contains(x) || c.contains(x) || f.contains(x)) by {
        lemma_concat3_contains(t, b, l, x);
        lemma_concat_contains(t + b + l, c, x);
        lemma_concat_contains(t + b + l + c, f, x);
    }
    assert forall|x: WindowAction| #[trigger] c.contains(x) == (!same_cursor(attrs.cursor, w.cursor)
        && (x == WindowAction::SetCursor(attrs.cursor) || x == WindowAction::InvalidateCursorRects)) by {
        if !same_cursor(attrs.cursor, w.cursor) {
            if x == WindowAction::SetCursor(attrs.cursor) {
                assert(c[0] == x);
            }
            if x == WindowAction::InvalidateCursorRects {
                assert(c[1] == x);
            }
        }
    }
    assert forall|x: WindowAction| #[trigger] t.contains(x) == (attrs.preferred_theme matches Some(
        th,
    ) && x == WindowAction::SetAppearance(th)) by {
        lemma_singleton_contains(t, x);
    }
    assert forall|x: WindowAction| #[trigger] b.contains(x) == (attrs.blur && x
        == WindowAction::SetBlur(true)) by {
        lemma_singleton_contains(b, x);
    }
    assert forall|x: WindowAction| #[trigger] l.contains(x) == (x == WindowAction::SetLevel(
        level_value(attrs.window_level),
    )) by {
        lemma_singleton_contains(l, x);
    }
    assert forall|x: WindowAction| #[trigger] f.contains(x) == (x == WindowAction::QueueEvent(
        WindowEvent::Focused(false),
    )) by {
        lemma_singleton_contains(f, x);
    }
    if attrs.preferred_theme is Some {
        assert(a[0] == t[0]);
    }
}

/// How a new window is shown: made key and ordered front when it is to be visible and
/// active, only ordered front when visible but not active, not at all when hidden.
pub proof fn lemma_show_actions(visible: bool, active: bool)
    ensures
        visible && active ==> show_actions(visible, active) == seq![WindowAction::MakeKeyAndOrderFront],
        visible && !active ==> show_actions(visible, active) == seq![WindowAction::OrderFront],
        !visible ==> show_actions(visible, active).len() == 0,
{
}

/// The order of what is done to a new window: first its own set-up, then its delegate's
/// (ending with the queued `Focused(false)`), then the initial fullscreen, then showing it,
/// then, if asked, maximising it; the delegate remembers whether the window was created
/// fullscreen and whether it is a borderless game.
pub proof fn lemma_created_delegate_order(
    attrs: WindowAttrsModel,
    id: WindowId,
    has_screen: bool,
    system_theme: Theme,
    presentation_options: usize,
    input_source: String,
    current_monitor: Option<u32>,
    shielding_level: isize,
)
    ensures
        ({
            let (d, a) = created_delegate(
                attrs,
                id,
                has_screen,
                system_theme,
                presentation_options,
                input_source,
                current_monitor,
                shielding_level,
            );
            let w0 = created_window(attrs, id, has_screen, system_theme, presentation_options, input_source);
            let w1 = delegate_setup_window(w0, attrs);
            let game = attrs.platform_specific.borderless_game;
            let ws = window_setup_actions(attrs);
            let ds = delegate_setup_actions(w0, attrs);
            let fs = fullscreen_actions(w1, attrs.fullscreen, current_monitor, shielding_level, game);
            let k = ws.len() + ds.len() as int;
            &&& a.subrange(0, ws.len() as int) == ws
            &&& a.subrange(ws.len() as int, k) == ds
            &&& a[k - 1] == WindowAction::QueueEvent(WindowEvent::Focused(false))
            &&& a.subrange(k, k + fs.len() as int) == fs
            &&& attrs.visible ==> a[k + fs.len() as int] == (if attrs.active {
                WindowAction::MakeKeyAndOrderFront
            } else {
                WindowAction::OrderFront
            })
            &&& !attrs.visible && !attrs.maximized ==> a.len() == k + fs.len() as int
            &&& attrs.visible && !attrs.maximized ==> a.len() == k + fs.len() as int + 1
            &&& d.initial_fullscreen == (attrs.fullscreen is Some)
            &&& d.is_borderless_game == game
            &&& w1.level == level_value(attrs.window_level)
        }),
{
    let w0 = created_window(attrs, id, has_screen, system_theme, presentation_options, input_source);
    lemma_delegate_setup_actions(w0, attrs);
    let a = created_delegate(
        attrs,
        id,
        has_screen,
        system_theme,
        presentation_options,
        input_source,
        current_monitor,
        shielding_level,
    ).1;
    let w1 = delegate_setup_window(w0, attrs);
    let game = attrs.platform_specific.borderless_game;
    let ws = window_setup_actions(attrs);
    let ds = delegate_setup_actions(w0, attrs);
    let fs = fullscreen_actions(w1, attrs.fullscreen, current_monitor, shielding_level, game);
    let sh = show_actions(attrs.visible, attrs.active);
    let w2 = fullscreen_after(w1, attrs.fullscreen, current_monitor, shielding_level, game);
    let w3 = shown_initially(w2, attrs.visible);
    let mx = if attrs.maximized {
        maximize_actions(w3.style_mask, w3.zoomed, w3.shared.fullscreen is Some, true)
    } else {
        Seq::empty()
    };
    assert(a == ws + ds + fs + sh + mx);
    let k = ws.len() + ds.len() as int;
    assert(a.subrange(0, ws.len() as int) =~= ws);
    assert(a.subrange(ws.len() as int, k) =~= ds);
    assert(a[k - 1] == ds[ds.len() - 1]);
    assert(a.subrange(k, k + fs.len() as int) =~= fs);
    if attrs.visible {
        assert(a[k + fs.len() as int] == sh[0]);
    }
}

} // verus!
