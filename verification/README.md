# winit (macOS platform layer), verified

The decisions of a windowing library's macOS platform layer, written in Verus and proved
against their contracts: what a key press means, how modifier flags and IME input become
events, when the application delegate dispatches what and re-arms its timer, how a window
is created, enters and leaves native, exclusive and simple fullscreen, maximises, changes
its style mask and is restored afterwards, and which video modes a monitor offers. The
OpenHarmony event loop's handling of main and input events is there too.

## Layout

- `src/` — the verified library. Each operation on a model of native state (a window, a
  view, the application delegate) returns the actions to perform on the native objects,
  in order, and its contract states both the new state and those actions.
  - `keyboard.rs`, `event.rs`, `view.rs` — keys, scancodes, modifiers, key events, IME.
  - `app_delegate.rs`, `event_loop.rs`, `observer.rs`, `event_handler.rs` — the
    application delegate's state machine, `run_on_demand`/`pump_events`, the run-loop timer.
  - `window.rs`, `window_delegate.rs` — window creation, the window state machine,
    fullscreen transitions.
  - `ohos.rs` — the OpenHarmony event loop.
  - `monitor.rs`, `cursor.rs`, `menu.rs`, `app.rs`, `util.rs`, `channel.rs`, `appkit.rs`,
    `platform.rs` — smaller pieces.
- `tests/` — tests on concrete values.
- `app/` — the AppKit and Core Graphics side: runs the event loop, creates windows, reads
  native state, calls the library and performs the actions it returns. Floating-point
  geometry stays there.
