//! The platform layers of a windowing library (macOS, and the OpenHarmony event loop):
//! keyboard translation, the application and window state machines, and the small
//! bit-level helpers they use.
pub mod keyboard;
pub mod event;
pub mod view;
pub mod observer;
pub mod platform;
pub mod appkit;
pub mod app_delegate;
pub mod event_handler;
pub mod event_loop;
pub mod monitor;
pub mod cursor;
pub mod window;
pub mod window_delegate;
pub mod menu;
pub mod util;
pub mod channel;
pub mod app;
pub mod ohos;
