//! The decisions of a Tauri runtime on the Chromium Embedded Framework.
//!
//! Everything here is a function from plain values to plain values: a state and
//! an event go in, the next state and the actions to perform come out. Talking to
//! CEF, X11 and the event loop is left to the caller.

pub mod config;
pub mod geometry;
pub mod native_wayland;
pub mod permission;
pub mod schemes;
pub mod views;
pub mod wayland;
pub mod webview;
pub mod window;
pub mod x11;
