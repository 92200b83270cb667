//! Verified core of a keyboard-first screenshot tool: geometry, hotkeys,
//! configuration, pixel buffers, rasterisation, IPC framing, history
//! retention and the decision logic of its windows and UI pages.

pub mod geometry;
pub mod ipc;
pub mod text;
pub mod hotkey;
pub mod config;
pub mod retention;
pub mod overlay;
pub mod pixels;
pub mod dib;
pub mod raster;
pub mod pixelate;
pub mod action_bar;
pub mod annotate;
pub mod editor;
pub mod history;
pub mod timefmt;
pub mod ui;
pub mod daemon;
pub mod keys;
pub mod glyph;
pub mod bench;
pub mod capture;
pub mod store;
pub mod hotkeys;
pub mod imaging;
pub mod session;
