//! Move and resize windows by dragging anywhere inside them while a modifier
//! key combination is held.
//!
//! The library holds everything that decides: the rectangle arithmetic of a
//! gesture, the drag state machine driven by the mouse hook, the tray-menu
//! commands, the launch-at-login decisions and the text that the overlay and
//! the diagnostic log show. The program around it performs the Win32 calls.

pub mod geometry;
pub mod text;
pub mod config;
pub mod gesture;
pub mod tray;
pub mod dlog;
pub mod autostart;
pub mod overlay;
