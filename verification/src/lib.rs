//! Core of an input-method indicator: the overlay's render cache, the alpha
//! compositor, the fade easing and the display worker's state machine.
//!
//! Everything here works on plain values. Talking to the compositor, the
//! rasterizer and the message bus is left to the program around this library.

pub mod easing;
pub mod compositor;
pub mod cache;
pub mod config;
pub mod placement;
pub mod session;
pub mod worker;
pub mod display;
pub mod dispatch;

pub use crate::dispatch::AppState;
pub use crate::display::get_display_text;
