//! The decision logic of a screen-capture overlay: the hotkey table, window
//! geometry, the overlay's state machine, the pixel conversion of a capture
//! and the preparation of the upload that carries it.

pub mod geometry;
pub mod hotkeys;
pub mod overlay;
pub mod pixels;
pub mod upload;
