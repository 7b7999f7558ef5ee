//! A terminal emulator core: screen model, control-sequence decoding,
//! scrollback storage, copy mode and tab bookkeeping.
pub mod size;
pub mod mouse;
pub mod width;
pub mod screen;
pub mod view;
pub mod ui;
pub mod state;
