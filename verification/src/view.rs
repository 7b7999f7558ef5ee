//! What the window shows, as plain values: backdrop settings, palette, copy-mode
//! highlights, the tab bar, which text rows need redrawing and the scroll position.
pub mod config;
pub mod color;
pub mod copy_mode;
pub mod tab_bar;
pub mod text_damage;
pub mod viewport;
pub mod terminal;
