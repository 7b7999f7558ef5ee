//! The screen model of the terminal: cells, buffers, control decoding and editing.
pub mod cell;
pub mod sgr;
pub mod buffer;
pub mod line;
pub mod control;
pub mod editor;
pub mod lines;
