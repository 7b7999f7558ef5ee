//! Application rules around the terminal: copy mode, tabs, keys and the shell session.
pub mod text;
pub mod movement;
pub mod copy;
pub mod selection;
pub mod tabs;
pub mod input;
pub mod session;
pub mod pointer;
pub mod dispatch;
