//! A command menu: groups of command entries, two cursors over them, and
//! the messages that move the cursors between the two screens.

pub mod dispatch;
pub mod entry;
pub mod input;
pub mod laws;
pub mod message;
pub mod model;
pub mod screen;
