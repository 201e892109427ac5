//! What the tray shell decides: when to poll, what a menu choice does, and
//! how the outcome of a poll is shown to the user.

pub mod alert;
pub mod tray;
