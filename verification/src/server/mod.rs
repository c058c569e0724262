//! Server-side state: game clocks, players and rooms.

pub mod player;
pub mod handler;
pub mod room;
pub mod timer;
