//! Board editor: the position being built and its validation.

pub mod state;
pub mod validation;
pub mod actions;
