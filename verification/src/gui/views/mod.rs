//! The three screens. Each owns its state, consumes its own events and
//! renders its own part of the display tree.

pub mod about;
pub mod list;
pub mod settings;
