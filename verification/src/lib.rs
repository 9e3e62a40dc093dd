//! Controller of a device-debloating desktop tool: the navigation state, the
//! single update step that consumes user and background events, and the
//! projection of the state onto a display tree.
//!
//! The controller is a reducer and a renderer. [`gui::UadGui::update`] takes
//! the state, one event and what the device query returned, and yields the
//! next state with the background work to schedule. [`gui::UadGui::view`]
//! turns the state into a [`gui::page::Page`]. Neither performs any I/O: the
//! host runs the scheduled work and hands the result back as an event.

pub mod gui;
pub mod uad_lists;
