//! How the window of the application is opened.

use crate::gui::UadGui;
use vstd::prelude::*;

verus! {

/// The configuration of the window and the base size of its text.
#[derive(Debug, Clone, Copy, PartialEq, Eq, Structural)]
pub struct WindowSettings {
    pub width: u32,
    pub height: u32,
    pub resizable: bool,
    pub decorations: bool,
    pub default_text_size: u16,
}

impl WindowSettings {
    /// The one configuration that the application starts with.
    pub open spec fn fixed() -> WindowSettings {
        WindowSettings {
            width: 1050,
            height: 800,
            resizable: true,
            decorations: true,
            default_text_size: 17,
        }
    }
}

impl UadGui {
    /// How the application starts: the configuration that the host opens the
    /// window with, before it runs its event loop on [`UadGui::new`].
    pub fn start() -> (settings: WindowSettings)
        ensures
            settings == WindowSettings::fixed(),
    {
        WindowSettings {
            width: 1050,
            height: 800,
            resizable: true,
            decorations: true,
            default_text_size: 17,
        }
    }
}

} // verus!
