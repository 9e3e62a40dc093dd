//! The settings screen: the preferences that the list screen applies.

use vstd::prelude::*;

verus! {

/// The preferences. The value is both the screen's state and what the list
/// screen is handed when the user returns to it.
#[derive(Debug, Clone, Copy, PartialEq, Eq, Structural)]
pub struct Settings {
    pub expert_mode: bool,
    pub disable_mode: bool,
    pub multi_user_mode: bool,
}

/// The preference that a toggle stands for.
#[derive(Debug, Clone, Copy, PartialEq, Eq, Structural)]
pub enum Setting {
    ExpertMode,
    DisableMode,
    MultiUserMode,
}

/// An event of the settings screen: a preference was switched on or off.
#[derive(Debug, Clone, Copy, PartialEq, Eq, Structural)]
pub enum Message {
    ExpertMode(bool),
    DisableMode(bool),
    MultiUserMode(bool),
}

/// One switch of the settings screen as it is displayed.
#[derive(Debug, Clone, Copy, PartialEq, Eq, Structural)]
pub struct Toggle {
    pub setting: Setting,
    pub is_checked: bool,
}

/// The settings screen as it is displayed: its switches, top to bottom.
#[derive(Debug, PartialEq, Eq)]
pub struct SettingsPage {
    pub toggles: Vec<Toggle>,
}

impl Setting {
    /// The text beside the toggle of this preference.
    pub open spec fn label_text(self) -> Seq<char> {
        match self {
            Setting::ExpertMode => "Expert mode"@,
            Setting::DisableMode => "Disable mode"@,
            Setting::MultiUserMode => "Multi-user mode"@,
        }
    }

    /// The event that reports this preference switched to `checked`.
    pub open spec fn toggled(self, checked: bool) -> Message {
        match self {
            Setting::ExpertMode => Message::ExpertMode(checked),
            Setting::DisableMode => Message::DisableMode(checked),
            Setting::MultiUserMode => Message::MultiUserMode(checked),
        }
    }

    pub fn label(self) -> (text: String)
        ensures
            text@ == self.label_text(),
    {
        match self {
            Setting::ExpertMode => String::from_str("Expert mode"),
            Setting::DisableMode => String::from_str("Disable mode"),
            Setting::MultiUserMode => String::from_str("Multi-user mode"),
        }
    }

    pub fn on_toggle(self, checked: bool) -> (message: Message)
        ensures
            message == self.toggled(checked),
    {
        match self {
            Setting::ExpertMode => Message::ExpertMode(checked),
            Setting::DisableMode => Message::DisableMode(checked),
            Setting::MultiUserMode => Message::MultiUserMode(checked),
        }
    }
}

impl Default for Settings {
    fn default() -> (settings: Self)
        ensures
            settings == Settings::initial(),
    {
        Settings { expert_mode: false, disable_mode: false, multi_user_mode: false }
    }
}

impl Settings {
    /// The preferences at start: every one switched off.
    pub open spec fn initial() -> Settings {
        Settings { expert_mode: false, disable_mode: false, multi_user_mode: false }
    }

    /// The preferences after `message`: the one it names takes the value it
    /// carries, the others stay.
    pub open spec fn apply(self, message: Message) -> Settings {
        match message {
            Message::ExpertMode(on) => Settings { expert_mode: on, ..self },
            Message::DisableMode(on) => Settings { disable_mode: on, ..self },
            Message::MultiUserMode(on) => Settings { multi_user_mode: on, ..self },
        }
    }

    /// The switches that display these preferences.
    pub open spec fn rendered(self) -> Seq<Toggle> {
        seq![
            Toggle { setting: Setting::ExpertMode, is_checked: self.expert_mode },
            Toggle { setting: Setting::DisableMode, is_checked: self.disable_mode },
            Toggle { setting: Setting::MultiUserMode, is_checked: self.multi_user_mode },
        ]
    }

    /// Consumes one event of this screen. It schedules no work.
    pub fn update(&mut self, message: Message)
        ensures
            *final(self) == old(self).apply(message),
    {
        match message {
            Message::ExpertMode(on) => {
                self.expert_mode = on;
            },
            Message::DisableMode(on) => {
                self.disable_mode = on;
            },
            Message::MultiUserMode(on) => {
                self.multi_user_mode = on;
            },
        }
    }

    /// Renders the screen: one switch for each preference, showing its value.
    pub fn view(&self) -> (page: SettingsPage)
        ensures
            page.toggles@ == self.rendered(),
    {
        let mut toggles: Vec<Toggle> = Vec::new();
        toggles.push(Toggle { setting: Setting::ExpertMode, is_checked: self.expert_mode });
        toggles.push(Toggle { setting: Setting::DisableMode, is_checked: self.disable_mode });
        toggles.push(Toggle { setting: Setting::MultiUserMode, is_checked: self.multi_user_mode });
        SettingsPage { toggles }
    }
}

} // verus!
