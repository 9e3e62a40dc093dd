//! The application controller: the top-level state, the events, the update
//! step and the rendering of the window.

pub mod command;
pub mod laws;
pub mod model;
pub mod page;
pub mod views;
pub mod window;

pub use crate::uad_lists::Package;
pub use command::{Command, Delivery};
pub use model::{MessageModel, UadGuiModel};
pub use views::about::About as AboutView;
pub use views::list::{List as AppsView, Message as AppsMessage};
pub use views::settings::{Message as SettingsMessage, Settings as SettingsView};

use crate::uad_lists::PackageModel;
use model::{device_label, load_report, next_generation};
use page::{Body, NavButton, NavigationBar, Page};
use vstd::prelude::*;
use vstd::view::View as _;

verus! {

/// The screen that is shown. Exactly one is active at any time.
#[derive(Debug, Clone, Copy, PartialEq, Eq, Structural)]
pub enum View {
    List,
    About,
    Settings,
}

/// The state of the application. All three screens are kept whichever is
/// shown, so that a change of screen loses nothing. The state changes in
/// [`UadGui::update`] and nowhere else.
#[derive(Debug, PartialEq, Eq)]
pub struct UadGui {
    view: View,
    apps_view: AppsView,
    about_view: AboutView,
    settings_view: SettingsView,
    device_name: String,
    /// The tag of the load whose result the list screen is to take. Every
    /// scheduled load gets a new one.
    generation: u64,
}

/// Everything that can happen to the application.
#[derive(Debug, PartialEq, Eq)]
pub enum Message {
    /// The About control of the navigation bar was pressed.
    AboutPressed,
    /// The Settings control of the navigation bar was pressed.
    SettingsPressed,
    /// The refresh control was pressed: query the device again and reload
    /// the catalog.
    AppsRefreshPress,
    /// The Apps control of the navigation bar was pressed.
    AppsPress,
    /// An event of the list screen.
    AppsAction(AppsMessage),
    /// An event of the settings screen.
    SettingsAction(SettingsMessage),
    /// The load that was scheduled at start has finished.
    Init(AppsMessage),
}

impl Default for View {
    fn default() -> (view: Self)
        ensures
            view == View::List,
    {
        Self::List
    }
}

impl DeepView for Message {
    type V = MessageModel;

    open spec fn deep_view(&self) -> MessageModel {
        match *self {
            Message::AboutPressed => MessageModel::AboutPressed,
            Message::SettingsPressed => MessageModel::SettingsPressed,
            Message::AppsRefreshPress => MessageModel::AppsRefreshPress,
            Message::AppsPress => MessageModel::AppsPress,
            Message::AppsAction(message) => MessageModel::AppsAction(message.deep_view()),
            Message::SettingsAction(message) => MessageModel::SettingsAction(message),
            Message::Init(message) => MessageModel::Init(message.deep_view()),
        }
    }
}

impl Clone for Message {
    fn clone(&self) -> (copy: Self)
        ensures
            copy.deep_view() == self.deep_view(),
    {
        match self {
            Message::AboutPressed => Message::AboutPressed,
            Message::SettingsPressed => Message::SettingsPressed,
            Message::AppsRefreshPress => Message::AppsRefreshPress,
            Message::AppsPress => Message::AppsPress,
            Message::AppsAction(message) => Message::AppsAction(message.clone()),
            Message::SettingsAction(message) => Message::SettingsAction(*message),
            Message::Init(message) => Message::Init(message.clone()),
        }
    }
}

impl Message {
    /// Whether the step for this event takes the device line from the device
    /// query, so that the host has to run the query before the step.
    pub fn queries_device(&self) -> (asks: bool)
        ensures
            asks == self.deep_view().queries_device(),
    {
        match self {
            Message::Init(_) => true,
            Message::AppsRefreshPress => true,
            _ => false,
        }
    }
}

impl DeepView for UadGui {
    type V = UadGuiModel;

    closed spec fn deep_view(&self) -> UadGuiModel {
        UadGuiModel {
            view: self.view,
            apps_view: self.apps_view.deep_view(),
            settings_view: self.settings_view,
            device_name: self.device_name@,
            generation: self.generation,
        }
    }
}

impl Clone for UadGui {
    fn clone(&self) -> (copy: Self)
        ensures
            copy.deep_view() == self.deep_view(),
    {
        UadGui {
            view: self.view,
            apps_view: self.apps_view.clone(),
            about_view: self.about_view,
            settings_view: self.settings_view,
            device_name: self.device_name.clone(),
            generation: self.generation,
        }
    }
}

impl Default for UadGui {
    fn default() -> (gui: Self)
        ensures
            gui.deep_view() == UadGuiModel::initial(),
    {
        Self {
            view: View::default(),
            apps_view: AppsView::default(),
            about_view: AboutView::default(),
            settings_view: SettingsView::default(),
            device_name: String::from_str("No phone connected"),
            generation: 0,
        }
    }
}

impl UadGui {
    /// The state at start, and the load that the host is to run first. The
    /// report of that load comes back as the start-up event.
    pub fn new(_flags: ()) -> (start: (Self, Command))
        ensures
            start.0.deep_view() == UadGuiModel::initial(),
            start.1 == (Command::LoadPhonePackages { generation: 0, deliver: Delivery::Init }),
    {
        (Self::default(), Command::LoadPhonePackages { generation: 0, deliver: Delivery::Init })
    }

    /// The title of the window.
    pub fn title(&self) -> (title: String)
        ensures
            title@ == "UadGui"@,
    {
        String::from_str("UadGui")
    }

    /// Consumes one event and returns the work to schedule, if any.
    /// `phone_brand` is what the device query returned at the time of the
    /// step, `None` where no device answered; only the steps that take the
    /// device line read it, see [`Message::queries_device`]. The step does
    /// not block and does not fail.
    pub fn update(&mut self, message: Message, phone_brand: Option<String>) -> (command: Option<
        Command,
    >)
        ensures
            (final(self).deep_view(), command) == old(self).deep_view().step(
                message.deep_view(),
                phone_brand.deep_view(),
            ),
    {
        match message {
            Message::Init(_) => {
                self.device_name = Self::device_label(phone_brand);
                self.generation = Self::next_generation(self.generation);
                Some(
                    Command::LoadPhonePackages {
                        generation: self.generation,
                        deliver: Delivery::AppsAction,
                    },
                )
            },
            Message::AppsRefreshPress => {
                self.device_name = Self::device_label(phone_brand);
                self.apps_view = AppsView::default();
                self.view = View::List;
                self.generation = Self::next_generation(self.generation);
                Some(
                    Command::LoadPhonePackages {
                        generation: self.generation,
                        deliver: Delivery::AppsAction,
                    },
                )
            },
            Message::AppsPress => {
                self.view = View::List;
                self.apps_view.update(AppsMessage::LoadSettings(self.settings_view))
            },
            Message::AboutPressed => {
                self.view = View::About;
                None
            },
            Message::SettingsPressed => {
                self.view = View::Settings;
                None
            },
            Message::AppsAction(msg) => {
                if msg.is_stale(self.generation) {
                    None
                } else {
                    self.apps_view.update(msg)
                }
            },
            Message::SettingsAction(msg) => {
                self.settings_view.update(msg);
                None
            },
        }
    }

    /// Renders the window. The state is not changed, and the page depends on
    /// nothing but the state.
    pub fn view(&self) -> (page: Page)
        ensures
            page.deep_view() == self.deep_view().rendered(),
    {
        let device = String::from_str("Device: ").concat(self.device_name.as_str());
        let mut buttons: Vec<NavButton> = Vec::new();
        buttons.push(NavButton::AppsRefresh);
        buttons.push(NavButton::Apps);
        buttons.push(NavButton::About);
        buttons.push(NavButton::Settings);
        assert(buttons@ =~= NavButton::all());
        let body = match self.view {
            View::List => Body::List(self.apps_view.view()),
            View::About => Body::About(self.about_view.view()),
            View::Settings => Body::Settings(self.settings_view.view()),
        };
        Page { navigation: NavigationBar { device, buttons }, body }
    }

    /// Builds the event of the list screen that reports a finished load under
    /// the tag `generation`. `uad_lists` is the catalog, `None` where it could
    /// not be loaded: the failure is not passed on, the event then carries the
    /// empty catalog.
    pub fn load_phone_packages(generation: u64, uad_lists: Option<Vec<Package>>) -> (message:
        AppsMessage)
        ensures
            message.deep_view() == load_report(generation, uad_lists.deep_view()),
    {
        match uad_lists {
            Some(packages) => AppsMessage::LoadPackages { generation, uad_lists: packages },
            None => {
                let packages: Vec<Package> = Vec::new();
                assert(packages.deep_view() =~= Seq::<PackageModel>::empty());
                AppsMessage::LoadPackages { generation, uad_lists: packages }
            },
        }
    }

    /// The screen that is shown.
    pub fn current_view(&self) -> (view: View)
        ensures
            view == self.deep_view().view,
    {
        self.view
    }

    /// The state of the list screen.
    pub fn apps_view(&self) -> (apps_view: &AppsView)
        ensures
            apps_view.deep_view() == self.deep_view().apps_view,
    {
        &self.apps_view
    }

    /// The state of the settings screen.
    pub fn settings_view(&self) -> (settings_view: SettingsView)
        ensures
            settings_view == self.deep_view().settings_view,
    {
        self.settings_view
    }

    /// The identity of the connected device, or the line for no device.
    pub fn device_name(&self) -> (device_name: &str)
        ensures
            device_name@ == self.deep_view().device_name,
    {
        self.device_name.as_str()
    }

    /// The tag of the load whose result the list screen is to take.
    pub fn generation(&self) -> (generation: u64)
        ensures
            generation == self.deep_view().generation,
    {
        self.generation
    }

    fn device_label(phone_brand: Option<String>) -> (label: String)
        ensures
            label@ == device_label(phone_brand.deep_view()),
    {
        match phone_brand {
            Some(brand) => brand,
            None => String::from_str("No phone connected"),
        }
    }

    fn next_generation(generation: u64) -> (next: u64)
        ensures
            next == next_generation(generation),
    {
        if generation == u64::MAX {
            0
        } else {
            generation + 1
        }
    }
}

} // verus!
