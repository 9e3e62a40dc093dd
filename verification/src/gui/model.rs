//! The controller as mathematics: what the state and the events are in
//! contracts, the update step as a function from state and event to state and
//! scheduled work, and the rendering as a function from state to page.

use crate::gui::command::{Command, Delivery};
use crate::gui::page::{BodyModel, NavButton, NavigationBarModel, PageModel};
use crate::gui::views::about::About;
use crate::gui::views::list::{ListModel, MessageModel as AppsMessageModel};
use crate::gui::views::settings::{Message as SettingsMessage, Settings};
use crate::gui::View;
use crate::uad_lists::PackageModel;
use vstd::prelude::*;
use vstd::view::View as _;

verus! {

/// What a [`crate::gui::UadGui`] is in contracts.
pub struct UadGuiModel {
    /// The screen that is shown.
    pub view: View,
    /// The state of the list screen.
    pub apps_view: ListModel,
    /// The state of the settings screen.
    pub settings_view: Settings,
    /// The identity of the connected device, or the line for no device.
    pub device_name: Seq<char>,
    /// The tag of the load whose result the list screen is to take.
    pub generation: u64,
}

/// What a [`crate::gui::Message`] is in contracts.
pub enum MessageModel {
    AboutPressed,
    SettingsPressed,
    AppsRefreshPress,
    AppsPress,
    AppsAction(AppsMessageModel),
    SettingsAction(SettingsMessage),
    Init(AppsMessageModel),
}

/// The device line of a state that no device query has reached yet, and of
/// one whose query found no device.
pub open spec fn no_phone() -> Seq<char> {
    "No phone connected"@
}

/// The device line for what a device query returned: the identity that it
/// found, or the line for no device.
pub open spec fn device_label(phone_brand: Option<Seq<char>>) -> Seq<char> {
    match phone_brand {
        Some(brand) => brand,
        None => no_phone(),
    }
}

/// The tag that follows `generation`. It differs from `generation`; after the
/// largest tag the count starts again at zero.
pub open spec fn next_generation(generation: u64) -> u64 {
    if generation == u64::MAX {
        0
    } else {
        (generation + 1) as u64
    }
}

/// The event of the list screen that reports a finished load: it carries the
/// tag of the load and the catalog, or the empty catalog where none could be
/// loaded.
pub open spec fn load_report(
    generation: u64,
    uad_lists: Option<Seq<PackageModel>>,
) -> AppsMessageModel {
    AppsMessageModel::LoadPackages {
        generation,
        uad_lists: match uad_lists {
            Some(packages) => packages,
            None => Seq::empty(),
        },
    }
}

impl MessageModel {
    /// Whether the step for this event takes the device line from the device
    /// query. Every other step leaves the device line alone.
    pub open spec fn queries_device(self) -> bool {
        self is Init || self is AppsRefreshPress
    }
}

impl UadGuiModel {
    /// The state at start: the list screen shown, every screen in its first
    /// state, no device known, no load tagged yet.
    pub open spec fn initial() -> UadGuiModel {
        UadGuiModel {
            view: View::List,
            apps_view: ListModel::initial(),
            settings_view: Settings::initial(),
            device_name: no_phone(),
            generation: 0,
        }
    }

    /// The load that is scheduled from this state: it is tagged with the
    /// generation that follows and comes back as an event of the list screen.
    pub open spec fn reload(self) -> Command {
        Command::LoadPhonePackages {
            generation: next_generation(self.generation),
            deliver: Delivery::AppsAction,
        }
    }

    /// One step of the controller: the state and the scheduled work after
    /// `message`, where `phone_brand` is what the device query returned at
    /// the time of the step.
    ///
    /// - A press on About or Settings shows that screen.
    /// - A press on Apps shows the list screen and hands it the preferences
    ///   as they stand.
    /// - A press on refresh takes the device line from the query, puts the
    ///   list screen back into its first state, shows it and schedules a load
    ///   under a new tag.
    /// - The start-up event takes the device line from the query and schedules
    ///   a load under a new tag. Its payload is not read.
    /// - An event of the list screen goes to that screen, and the work that
    ///   the screen asks for is passed on as it is; but the report of a load
    ///   whose tag is not the current one is dropped, and nothing changes.
    /// - An event of the settings screen goes to that screen.
    pub open spec fn step(self, message: MessageModel, phone_brand: Option<Seq<char>>) -> (
        UadGuiModel,
        Option<Command>,
    ) {
        match message {
            MessageModel::AboutPressed => (UadGuiModel { view: View::About, ..self }, None),
            MessageModel::SettingsPressed => (UadGuiModel { view: View::Settings, ..self }, None),
            MessageModel::AppsPress => {
                let notice = AppsMessageModel::LoadSettings(self.settings_view);
                (
                    UadGuiModel {
                        view: View::List,
                        apps_view: self.apps_view.apply(notice),
                        ..self
                    },
                    self.apps_view.command(notice),
                )
            },
            MessageModel::AppsRefreshPress => (
                UadGuiModel {
                    view: View::List,
                    apps_view: ListModel::initial(),
                    device_name: device_label(phone_brand),
                    generation: next_generation(self.generation),
                    ..self
                },
                Some(self.reload()),
            ),
            MessageModel::Init(_) => (
                UadGuiModel {
                    device_name: device_label(phone_brand),
                    generation: next_generation(self.generation),
                    ..self
                },
                Some(self.reload()),
            ),
            MessageModel::AppsAction(inner) => if inner.is_stale(self.generation) {
                (self, None)
            } else {
                (
                    UadGuiModel { apps_view: self.apps_view.apply(inner), ..self },
                    self.apps_view.command(inner),
                )
            },
            MessageModel::SettingsAction(inner) => (
                UadGuiModel { settings_view: self.settings_view.apply(inner), ..self },
                None,
            ),
        }
    }

    /// The window for this state: the navigation bar with the device line and
    /// the four controls, and below it the page of the screen that is shown.
    pub open spec fn rendered(self) -> PageModel {
        PageModel {
            navigation: NavigationBarModel {
                device: "Device: "@ + self.device_name,
                buttons: NavButton::all(),
            },
            body: match self.view {
                View::List => BodyModel::List(self.apps_view.rendered()),
                View::About => BodyModel::About(About::rendered()),
                View::Settings => BodyModel::Settings(self.settings_view.rendered()),
            },
        }
    }
}

} // verus!
