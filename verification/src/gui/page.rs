//! The display tree: what the controller hands to whatever draws the window.

use crate::gui::views::about::{AboutPage, AboutPageModel};
use crate::gui::views::list::{ListPage, ListPageModel};
use crate::gui::views::settings::{SettingsPage, Toggle};
use crate::gui::model::MessageModel;
use crate::gui::Message;
use vstd::prelude::*;

verus! {

/// A picture that stands on a control in place of text.
#[derive(Debug, Clone, Copy, PartialEq, Eq, Structural)]
pub enum Icon {
    Refresh,
}

/// What stands on a control.
#[derive(Debug, PartialEq, Eq)]
pub enum Label {
    Text(String),
    Icon(Icon),
}

/// What a [`Label`] is in contracts.
pub enum LabelModel {
    Text(Seq<char>),
    Icon(Icon),
}

/// A control of the navigation bar.
#[derive(Debug, Clone, Copy, PartialEq, Eq, Structural)]
pub enum NavButton {
    /// Query the device again and reload the catalog.
    AppsRefresh,
    /// Show the list screen.
    Apps,
    /// Show the about screen.
    About,
    /// Show the settings screen.
    Settings,
}

/// The bar above every screen: the connected device and the controls.
#[derive(Debug, PartialEq, Eq)]
pub struct NavigationBar {
    /// The line that names the connected device.
    pub device: String,
    /// The controls, left to right.
    pub buttons: Vec<NavButton>,
}

/// What a [`NavigationBar`] is in contracts.
pub struct NavigationBarModel {
    pub device: Seq<char>,
    pub buttons: Seq<NavButton>,
}

/// The region below the navigation bar: the page of the active screen. The
/// variant says whose events the page emits.
#[derive(Debug, PartialEq, Eq)]
pub enum Body {
    List(ListPage),
    About(AboutPage),
    Settings(SettingsPage),
}

/// What a [`Body`] is in contracts.
pub enum BodyModel {
    List(ListPageModel),
    About(AboutPageModel),
    Settings(Seq<Toggle>),
}

/// The whole window: the navigation bar and, below it, one body.
#[derive(Debug, PartialEq, Eq)]
pub struct Page {
    pub navigation: NavigationBar,
    pub body: Body,
}

/// What a [`Page`] is in contracts.
pub struct PageModel {
    pub navigation: NavigationBarModel,
    pub body: BodyModel,
}

impl DeepView for Label {
    type V = LabelModel;

    open spec fn deep_view(&self) -> LabelModel {
        match *self {
            Label::Text(text) => LabelModel::Text(text@),
            Label::Icon(icon) => LabelModel::Icon(icon),
        }
    }
}

impl DeepView for NavigationBar {
    type V = NavigationBarModel;

    open spec fn deep_view(&self) -> NavigationBarModel {
        NavigationBarModel { device: self.device@, buttons: self.buttons@ }
    }
}

impl DeepView for Body {
    type V = BodyModel;

    open spec fn deep_view(&self) -> BodyModel {
        match *self {
            Body::List(page) => BodyModel::List(page.deep_view()),
            Body::About(page) => BodyModel::About(page.deep_view()),
            Body::Settings(page) => BodyModel::Settings(page.toggles@),
        }
    }
}

impl DeepView for Page {
    type V = PageModel;

    open spec fn deep_view(&self) -> PageModel {
        PageModel { navigation: self.navigation.deep_view(), body: self.body.deep_view() }
    }
}

impl NavButton {
    /// The controls of the navigation bar, left to right.
    pub open spec fn all() -> Seq<NavButton> {
        seq![NavButton::AppsRefresh, NavButton::Apps, NavButton::About, NavButton::Settings]
    }

    /// The event that a press of the control sends.
    pub open spec fn pressed(self) -> MessageModel {
        match self {
            NavButton::AppsRefresh => MessageModel::AppsRefreshPress,
            NavButton::Apps => MessageModel::AppsPress,
            NavButton::About => MessageModel::AboutPressed,
            NavButton::Settings => MessageModel::SettingsPressed,
        }
    }

    /// What stands on the control.
    pub open spec fn face(self) -> LabelModel {
        match self {
            NavButton::AppsRefresh => LabelModel::Icon(Icon::Refresh),
            NavButton::Apps => LabelModel::Text("Apps"@),
            NavButton::About => LabelModel::Text("About"@),
            NavButton::Settings => LabelModel::Text("Settings"@),
        }
    }

    /// The event to send when the control is pressed.
    pub fn on_press(self) -> (message: Message)
        ensures
            message.deep_view() == self.pressed(),
    {
        match self {
            NavButton::AppsRefresh => Message::AppsRefreshPress,
            NavButton::Apps => Message::AppsPress,
            NavButton::About => Message::AboutPressed,
            NavButton::Settings => Message::SettingsPressed,
        }
    }

    /// What to draw on the control.
    pub fn label(self) -> (label: Label)
        ensures
            label.deep_view() == self.face(),
    {
        match self {
            NavButton::AppsRefresh => Label::Icon(Icon::Refresh),
            NavButton::Apps => Label::Text(String::from_str("Apps")),
            NavButton::About => Label::Text(String::from_str("About")),
            NavButton::Settings => Label::Text(String::from_str("Settings")),
        }
    }
}

} // verus!
