//! The list screen: the packages of the catalog that was last delivered.

use crate::gui::command::Command;
use crate::gui::views::settings::Settings;
use crate::uad_lists::{Package, PackageModel};
use vstd::prelude::*;

verus! {

/// The state of the list screen.
#[derive(Debug, PartialEq, Eq)]
pub struct List {
    /// The preferences that the screen was last told of.
    settings: Settings,
    /// The catalog that was last delivered; `None` until one arrives.
    packages: Option<Vec<Package>>,
}

/// What a [`List`] is in contracts.
pub struct ListModel {
    pub settings: Settings,
    pub packages: Option<Seq<PackageModel>>,
}

/// An event of the list screen.
#[derive(Debug, PartialEq, Eq)]
pub enum Message {
    /// The preferences of the settings screen, as they stand now.
    LoadSettings(Settings),
    /// A load has finished. `generation` is the tag of the command that asked
    /// for it; an empty `uad_lists` stands for a catalog that could not be
    /// loaded.
    LoadPackages { generation: u64, uad_lists: Vec<Package> },
}

/// What a [`Message`] is in contracts.
pub enum MessageModel {
    LoadSettings(Settings),
    LoadPackages { generation: u64, uad_lists: Seq<PackageModel> },
}

/// The list screen as it is displayed.
#[derive(Debug, PartialEq, Eq)]
pub enum ListPage {
    /// No catalog has arrived since the screen was reset.
    Loading,
    /// The catalog that arrived holds no package.
    Empty,
    /// One row for each package, in the order of the catalog.
    Packages(Vec<Package>),
}

/// What a [`ListPage`] is in contracts.
pub enum ListPageModel {
    Loading,
    Empty,
    Packages(Seq<PackageModel>),
}

impl DeepView for List {
    type V = ListModel;

    closed spec fn deep_view(&self) -> ListModel {
        ListModel { settings: self.settings, packages: self.packages.deep_view() }
    }
}

impl DeepView for Message {
    type V = MessageModel;

    open spec fn deep_view(&self) -> MessageModel {
        match *self {
            Message::LoadSettings(settings) => MessageModel::LoadSettings(settings),
            Message::LoadPackages { generation, uad_lists } => MessageModel::LoadPackages {
                generation,
                uad_lists: uad_lists.deep_view(),
            },
        }
    }
}

impl DeepView for ListPage {
    type V = ListPageModel;

    open spec fn deep_view(&self) -> ListPageModel {
        match *self {
            ListPage::Loading => ListPageModel::Loading,
            ListPage::Empty => ListPageModel::Empty,
            ListPage::Packages(rows) => ListPageModel::Packages(rows.deep_view()),
        }
    }
}

impl Clone for List {
    fn clone(&self) -> (copy: Self)
        ensures
            copy.deep_view() == self.deep_view(),
    {
        List { settings: self.settings, packages: self.packages.clone() }
    }
}

impl Clone for Message {
    fn clone(&self) -> (copy: Self)
        ensures
            copy.deep_view() == self.deep_view(),
    {
        match self {
            Message::LoadSettings(settings) => Message::LoadSettings(*settings),
            Message::LoadPackages { generation, uad_lists } => Message::LoadPackages {
                generation: *generation,
                uad_lists: uad_lists.clone(),
            },
        }
    }
}

impl ListPageModel {
    /// The line that the page shows in place of packages, where it has none.
    pub open spec fn notice(self) -> Option<Seq<char>> {
        match self {
            ListPageModel::Loading => Some("Loading the packages of the device"@),
            ListPageModel::Empty => Some("No package to show"@),
            ListPageModel::Packages(_) => None,
        }
    }
}

impl ListPage {
    /// The line to show in place of packages, where the page has none.
    pub fn notice(&self) -> (text: Option<String>)
        ensures
            text.deep_view() == self.deep_view().notice(),
    {
        match self {
            ListPage::Loading => Some(String::from_str("Loading the packages of the device")),
            ListPage::Empty => Some(String::from_str("No package to show")),
            ListPage::Packages(_) => None,
        }
    }
}

impl MessageModel {
    /// Whether the event reports a load that is not the one tagged `current`.
    pub open spec fn is_stale(self, current: u64) -> bool {
        match self {
            MessageModel::LoadSettings(_) => false,
            MessageModel::LoadPackages { generation, .. } => generation != current,
        }
    }
}

impl ListModel {
    /// The screen before any catalog has arrived: default preferences, nothing
    /// to show.
    pub open spec fn initial() -> ListModel {
        ListModel { settings: Settings::initial(), packages: None }
    }

    /// The screen after `message`. New preferences replace the old ones and
    /// leave the packages alone; a delivered catalog replaces whatever was
    /// shown and leaves the preferences alone.
    pub open spec fn apply(self, message: MessageModel) -> ListModel {
        match message {
            MessageModel::LoadSettings(settings) => ListModel { settings, ..self },
            MessageModel::LoadPackages { uad_lists, .. } => ListModel {
                packages: Some(uad_lists),
                ..self
            },
        }
    }

    /// The work that the screen asks for on `message`: none, whatever the
    /// event.
    pub open spec fn command(self, message: MessageModel) -> Option<Command> {
        None
    }

    /// What the screen displays.
    pub open spec fn rendered(self) -> ListPageModel {
        match self.packages {
            None => ListPageModel::Loading,
            Some(rows) => if rows.len() == 0 {
                ListPageModel::Empty
            } else {
                ListPageModel::Packages(rows)
            },
        }
    }
}

impl Message {
    /// Whether the event reports a load that is not the one tagged `current`.
    pub fn is_stale(&self, current: u64) -> (stale: bool)
        ensures
            stale == self.deep_view().is_stale(current),
    {
        match self {
            Message::LoadSettings(_) => false,
            Message::LoadPackages { generation, .. } => *generation != current,
        }
    }
}

impl Default for List {
    fn default() -> (list: Self)
        ensures
            list.deep_view() == ListModel::initial(),
    {
        List { settings: Settings::default(), packages: None }
    }
}

impl List {
    /// The preferences that the screen was last told of.
    pub fn settings(&self) -> (settings: Settings)
        ensures
            settings == self.deep_view().settings,
    {
        self.settings
    }

    /// The catalog that the screen holds: `None` until one has arrived.
    pub fn packages(&self) -> (packages: Option<&Vec<Package>>)
        ensures
            packages.deep_view() == self.deep_view().packages,
    {
        match &self.packages {
            None => None,
            Some(rows) => Some(rows),
        }
    }

    /// Consumes one event of this screen and returns the work to schedule.
    pub fn update(&mut self, message: Message) -> (command: Option<Command>)
        ensures
            final(self).deep_view() == old(self).deep_view().apply(message.deep_view()),
            command == old(self).deep_view().command(message.deep_view()),
    {
        match message {
            Message::LoadSettings(settings) => {
                self.settings = settings;
            },
            Message::LoadPackages { generation: _, uad_lists } => {
                self.packages = Some(uad_lists);
            },
        }
        None
    }

    /// Renders the screen: a notice while no catalog has arrived, the empty
    /// state for a catalog without packages, else the packages in catalog
    /// order.
    pub fn view(&self) -> (page: ListPage)
        ensures
            page.deep_view() == self.deep_view().rendered(),
    {
        match &self.packages {
            None => ListPage::Loading,
            Some(rows) => {
                if rows.len() == 0 {
                    ListPage::Empty
                } else {
                    ListPage::Packages(rows.clone())
                }
            },
        }
    }
}

} // verus!
