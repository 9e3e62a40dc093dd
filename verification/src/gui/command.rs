//! Background work that an update step schedules.

use crate::gui::model::{load_report, MessageModel};
use crate::gui::{Message, UadGui};
use crate::uad_lists::{Package, PackageModel};
use vstd::prelude::*;

verus! {

/// How the result of a load comes back to the controller.
#[derive(Debug, Clone, Copy, PartialEq, Eq, Structural)]
pub enum Delivery {
    /// As the start-up event.
    Init,
    /// As an event of the list screen.
    AppsAction,
}

/// Work that an update step asks the host to run off the control thread. The
/// host runs it without blocking the controller and completes it with one
/// event, see [`Command::complete`]. A command cannot be copied, so that it
/// cannot be completed twice.
#[derive(Debug, PartialEq, Eq, Structural)]
pub enum Command {
    /// Load the catalog. The result carries `generation`, so that the
    /// controller can tell the result of a load that a later one has replaced.
    LoadPhonePackages { generation: u64, deliver: Delivery },
}

impl Command {
    /// The event that completes the command, given what the load produced:
    /// the report of the load, wrapped as the command says.
    pub open spec fn completion(self, uad_lists: Option<Seq<PackageModel>>) -> MessageModel {
        match self {
            Command::LoadPhonePackages { generation, deliver } => match deliver {
                Delivery::Init => MessageModel::Init(load_report(generation, uad_lists)),
                Delivery::AppsAction => MessageModel::AppsAction(
                    load_report(generation, uad_lists),
                ),
            },
        }
    }

    /// Completes the command with what the load produced, and returns the
    /// event to hand to the update step. `uad_lists` is the catalog, `None`
    /// where it could not be loaded. The command is used up.
    pub fn complete(self, uad_lists: Option<Vec<Package>>) -> (message: Message)
        ensures
            message.deep_view() == self.completion(uad_lists.deep_view()),
    {
        match self {
            Command::LoadPhonePackages { generation, deliver } => {
                let report = UadGui::load_phone_packages(generation, uad_lists);
                match deliver {
                    Delivery::Init => Message::Init(report),
                    Delivery::AppsAction => Message::AppsAction(report),
                }
            },
        }
    }
}

} // verus!
