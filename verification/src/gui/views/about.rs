//! The about screen. It shows fixed text and has no events of its own.

use vstd::prelude::*;

verus! {

/// The state of the about screen: there is none to keep.
#[derive(Debug, Clone, Copy, PartialEq, Eq, Structural)]
pub struct About {}

/// The about screen as it is displayed.
#[derive(Debug, PartialEq, Eq)]
pub struct AboutPage {
    pub title: String,
    pub text: String,
}

/// What an [`AboutPage`] is in contracts.
pub struct AboutPageModel {
    pub title: Seq<char>,
    pub text: Seq<char>,
}

impl DeepView for AboutPage {
    type V = AboutPageModel;

    open spec fn deep_view(&self) -> AboutPageModel {
        AboutPageModel { title: self.title@, text: self.text@ }
    }
}

impl Default for About {
    fn default() -> (about: Self)
        ensures
            about == (About {  }),
    {
        About {  }
    }
}

impl About {
    /// What the screen displays, whatever the state of the application.
    pub open spec fn rendered() -> AboutPageModel {
        AboutPageModel {
            title: "Universal Android Debloater"@,
            text: "Removes the packages of the debloat lists from the connected device."@,
        }
    }

    /// Renders the screen.
    pub fn view(&self) -> (page: AboutPage)
        ensures
            page.deep_view() == About::rendered(),
    {
        AboutPage {
            title: String::from_str("Universal Android Debloater"),
            text: String::from_str(
                "Removes the packages of the debloat lists from the connected device.",
            ),
        }
    }
}

} // verus!
