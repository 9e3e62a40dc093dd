//! What holds of the update step whatever the state and the events: proved
//! once here, over the same models that the contracts of the controller use.

use crate::gui::command::{Command, Delivery};
use crate::gui::model::{load_report, next_generation, MessageModel, UadGuiModel};
use crate::gui::page::{NavButton, Page};
use crate::gui::views::list::{ListModel, MessageModel as AppsMessageModel};
use crate::gui::{UadGui, View};
use crate::uad_lists::PackageModel;
use vstd::prelude::*;
use vstd::view::View as _;

verus! {

/// One event together with what the device query returned when the event was
/// handled.
pub struct Input {
    pub message: MessageModel,
    pub phone_brand: Option<Seq<char>>,
}

/// Whether `message` is a press on one of the three controls that only change
/// the screen.
pub open spec fn is_navigation(message: MessageModel) -> bool {
    message is AboutPressed || message is SettingsPressed || message is AppsPress
}

/// The screen that a navigation event asks for.
pub open spec fn target(message: MessageModel) -> View
    recommends
        is_navigation(message),
{
    match message {
        MessageModel::AboutPressed => View::About,
        MessageModel::SettingsPressed => View::Settings,
        _ => View::List,
    }
}

/// The state after the events of `inputs` have been handled one by one, in
/// order, from `start`.
pub open spec fn run(start: UadGuiModel, inputs: Seq<Input>) -> UadGuiModel
    decreases inputs.len(),
{
    if inputs.len() == 0 {
        start
    } else {
        run(start, inputs.drop_last()).step(inputs.last().message, inputs.last().phone_brand).0
    }
}

/// Navigation, however long, loses nothing: the preferences, the device line
/// and the tag of the current load stay as they were, the list screen keeps
/// its packages, and the preferences that the list screen holds are those it
/// held before or those of the settings screen.
pub proof fn navigation_keeps_screens(start: UadGuiModel, inputs: Seq<Input>)
    requires
        forall|i: int| 0 <= i < inputs.len() ==> is_navigation(#[trigger] inputs[i].message),
    ensures
        run(start, inputs).settings_view == start.settings_view,
        run(start, inputs).device_name == start.device_name,
        run(start, inputs).generation == start.generation,
        run(start, inputs).apps_view.packages == start.apps_view.packages,
        run(start, inputs).apps_view.settings == start.apps_view.settings || run(
            start,
            inputs,
        ).apps_view.settings == start.settings_view,
    decreases inputs.len(),
{
    if inputs.len() > 0 {
        navigation_keeps_screens(start, inputs.drop_last());
        assert(is_navigation(inputs[inputs.len() - 1].message));
    }
}

/// After any sequence of navigation events, the screen that is shown is the
/// one that the last event asked for.
pub proof fn navigation_ends_on_last_target(start: UadGuiModel, inputs: Seq<Input>)
    requires
        inputs.len() > 0,
        forall|i: int| 0 <= i < inputs.len() ==> is_navigation(#[trigger] inputs[i].message),
    ensures
        run(start, inputs).view == target(inputs.last().message),
{
    assert(is_navigation(inputs[inputs.len() - 1].message));
}

/// What navigation keeps, and where it ends, holds throughout a sequence of
/// navigation events: after each of its events, the screen that is shown is
/// the one that this event asked for, and nothing of the three screens, of
/// the device line or of the tag of the current load is lost.
pub proof fn navigation_holds_throughout(start: UadGuiModel, inputs: Seq<Input>)
    requires
        forall|i: int| 0 <= i < inputs.len() ==> is_navigation(#[trigger] inputs[i].message),
    ensures
        forall|n: int|
            0 < n <= inputs.len() ==> {
                let then = #[trigger] run(start, inputs.take(n));
                &&& then.view == target(inputs[n - 1].message)
                &&& then.settings_view == start.settings_view
                &&& then.device_name == start.device_name
                &&& then.generation == start.generation
                &&& then.apps_view.packages == start.apps_view.packages
                &&& (then.apps_view.settings == start.apps_view.settings
                    || then.apps_view.settings == start.settings_view)
            },
{
    assert forall|n: int| 0 < n <= inputs.len() implies {
        let then = #[trigger] run(start, inputs.take(n));
        &&& then.view == target(inputs[n - 1].message)
        &&& then.settings_view == start.settings_view
        &&& then.device_name == start.device_name
        &&& then.generation == start.generation
        &&& then.apps_view.packages == start.apps_view.packages
        &&& (then.apps_view.settings == start.apps_view.settings || then.apps_view.settings
            == start.settings_view)
    } by {
        let prefix = inputs.take(n);
        assert forall|i: int| 0 <= i < prefix.len() implies is_navigation(
            #[trigger] prefix[i].message,
        ) by {
            assert(prefix[i] == inputs[i]);
        }
        assert(prefix.last() == inputs[n - 1]);
        navigation_ends_on_last_target(start, prefix);
        navigation_keeps_screens(start, prefix);
    }
}

/// A press on a navigation control schedules no work.
pub proof fn navigation_schedules_nothing(
    state: UadGuiModel,
    message: MessageModel,
    phone_brand: Option<Seq<char>>,
)
    requires
        is_navigation(message),
    ensures
        state.step(message, phone_brand).1 is None,
{
}

/// A refresh shows the list screen in its first state, whichever screen was
/// shown and whatever the list screen held, and schedules a load under the
/// tag that the state then has.
pub proof fn refresh_resets_list(state: UadGuiModel, phone_brand: Option<Seq<char>>)
    ensures
        state.step(MessageModel::AppsRefreshPress, phone_brand).0.view == View::List,
        state.step(MessageModel::AppsRefreshPress, phone_brand).0.apps_view == ListModel::initial(),
        state.step(MessageModel::AppsRefreshPress, phone_brand).0.settings_view
            == state.settings_view,
        state.step(MessageModel::AppsRefreshPress, phone_brand).1 == Some(
            Command::LoadPhonePackages {
                generation: state.step(MessageModel::AppsRefreshPress, phone_brand).0.generation,
                deliver: Delivery::AppsAction,
            },
        ),
{
}

/// The start-up event, delivered to any state (one that has taken it before
/// included), does no more than a refresh would: what it changes, the device
/// line, the tag and the scheduled load, it changes as a refresh does; the
/// rest, the screen that is shown and the state of every screen, it leaves as
/// it was.
pub proof fn startup_event_does_no_more_than_refresh(
    state: UadGuiModel,
    payload: AppsMessageModel,
    phone_brand: Option<Seq<char>>,
)
    ensures
        ({
            let (again, scheduled) = state.step(MessageModel::Init(payload), phone_brand);
            let (refreshed, reload) = state.step(MessageModel::AppsRefreshPress, phone_brand);
            &&& again.device_name == refreshed.device_name
            &&& again.generation == refreshed.generation
            &&& scheduled == reload
            &&& again.view == state.view
            &&& again.apps_view == state.apps_view
            &&& again.settings_view == state.settings_view
        }),
{
}

/// Two deliveries of the start-up event with the same answer of the device
/// query leave the device line as one delivery does.
pub proof fn startup_event_twice_keeps_device_line(
    state: UadGuiModel,
    first: AppsMessageModel,
    second: AppsMessageModel,
    phone_brand: Option<Seq<char>>,
)
    ensures
        ({
            let once = state.step(MessageModel::Init(first), phone_brand).0;
            let twice = once.step(MessageModel::Init(second), phone_brand).0;
            &&& twice.device_name == once.device_name
            &&& twice.view == once.view
            &&& twice.apps_view == once.apps_view
            &&& twice.settings_view == once.settings_view
        }),
{
}

/// The tag that follows a tag is another tag.
pub proof fn next_generation_differs(generation: u64)
    ensures
        next_generation(generation) != generation,
{
}

/// At most one load is current: whatever a step schedules carries the tag
/// that the state has after the step, and that tag is not the one the state
/// had before, so whatever was scheduled earlier is outdated.
pub proof fn scheduled_load_is_the_current_one(
    state: UadGuiModel,
    message: MessageModel,
    phone_brand: Option<Seq<char>>,
)
    requires
        state.step(message, phone_brand).1 is Some,
    ensures
        state.step(message, phone_brand).1 == Some(
            Command::LoadPhonePackages {
                generation: state.step(message, phone_brand).0.generation,
                deliver: Delivery::AppsAction,
            },
        ),
        state.step(message, phone_brand).0.generation != state.generation,
{
}

/// A step that schedules nothing leaves the tag of the current load alone.
pub proof fn quiet_step_keeps_the_current_load(
    state: UadGuiModel,
    message: MessageModel,
    phone_brand: Option<Seq<char>>,
)
    requires
        state.step(message, phone_brand).1 is None,
    ensures
        state.step(message, phone_brand).0.generation == state.generation,
{
}

/// A refresh outdates the load that was under way: when that load reports,
/// under the tag that was current before the refresh, nothing changes and
/// nothing is scheduled. The list screen stays as the refresh left it.
pub proof fn refresh_outdates_pending_load(
    state: UadGuiModel,
    phone_brand: Option<Seq<char>>,
    uad_lists: Option<Seq<PackageModel>>,
    later_brand: Option<Seq<char>>,
)
    ensures
        ({
            let refreshed = state.step(MessageModel::AppsRefreshPress, phone_brand).0;
            let late = MessageModel::AppsAction(load_report(state.generation, uad_lists));
            refreshed.step(late, later_brand) == (refreshed, None::<Command>)
        }),
{
}

/// The report of a load under any tag but the current one changes nothing and
/// schedules nothing.
pub proof fn outdated_report_is_dropped(
    state: UadGuiModel,
    generation: u64,
    uad_lists: Option<Seq<PackageModel>>,
    phone_brand: Option<Seq<char>>,
)
    requires
        generation != state.generation,
    ensures
        state.step(MessageModel::AppsAction(load_report(generation, uad_lists)), phone_brand) == (
            state,
            None::<Command>,
        ),
{
}

/// The load that a step schedules is the current one: once it is completed,
/// its report reaches the list screen, which then holds the catalog that was
/// loaded, or the empty catalog where none could be loaded. Nothing else
/// changes.
pub proof fn scheduled_load_reaches_list(
    state: UadGuiModel,
    message: MessageModel,
    phone_brand: Option<Seq<char>>,
    uad_lists: Option<Seq<PackageModel>>,
    later_brand: Option<Seq<char>>,
)
    requires
        state.step(message, phone_brand).1 is Some,
    ensures
        ({
            let (waiting, command) = state.step(message, phone_brand);
            let (loaded, next) = waiting.step(command->0.completion(uad_lists), later_brand);
            &&& loaded.apps_view.packages == Some(
                match uad_lists {
                    Some(packages) => packages,
                    None => Seq::empty(),
                },
            )
            &&& loaded.apps_view.settings == waiting.apps_view.settings
            &&& loaded.view == waiting.view
            &&& loaded.settings_view == waiting.settings_view
            &&& loaded.device_name == waiting.device_name
            &&& loaded.generation == waiting.generation
            &&& next is None
        }),
{
}

/// Leaving the list screen and returning to it keeps what the list shows: the
/// list screen is shown again with the packages it had, and with the
/// preferences of the settings screen.
pub proof fn leaving_and_returning_keeps_list(
    state: UadGuiModel,
    first_brand: Option<Seq<char>>,
    second_brand: Option<Seq<char>>,
)
    ensures
        ({
            let away = state.step(MessageModel::AboutPressed, first_brand).0;
            let back = away.step(MessageModel::AppsPress, second_brand).0;
            &&& away.view == View::About
            &&& back.view == View::List
            &&& back.apps_view.packages == state.apps_view.packages
            &&& back.apps_view.settings == state.settings_view
            &&& state.apps_view.settings == state.settings_view ==> back.apps_view
                == state.apps_view
        }),
{
}

/// Every state renders: the page has the navigation bar with the device line
/// and the four controls, and exactly one body, that of the screen that is
/// shown.
pub proof fn page_shows_the_active_screen(state: UadGuiModel)
    ensures
        state.rendered().navigation.device == "Device: "@ + state.device_name,
        state.rendered().navigation.buttons == NavButton::all(),
        state.rendered().body is List <==> state.view == View::List,
        state.rendered().body is About <==> state.view == View::About,
        state.rendered().body is Settings <==> state.view == View::Settings,
{
}

/// Rendering is a function of the state: two calls of [`UadGui::view`] on
/// states that are the same return the same page.
pub proof fn view_depends_on_the_state_alone(one: UadGui, other: UadGui, first: Page, second: Page)
    requires
        one.deep_view() == other.deep_view(),
        call_ensures(UadGui::view, (&one,), first),
        call_ensures(UadGui::view, (&other,), second),
    ensures
        first.deep_view() == second.deep_view(),
{
}

/// A step that does not take the device line from the device query does not
/// read what the query returned.
pub proof fn device_query_is_read_only_when_asked(
    state: UadGuiModel,
    message: MessageModel,
    one_brand: Option<Seq<char>>,
    other_brand: Option<Seq<char>>,
)
    requires
        !message.queries_device(),
    ensures
        state.step(message, one_brand) == state.step(message, other_brand),
        state.step(message, one_brand).0.device_name == state.device_name,
{
}

} // verus!
