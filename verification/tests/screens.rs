use uad_gui::gui::views::list::{List, ListPage, Message as ListMessage};
use uad_gui::gui::views::settings::{Message as SettingsMessage, Setting, Settings};
use uad_gui::gui::{Command, Delivery, Message, UadGui};
use uad_gui::uad_lists::Package;

fn described(ids: &[&str]) -> Vec<Package> {
    ids.iter().map(|id| Package { id: id.to_string(), description: format!("about {}", id) }).collect()
}

#[test]
fn settings_start_switched_off() {
    assert_eq!(
        Settings::default(),
        Settings { expert_mode: false, disable_mode: false, multi_user_mode: false }
    );
}

#[test]
fn settings_event_changes_one_preference() {
    let mut settings = Settings::default();
    settings.update(SettingsMessage::ExpertMode(true));
    assert_eq!(settings, Settings { expert_mode: true, disable_mode: false, multi_user_mode: false });
    settings.update(SettingsMessage::MultiUserMode(true));
    assert_eq!(settings, Settings { expert_mode: true, disable_mode: false, multi_user_mode: true });
    settings.update(SettingsMessage::DisableMode(true));
    assert_eq!(settings, Settings { expert_mode: true, disable_mode: true, multi_user_mode: true });
    settings.update(SettingsMessage::ExpertMode(false));
    assert_eq!(settings, Settings { expert_mode: false, disable_mode: true, multi_user_mode: true });
}

#[test]
fn setting_toggles_send_their_events() {
    assert_eq!(Setting::ExpertMode.on_toggle(true), SettingsMessage::ExpertMode(true));
    assert_eq!(Setting::DisableMode.on_toggle(false), SettingsMessage::DisableMode(false));
    assert_eq!(Setting::MultiUserMode.on_toggle(true), SettingsMessage::MultiUserMode(true));
}

#[test]
fn setting_labels_are_fixed() {
    assert_eq!(Setting::ExpertMode.label(), "Expert mode");
    assert_eq!(Setting::DisableMode.label(), "Disable mode");
    assert_eq!(Setting::MultiUserMode.label(), "Multi-user mode");
}

#[test]
fn list_screen_starts_without_a_catalog() {
    let list = List::default();
    assert_eq!(list.packages(), None);
    assert_eq!(list.settings(), Settings::default());
    assert_eq!(list.view(), ListPage::Loading);
}

#[test]
fn list_page_has_a_notice_where_it_has_no_packages() {
    assert_eq!(ListPage::Loading.notice(), Some("Loading the packages of the device".to_string()));
    assert_eq!(ListPage::Empty.notice(), Some("No package to show".to_string()));
    assert_eq!(ListPage::Packages(described(&["a"])).notice(), None);
}

#[test]
fn list_screen_takes_a_catalog_and_keeps_its_order() {
    let mut list = List::default();
    let command = list.update(ListMessage::LoadPackages {
        generation: 7,
        uad_lists: described(&["z", "a", "m"]),
    });
    assert_eq!(command, None);
    assert_eq!(list.packages(), Some(&described(&["z", "a", "m"])));
    assert_eq!(list.view(), ListPage::Packages(described(&["z", "a", "m"])));
    assert_eq!(list.settings(), Settings::default());
}

#[test]
fn list_screen_replaces_a_catalog_by_the_next() {
    let mut list = List::default();
    list.update(ListMessage::LoadPackages { generation: 1, uad_lists: described(&["a", "b"]) });
    list.update(ListMessage::LoadPackages { generation: 1, uad_lists: described(&["c"]) });
    assert_eq!(list.view(), ListPage::Packages(described(&["c"])));
}

#[test]
fn list_screen_shows_the_empty_state_for_an_empty_catalog() {
    let mut list = List::default();
    list.update(ListMessage::LoadPackages { generation: 0, uad_lists: Vec::new() });
    assert_eq!(list.packages(), Some(&Vec::new()));
    assert_eq!(list.view(), ListPage::Empty);
}

#[test]
fn list_screen_takes_preferences_and_keeps_its_packages() {
    let mut list = List::default();
    list.update(ListMessage::LoadPackages { generation: 0, uad_lists: described(&["a"]) });
    let chosen = Settings { expert_mode: false, disable_mode: true, multi_user_mode: false };
    let command = list.update(ListMessage::LoadSettings(chosen));
    assert_eq!(command, None);
    assert_eq!(list.settings(), chosen);
    assert_eq!(list.packages(), Some(&described(&["a"])));
}

#[test]
fn load_report_is_stale_under_another_tag_only() {
    let report = UadGui::load_phone_packages(4, Some(described(&["a"])));
    assert!(!report.is_stale(4));
    assert!(report.is_stale(3));
    assert!(report.is_stale(5));
    assert!(!ListMessage::LoadSettings(Settings::default()).is_stale(4));
}

#[test]
fn load_report_carries_tag_and_catalog() {
    assert_eq!(
        UadGui::load_phone_packages(9, Some(described(&["a", "b"]))),
        ListMessage::LoadPackages { generation: 9, uad_lists: described(&["a", "b"]) }
    );
}

#[test]
fn load_report_of_a_failed_load_carries_the_empty_catalog() {
    assert_eq!(
        UadGui::load_phone_packages(9, None),
        ListMessage::LoadPackages { generation: 9, uad_lists: Vec::new() }
    );
}

#[test]
fn command_completes_as_the_startup_event() {
    let command = Command::LoadPhonePackages { generation: 0, deliver: Delivery::Init };
    assert_eq!(
        command.complete(Some(described(&["a"]))),
        Message::Init(ListMessage::LoadPackages { generation: 0, uad_lists: described(&["a"]) })
    );
}

#[test]
fn command_completes_as_a_list_event() {
    let command = Command::LoadPhonePackages { generation: 3, deliver: Delivery::AppsAction };
    assert_eq!(
        command.complete(None),
        Message::AppsAction(ListMessage::LoadPackages { generation: 3, uad_lists: Vec::new() })
    );
}

#[test]
fn clones_are_equal_to_what_was_cloned() {
    let package = Package { id: "a".to_string(), description: "first".to_string() };
    assert_eq!(package.clone(), package);
    let message = Message::AppsAction(UadGui::load_phone_packages(1, Some(described(&["a"]))));
    assert_eq!(message.clone(), message);
    let mut list = List::default();
    list.update(ListMessage::LoadPackages { generation: 0, uad_lists: described(&["a", "b"]) });
    assert_eq!(list.clone(), list);
}
