use uad_gui::gui::page::Body;
use uad_gui::gui::views::list::ListPage;
use uad_gui::gui::views::settings::Settings;
use uad_gui::gui::{AppsMessage, Command, Delivery, Message, UadGui, View};
use uad_gui::uad_lists::Package;

fn package(id: &str, description: &str) -> Package {
    Package { id: id.to_string(), description: description.to_string() }
}

fn catalog_of_three() -> Vec<Package> {
    vec![
        package("com.android.bips", "Default print service"),
        package("com.android.egg", "Easter egg"),
        package("com.android.dreams.basic", "Screensavers"),
    ]
}

#[test]
fn default_screen_is_the_list() {
    assert_eq!(View::default(), View::List);
}

#[test]
fn default_state_has_no_device_and_an_empty_list_screen() {
    let gui = UadGui::default();
    assert_eq!(gui.current_view(), View::List);
    assert_eq!(gui.device_name(), "No phone connected");
    assert_eq!(gui.settings_view(), Settings::default());
    assert_eq!(gui.apps_view().packages(), None);
    assert_eq!(gui.apps_view().settings(), Settings::default());
    assert_eq!(gui.generation(), 0);
}

#[test]
fn new_schedules_the_first_load_as_the_startup_event() {
    let (gui, command) = UadGui::new(());
    assert_eq!(gui, UadGui::default());
    assert_eq!(command, Command::LoadPhonePackages { generation: 0, deliver: Delivery::Init });
}

#[test]
fn title_is_fixed() {
    assert_eq!(UadGui::default().title(), "UadGui");
}

#[test]
fn startup_load_shows_device_and_three_packages() {
    let (mut gui, first) = UadGui::new(());

    let init = first.complete(Some(catalog_of_three()));
    assert!(init.queries_device());
    let second = gui.update(init, Some("Pixel 6".to_string()));
    assert_eq!(gui.device_name(), "Pixel 6");
    assert_eq!(
        second,
        Some(Command::LoadPhonePackages { generation: 1, deliver: Delivery::AppsAction })
    );
    assert_eq!(gui.apps_view().packages(), None);

    let report = second.unwrap().complete(Some(catalog_of_three()));
    assert!(!report.queries_device());
    let third = gui.update(report, None);
    assert_eq!(third, None);

    let page = gui.view();
    assert_eq!(page.navigation.device, "Device: Pixel 6");
    match page.body {
        Body::List(ListPage::Packages(rows)) => {
            assert_eq!(rows.len(), 3);
            assert_eq!(rows, catalog_of_three());
        }
        other => panic!("the list screen does not show the packages: {:?}", other),
    }
    assert_eq!(gui.device_name(), "Pixel 6");
    assert_eq!(gui.current_view(), View::List);
}

#[test]
fn startup_event_does_not_read_its_payload() {
    let mut with_catalog = UadGui::default();
    let mut without = UadGui::default();
    let full = Message::Init(UadGui::load_phone_packages(0, Some(catalog_of_three())));
    let empty = Message::Init(AppsMessage::LoadSettings(Settings {
        expert_mode: true,
        disable_mode: true,
        multi_user_mode: true,
    }));
    let one = with_catalog.update(full, Some("Pixel 6".to_string()));
    let other = without.update(empty, Some("Pixel 6".to_string()));
    assert_eq!(one, other);
    assert_eq!(with_catalog, without);
    assert_eq!(with_catalog.apps_view().packages(), None);
}

#[test]
fn startup_without_a_device_keeps_the_sentinel() {
    let (mut gui, first) = UadGui::new(());
    let command = gui.update(first.complete(None), None);
    assert_eq!(gui.device_name(), "No phone connected");
    assert_eq!(gui.view().navigation.device, "Device: No phone connected");
    assert_eq!(
        command,
        Some(Command::LoadPhonePackages { generation: 1, deliver: Delivery::AppsAction })
    );
}

#[test]
fn startup_event_twice_does_no_more_than_a_refresh() {
    let (mut gui, first) = UadGui::new(());
    let second = gui.update(first.complete(Some(catalog_of_three())), Some("Pixel 6".to_string()));
    gui.update(second.unwrap().complete(Some(catalog_of_three())), None);
    gui.update(Message::SettingsPressed, None);
    let once = gui.clone();

    let mut refreshed = once.clone();
    let reload = refreshed.update(Message::AppsRefreshPress, Some("Pixel 7".to_string()));

    let again = gui.update(
        Message::Init(UadGui::load_phone_packages(0, Some(Vec::new()))),
        Some("Pixel 7".to_string()),
    );

    assert_eq!(again, reload);
    assert_eq!(again, Some(Command::LoadPhonePackages { generation: 2, deliver: Delivery::AppsAction }));
    assert_eq!(gui.device_name(), refreshed.device_name());
    assert_eq!(gui.device_name(), "Pixel 7");
    assert_eq!(gui.generation(), refreshed.generation());
    assert_eq!(gui.current_view(), once.current_view());
    assert_eq!(gui.current_view(), View::Settings);
    assert_eq!(gui.apps_view(), once.apps_view());
    assert_eq!(gui.apps_view().packages().map(|rows| rows.len()), Some(3));
    assert_eq!(gui.settings_view(), once.settings_view());
}

#[test]
fn failed_catalog_load_shows_the_empty_state() {
    let (mut gui, first) = UadGui::new(());
    let second = gui.update(first.complete(None), Some("Pixel 6".to_string()));
    let third = gui.update(second.unwrap().complete(None), None);
    assert_eq!(third, None);
    assert_eq!(gui.apps_view().packages(), Some(&Vec::new()));
    assert_eq!(gui.view().body, Body::List(ListPage::Empty));
}
