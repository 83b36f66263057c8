use tray_shell::menu::MenuEntry;
use tray_shell::menu::MenuEvent;
use tray_shell::menu::menu_event_id;
use tray_shell::menu::menu_layout;
use tray_shell::menu::parse_menu_event;
use tray_shell::settings::SettingsDoc;

#[test]
fn each_identifier_parses_to_its_event() {
    assert_eq!(parse_menu_event("always_on_top"), MenuEvent::AlwaysOnTop);
    assert_eq!(parse_menu_event("size_small"), MenuEvent::SizeSmall);
    assert_eq!(parse_menu_event("size_medium"), MenuEvent::SizeMedium);
    assert_eq!(parse_menu_event("size_large"), MenuEvent::SizeLarge);
    assert_eq!(parse_menu_event("show_hide"), MenuEvent::ShowHide);
    assert_eq!(parse_menu_event("quit"), MenuEvent::Quit);
}

#[test]
fn unknown_identifiers_parse_to_other() {
    assert_eq!(parse_menu_event(""), MenuEvent::Other);
    assert_eq!(parse_menu_event("size_smal"), MenuEvent::Other);
    assert_eq!(parse_menu_event("size_small "), MenuEvent::Other);
    assert_eq!(parse_menu_event("ALWAYS_ON_TOP"), MenuEvent::Other);
    assert_eq!(parse_menu_event("settings"), MenuEvent::Other);
}

#[test]
fn identifiers_round_trip_through_parsing() {
    let events = [
        MenuEvent::AlwaysOnTop,
        MenuEvent::SizeSmall,
        MenuEvent::SizeMedium,
        MenuEvent::SizeLarge,
        MenuEvent::ShowHide,
        MenuEvent::Quit,
    ];
    for e in events {
        assert_eq!(parse_menu_event(menu_event_id(e)), e);
    }
}

#[test]
fn layout_is_fixed_and_ordered() {
    let doc = SettingsDoc { always_on_top: Some(true), window_bounds: None };
    assert_eq!(
        menu_layout(&doc),
        vec![
            MenuEntry::AlwaysOnTopCheck(true),
            MenuEntry::Separator,
            MenuEntry::SizeSmall,
            MenuEntry::SizeMedium,
            MenuEntry::SizeLarge,
            MenuEntry::Separator,
            MenuEntry::ShowHide,
            MenuEntry::Separator,
            MenuEntry::Quit,
        ],
    );
}

#[test]
fn layout_checkbox_reflects_the_stored_flag() {
    let on = SettingsDoc { always_on_top: Some(true), window_bounds: None };
    let off = SettingsDoc { always_on_top: Some(false), window_bounds: None };
    let absent = SettingsDoc::empty();
    assert_eq!(menu_layout(&on)[0], MenuEntry::AlwaysOnTopCheck(true));
    assert_eq!(menu_layout(&off)[0], MenuEntry::AlwaysOnTopCheck(false));
    assert_eq!(menu_layout(&absent)[0], MenuEntry::AlwaysOnTopCheck(false));
}
