use tray_shell::control::Action;
use tray_shell::control::GeometryEvent;
use tray_shell::control::TrayButton;
use tray_shell::control::TrayButtonState;
use tray_shell::control::bootstrap_actions;
use tray_shell::control::geometry_actions;
use tray_shell::control::menu_actions;
use tray_shell::control::merged_bounds;
use tray_shell::control::show_hide_actions;
use tray_shell::control::toggled;
use tray_shell::control::tray_click_actions;
use tray_shell::geometry::SizePreset;
use tray_shell::geometry::WindowBounds;
use tray_shell::menu::MenuEvent;
use tray_shell::settings::SettingsDoc;
use tray_shell::settings::StoredBounds;

fn bounds(x: i32, y: i32, width: u32, height: u32) -> WindowBounds {
    WindowBounds { x, y, width, height }
}

/// Runs one always-on-top toggle against a document, the way the shell
/// does: read the stored flag, persist and apply the negation.
fn run_toggle(doc: &mut SettingsDoc) -> bool {
    let acts = menu_actions(MenuEvent::AlwaysOnTop, doc.always_on_top, None);
    let flag = toggled(doc.always_on_top);
    assert_eq!(
        acts,
        vec![Action::PersistAlwaysOnTop(flag), Action::ApplyAlwaysOnTop(flag)],
    );
    doc.store_always_on_top(flag);
    flag
}

#[test]
fn toggle_twice_restores_the_flag() {
    for start in [None, Some(false), Some(true)] {
        let mut doc = SettingsDoc { always_on_top: start, window_bounds: None };
        let before = doc.effective_always_on_top();

        let applied1 = run_toggle(&mut doc);
        assert_eq!(applied1, !before);
        assert_eq!(doc.effective_always_on_top(), applied1);

        let applied2 = run_toggle(&mut doc);
        assert_eq!(applied2, before);
        assert_eq!(doc.effective_always_on_top(), before);
    }
}

#[test]
fn toggled_value_per_stored_state() {
    assert!(toggled(None));
    assert!(toggled(Some(false)));
    assert!(!toggled(Some(true)));
}

#[test]
fn move_keeps_the_live_size() {
    let live = bounds(3, 4, 474, 144);
    let acts = geometry_actions(GeometryEvent::Moved(10, 20), live);
    assert_eq!(acts, vec![Action::PersistBounds(bounds(10, 20, 474, 144))]);
}

#[test]
fn resize_keeps_the_live_position() {
    let live = bounds(10, 20, 520, 209);
    let acts = geometry_actions(GeometryEvent::Resized(632, 192), live);
    assert_eq!(acts, vec![Action::PersistBounds(bounds(10, 20, 632, 192))]);
}

#[test]
fn merged_record_is_complete() {
    let live = bounds(-1, -2, 300, 400);
    assert_eq!(merged_bounds(GeometryEvent::Moved(7, 8), live), bounds(7, 8, 300, 400));
    assert_eq!(merged_bounds(GeometryEvent::Resized(9, 10), live), bounds(-1, -2, 9, 10));
}

#[test]
fn size_presets_are_fixed() {
    assert_eq!(SizePreset::Small.dimensions(), (316, 96));
    assert_eq!(SizePreset::Medium.dimensions(), (474, 144));
    assert_eq!(SizePreset::Large.dimensions(), (632, 192));
}

#[test]
fn size_medium_sets_exactly_its_preset() {
    for stored in [None, Some(true)] {
        let acts = menu_actions(MenuEvent::SizeMedium, stored, Some(true));
        assert_eq!(acts, vec![Action::SetSize(474, 144)]);
    }
}

#[test]
fn size_small_and_large_set_their_presets() {
    assert_eq!(menu_actions(MenuEvent::SizeSmall, None, None), vec![Action::SetSize(316, 96)]);
    assert_eq!(menu_actions(MenuEvent::SizeLarge, None, None), vec![Action::SetSize(632, 192)]);
}

#[test]
fn preset_then_resize_persists_the_preset() {
    let mut doc = SettingsDoc::empty();
    // activate the medium preset: the store is not touched
    let acts = menu_actions(MenuEvent::SizeMedium, None, None);
    assert_eq!(acts, vec![Action::SetSize(474, 144)]);
    assert_eq!(doc, SettingsDoc::empty());
    // the toolkit resizes the window and notifies; the handler persists
    let live = bounds(10, 20, 474, 144);
    let acts = geometry_actions(GeometryEvent::Resized(474, 144), live);
    assert_eq!(acts, vec![Action::PersistBounds(bounds(10, 20, 474, 144))]);
    match acts[0] {
        Action::PersistBounds(b) => doc.store_bounds(b),
        _ => unreachable!(),
    }
    assert_eq!(doc.loaded_bounds(), bounds(10, 20, 474, 144));
}

#[test]
fn show_hide_toggles_visibility() {
    assert_eq!(show_hide_actions(Some(true)), vec![Action::HideWindow]);
    assert_eq!(
        show_hide_actions(Some(false)),
        vec![Action::ShowWindow, Action::FocusWindow],
    );
    assert_eq!(
        show_hide_actions(None),
        vec![Action::ShowWindow, Action::FocusWindow],
    );
}

#[test]
fn show_hide_entry_uses_the_shared_toggle() {
    assert_eq!(
        menu_actions(MenuEvent::ShowHide, None, Some(true)),
        vec![Action::HideWindow],
    );
    assert_eq!(
        menu_actions(MenuEvent::ShowHide, None, Some(false)),
        vec![Action::ShowWindow, Action::FocusWindow],
    );
}

#[test]
fn tray_click_left_release_toggles() {
    assert_eq!(
        tray_click_actions(TrayButton::Left, TrayButtonState::Up, Some(true)),
        vec![Action::HideWindow],
    );
    assert_eq!(
        tray_click_actions(TrayButton::Left, TrayButtonState::Up, Some(false)),
        vec![Action::ShowWindow, Action::FocusWindow],
    );
}

#[test]
fn tray_click_otherwise_ignored() {
    assert_eq!(tray_click_actions(TrayButton::Left, TrayButtonState::Down, Some(true)), vec![]);
    assert_eq!(tray_click_actions(TrayButton::Right, TrayButtonState::Up, Some(true)), vec![]);
    assert_eq!(tray_click_actions(TrayButton::Middle, TrayButtonState::Up, None), vec![]);
}

#[test]
fn quit_exits_zero_and_persists_nothing() {
    let acts = menu_actions(MenuEvent::Quit, Some(true), Some(true));
    assert_eq!(acts, vec![Action::Exit(0)]);
    assert!(acts.iter().all(|a| {
        !matches!(a, Action::PersistAlwaysOnTop(_) | Action::PersistBounds(_))
    }));
}

#[test]
fn unknown_menu_event_does_nothing() {
    assert_eq!(menu_actions(MenuEvent::Other, Some(true), Some(true)), vec![]);
}

#[test]
fn bootstrap_with_nothing_stored_applies_nothing() {
    let doc = SettingsDoc::empty();
    assert_eq!(bootstrap_actions(&doc), vec![]);
}

#[test]
fn bootstrap_applies_flag_then_position_then_size() {
    let doc = SettingsDoc {
        always_on_top: Some(true),
        window_bounds: Some(StoredBounds {
            x: Some(10),
            y: Some(20),
            width: Some(474),
            height: Some(144),
        }),
    };
    assert_eq!(
        bootstrap_actions(&doc),
        vec![
            Action::ApplyAlwaysOnTop(true),
            Action::SetPosition(10, 20),
            Action::SetSize(474, 144),
        ],
    );
}

#[test]
fn bootstrap_resolves_partial_records_field_by_field() {
    let doc = SettingsDoc {
        always_on_top: None,
        window_bounds: Some(StoredBounds { x: Some(10), y: Some(20), width: Some(474), height: None }),
    };
    assert_eq!(
        bootstrap_actions(&doc),
        vec![Action::SetPosition(10, 20), Action::SetSize(474, 209)],
    );
}

#[test]
fn bootstrap_without_bounds_leaves_geometry_alone() {
    let doc = SettingsDoc { always_on_top: Some(false), window_bounds: None };
    assert_eq!(bootstrap_actions(&doc), vec![Action::ApplyAlwaysOnTop(false)]);
}
