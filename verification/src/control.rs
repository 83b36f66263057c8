//! The decision core: every startup, menu, tray and geometry event is turned
//! into the exact sequence of window and store operations it must trigger.
//! The surrounding process queries the live values these decisions need,
//! calls one function here, and then performs the returned actions in order.

use vstd::prelude::*;

use crate::geometry::SizePreset;
use crate::geometry::WindowBounds;
use crate::menu::MenuEvent;
use crate::settings::SettingsDoc;

verus! {

/// One operation on the window, the store, or the process. Persisting
/// writes the value under its key and flushes; both are best-effort.
#[derive(Clone, Copy, PartialEq, Eq, Structural, Debug)]
pub enum Action {
    PersistAlwaysOnTop(bool),
    ApplyAlwaysOnTop(bool),
    SetPosition(i32, i32),
    SetSize(u32, u32),
    ShowWindow,
    FocusWindow,
    HideWindow,
    PersistBounds(WindowBounds),
    Exit(i32),
}

/// A move or resize notification, after the toolkit has already applied it
/// to the window. It carries only the changed half of the geometry.
#[derive(Clone, Copy, PartialEq, Eq, Structural, Debug)]
pub enum GeometryEvent {
    Moved(i32, i32),
    Resized(u32, u32),
}

/// A mouse button of a tray-icon click.
#[derive(Clone, Copy, PartialEq, Eq, Structural, Debug)]
pub enum TrayButton {
    Left,
    Right,
    Middle,
}

/// Whether a tray-icon click pressed or released the button.
#[derive(Clone, Copy, PartialEq, Eq, Structural, Debug)]
pub enum TrayButtonState {
    Up,
    Down,
}

/// The flag a toggle writes, given what is stored now: the negation of the
/// flag in force, so an absent or malformed value toggles to `true`. The
/// store, not the window's current flag, is the source of truth here, and
/// every toggle applies the new value to both, which resyncs them.
pub open spec fn spec_toggled(stored: Option<bool>) -> bool {
    stored != Some(true)
}

/// The visibility toggle: a window known to be visible is hidden; one that
/// is hidden, or whose visibility could not be read, is shown and focused.
pub open spec fn spec_show_hide_actions(visible: Option<bool>) -> Seq<Action> {
    if visible == Some(true) {
        seq![Action::HideWindow]
    } else {
        seq![Action::ShowWindow, Action::FocusWindow]
    }
}

/// What a menu activation must do. `stored` is the persisted flag as read
/// for this event, `visible` the window's visibility as read for it; each
/// matters only to the entry that uses it.
pub open spec fn spec_menu_actions(e: MenuEvent, stored: Option<bool>, visible: Option<bool>) -> Seq<
    Action,
> {
    match e {
        MenuEvent::AlwaysOnTop => seq![
            Action::PersistAlwaysOnTop(spec_toggled(stored)),
            Action::ApplyAlwaysOnTop(spec_toggled(stored)),
        ],
        MenuEvent::SizeSmall => seq![
            Action::SetSize(SizePreset::Small.spec_width(), SizePreset::Small.spec_height()),
        ],
        MenuEvent::SizeMedium => seq![
            Action::SetSize(SizePreset::Medium.spec_width(), SizePreset::Medium.spec_height()),
        ],
        MenuEvent::SizeLarge => seq![
            Action::SetSize(SizePreset::Large.spec_width(), SizePreset::Large.spec_height()),
        ],
        MenuEvent::ShowHide => spec_show_hide_actions(visible),
        MenuEvent::Quit => seq![Action::Exit(0)],
        MenuEvent::Other => Seq::empty(),
    }
}

/// A tray-icon click toggles visibility exactly as the show/hide entry
/// does, but only on release of the left button; all else is ignored.
pub open spec fn spec_tray_click_actions(
    button: TrayButton,
    state: TrayButtonState,
    visible: Option<bool>,
) -> Seq<Action> {
    if button == TrayButton::Left && state == TrayButtonState::Up {
        spec_show_hide_actions(visible)
    } else {
        Seq::empty()
    }
}

/// The complete record a geometry event persists: the changed half comes
/// from the event, the other half is re-read live, so neither a move nor a
/// resize ever clobbers the dimension it did not change.
pub open spec fn spec_merged_bounds(e: GeometryEvent, live: WindowBounds) -> WindowBounds {
    match e {
        GeometryEvent::Moved(x, y) => WindowBounds {
            x,
            y,
            width: live.width,
            height: live.height,
        },
        GeometryEvent::Resized(w, h) => WindowBounds { x: live.x, y: live.y, width: w, height: h },
    }
}

/// What startup must apply: the stored flag if one is there, then position
/// before size, both resolved against the defaults, if a bounds record is
/// there. An absent key leaves the toolkit's own state untouched.
pub open spec fn spec_bootstrap_actions(doc: SettingsDoc) -> Seq<Action> {
    (match doc.always_on_top {
        Some(v) => seq![Action::ApplyAlwaysOnTop(v)],
        None => Seq::empty(),
    }) + (match doc.window_bounds {
        Some(raw) => seq![
            Action::SetPosition(raw.spec_resolved().x, raw.spec_resolved().y),
            Action::SetSize(raw.spec_resolved().width, raw.spec_resolved().height),
        ],
        None => Seq::empty(),
    })
}

/// The flag a toggle writes and applies, from the stored value read live.
pub fn toggled(stored: Option<bool>) -> (r: bool)
    ensures
        r == spec_toggled(stored),
{
    match stored {
        Some(v) => !v,
        None => true,
    }
}

/// Decides the visibility toggle from the visibility as it was read, or
/// `None` where the read failed.
pub fn show_hide_actions(visible: Option<bool>) -> (r: Vec<Action>)
    ensures
        r@ == spec_show_hide_actions(visible),
{
    let mut actions: Vec<Action> = Vec::new();
    if matches!(visible, Some(true)) {
        actions.push(Action::HideWindow);
    } else {
        actions.push(Action::ShowWindow);
        actions.push(Action::FocusWindow);
    }
    proof {
        assert(actions@ =~= spec_show_hide_actions(visible));
    }
    actions
}

/// Decides a menu activation. Unknown identifiers do nothing, so a menu
/// callback can never fail the process.
pub fn menu_actions(e: MenuEvent, stored: Option<bool>, visible: Option<bool>) -> (r: Vec<Action>)
    ensures
        r@ == spec_menu_actions(e, stored, visible),
{
    let mut actions: Vec<Action> = Vec::new();
    match e {
        MenuEvent::AlwaysOnTop => {
            let flag = toggled(stored);
            actions.push(Action::PersistAlwaysOnTop(flag));
            actions.push(Action::ApplyAlwaysOnTop(flag));
        },
        MenuEvent::SizeSmall => {
            let (w, h) = SizePreset::Small.dimensions();
            actions.push(Action::SetSize(w, h));
        },
        MenuEvent::SizeMedium => {
            let (w, h) = SizePreset::Medium.dimensions();
            actions.push(Action::SetSize(w, h));
        },
        MenuEvent::SizeLarge => {
            let (w, h) = SizePreset::Large.dimensions();
            actions.push(Action::SetSize(w, h));
        },
        MenuEvent::ShowHide => {
            return show_hide_actions(visible);
        },
        MenuEvent::Quit => {
            actions.push(Action::Exit(0));
        },
        MenuEvent::Other => {},
    }
    proof {
        assert(actions@ =~= spec_menu_actions(e, stored, visible));
    }
    actions
}

/// Decides a tray-icon click: only a left-button release toggles
/// visibility; every other button or press is ignored.
pub fn tray_click_actions(button: TrayButton, state: TrayButtonState, visible: Option<bool>) -> (r:
    Vec<Action>)
    ensures
        r@ == spec_tray_click_actions(button, state, visible),
{
    match (button, state) {
        (TrayButton::Left, TrayButtonState::Up) => show_hide_actions(visible),
        _ => {
            let actions: Vec<Action> = Vec::new();
            proof {
                assert(actions@ =~= spec_tray_click_actions(button, state, visible));
            }
            actions
        },
    }
}

/// Merges a geometry event with the live geometry read back for it.
pub fn merged_bounds(e: GeometryEvent, live: WindowBounds) -> (r: WindowBounds)
    ensures
        r == spec_merged_bounds(e, live),
{
    match e {
        GeometryEvent::Moved(x, y) => WindowBounds {
            x,
            y,
            width: live.width,
            height: live.height,
        },
        GeometryEvent::Resized(w, h) => WindowBounds { x: live.x, y: live.y, width: w, height: h },
    }
}

/// Decides a geometry event: persist one complete, self-consistent record
/// combining the event with the live geometry. Nothing else is touched.
pub fn geometry_actions(e: GeometryEvent, live: WindowBounds) -> (r: Vec<Action>)
    ensures
        r@ == seq![Action::PersistBounds(spec_merged_bounds(e, live))],
{
    let merged = merged_bounds(e, live);
    let mut actions: Vec<Action> = Vec::new();
    actions.push(Action::PersistBounds(merged));
    proof {
        assert(actions@ =~= seq![Action::PersistBounds(spec_merged_bounds(e, live))]);
    }
    actions
}

/// Decides startup from the document as it was read (or the empty document
/// where the file was absent or unreadable).
pub fn bootstrap_actions(doc: &SettingsDoc) -> (r: Vec<Action>)
    ensures
        r@ == spec_bootstrap_actions(*doc),
{
    let mut actions: Vec<Action> = Vec::new();
    if let Some(v) = doc.always_on_top {
        actions.push(Action::ApplyAlwaysOnTop(v));
    }
    if let Some(raw) = doc.window_bounds {
        let b = raw.resolved();
        actions.push(Action::SetPosition(b.x, b.y));
        actions.push(Action::SetSize(b.width, b.height));
    }
    proof {
        assert(actions@ =~= spec_bootstrap_actions(*doc));
    }
    actions
}

} // verus!
