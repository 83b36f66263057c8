//! A model of the world the shell controls — the window, the durable
//! document, and the process — together with the laws the decision core
//! keeps over it: the window and the store stay in sync, toggles undo
//! themselves, geometry writes are complete, and quitting persists nothing.

use vstd::prelude::*;

use crate::control::Action;
use crate::control::GeometryEvent;
use crate::control::spec_bootstrap_actions;
use crate::control::spec_menu_actions;
use crate::control::spec_merged_bounds;
use crate::control::spec_show_hide_actions;
use crate::control::spec_toggled;
use crate::geometry::SizePreset;
use crate::geometry::WindowBounds;
use crate::menu::MenuEvent;
use crate::settings::SettingsDoc;
use crate::settings::StoredBounds;

verus! {

/// Everything an action can touch: the persisted document, the window's
/// geometry, flag, visibility and focus, and whether the process has exited.
pub struct ShellModel {
    pub doc: SettingsDoc,
    pub window: WindowBounds,
    pub always_on_top: bool,
    pub visible: bool,
    pub focused: bool,
    pub exit_code: Option<i32>,
}

/// What performing one action does to the world.
pub open spec fn spec_apply_action(m: ShellModel, a: Action) -> ShellModel {
    match a {
        Action::PersistAlwaysOnTop(v) => ShellModel { doc: m.doc.spec_with_always_on_top(v), ..m },
        Action::ApplyAlwaysOnTop(v) => ShellModel { always_on_top: v, ..m },
        Action::SetPosition(x, y) => ShellModel { window: WindowBounds { x, y, ..m.window }, ..m },
        Action::SetSize(w, h) => ShellModel {
            window: WindowBounds { width: w, height: h, ..m.window },
            ..m
        },
        Action::ShowWindow => ShellModel { visible: true, ..m },
        Action::FocusWindow => ShellModel { focused: true, ..m },
        Action::HideWindow => ShellModel { visible: false, focused: false, ..m },
        Action::PersistBounds(b) => ShellModel { doc: m.doc.spec_with_bounds(b), ..m },
        Action::Exit(code) => ShellModel { exit_code: Some(code), ..m },
    }
}

/// Performing a sequence of actions, first to last.
pub open spec fn spec_apply_actions(m: ShellModel, s: Seq<Action>) -> ShellModel
    decreases s.len(),
{
    if s.len() == 0 {
        m
    } else {
        spec_apply_actions(spec_apply_action(m, s[0]), s.drop_first())
    }
}

/// Whether an action writes to the durable store.
pub open spec fn spec_is_persist(a: Action) -> bool {
    a matches Action::PersistAlwaysOnTop(_) || a matches Action::PersistBounds(_)
}

/// A sequence of actions applies piecewise: the first part, then the rest.
pub proof fn lemma_apply_actions_concat(m: ShellModel, s1: Seq<Action>, s2: Seq<Action>)
    ensures
        spec_apply_actions(m, s1 + s2) == spec_apply_actions(spec_apply_actions(m, s1), s2),
    decreases s1.len(),
{
    if s1.len() == 0 {
        assert(s1 + s2 =~= s2);
    } else {
        assert((s1 + s2).drop_first() =~= s1.drop_first() + s2);
        assert((s1 + s2)[0] == s1[0]);
        lemma_apply_actions_concat(spec_apply_action(m, s1[0]), s1.drop_first(), s2);
    }
}

/// One action applies as itself.
pub proof fn lemma_apply_one(m: ShellModel, a: Action)
    ensures
        spec_apply_actions(m, seq![a]) == spec_apply_action(m, a),
{
    assert(seq![a].drop_first() =~= Seq::<Action>::empty());
    assert(spec_apply_actions(spec_apply_action(m, a), Seq::<Action>::empty()) == spec_apply_action(
        m,
        a,
    ));
}

/// Two actions apply one after the other.
pub proof fn lemma_apply_two(m: ShellModel, a0: Action, a1: Action)
    ensures
        spec_apply_actions(m, seq![a0, a1]) == spec_apply_action(spec_apply_action(m, a0), a1),
{
    assert(seq![a0, a1] =~= seq![a0] + seq![a1]);
    lemma_apply_actions_concat(m, seq![a0], seq![a1]);
    lemma_apply_one(m, a0);
    lemma_apply_one(spec_apply_action(m, a0), a1);
}

/// Toggling the flag twice restores it: after each toggle the window's flag
/// equals the flag in force in the store, and after the second the flag in
/// force — and everything else — is back where it started.
pub proof fn lemma_toggle_twice(m: ShellModel, vis1: Option<bool>, vis2: Option<bool>)
    ensures
        ({
            let m1 = spec_apply_actions(
                m,
                spec_menu_actions(MenuEvent::AlwaysOnTop, m.doc.always_on_top, vis1),
            );
            let m2 = spec_apply_actions(
                m1,
                spec_menu_actions(MenuEvent::AlwaysOnTop, m1.doc.always_on_top, vis2),
            );
            &&& m1.always_on_top == m1.doc.spec_effective_always_on_top()
            &&& m2.always_on_top == m2.doc.spec_effective_always_on_top()
            &&& m2.doc.spec_effective_always_on_top() == m.doc.spec_effective_always_on_top()
            &&& m2.doc.window_bounds == m.doc.window_bounds
            &&& m2.window == m.window
            &&& m2.visible == m.visible
            &&& m2.exit_code == m.exit_code
        }),
{
    let t1 = spec_toggled(m.doc.always_on_top);
    lemma_apply_two(m, Action::PersistAlwaysOnTop(t1), Action::ApplyAlwaysOnTop(t1));
    let m1 = spec_apply_actions(
        m,
        spec_menu_actions(MenuEvent::AlwaysOnTop, m.doc.always_on_top, vis1),
    );
    let t2 = spec_toggled(m1.doc.always_on_top);
    lemma_apply_two(m1, Action::PersistAlwaysOnTop(t2), Action::ApplyAlwaysOnTop(t2));
}

/// The visibility toggle: a visible window ends hidden; a hidden one ends
/// visible and focused. The store is never touched by it.
pub proof fn lemma_show_hide_sync(m: ShellModel)
    ensures
        ({
            let m1 = spec_apply_actions(m, spec_show_hide_actions(Some(m.visible)));
            &&& m.visible ==> !m1.visible
            &&& !m.visible ==> m1.visible && m1.focused
            &&& m1.doc == m.doc
            &&& m1.window == m.window
            &&& m1.exit_code == m.exit_code
        }),
{
    if m.visible {
        lemma_apply_one(m, Action::HideWindow);
    } else {
        lemma_apply_two(m, Action::ShowWindow, Action::FocusWindow);
    }
}

/// The event's half of the geometry agrees with the window: the toolkit has
/// already moved or resized the window when the notification arrives.
pub open spec fn spec_event_applied(e: GeometryEvent, w: WindowBounds) -> bool {
    match e {
        GeometryEvent::Moved(x, y) => w.x == x && w.y == y,
        GeometryEvent::Resized(wd, h) => w.width == wd && w.height == h,
    }
}

/// A geometry event persists one complete record that equals the window's
/// whole live geometry — a move never clobbers the size, a resize never
/// clobbers the position — and touches nothing else.
pub proof fn lemma_geometry_sync(m: ShellModel, e: GeometryEvent)
    requires
        spec_event_applied(e, m.window),
    ensures
        ({
            let m1 = spec_apply_actions(
                m,
                seq![Action::PersistBounds(spec_merged_bounds(e, m.window))],
            );
            &&& m1.doc.window_bounds == Some(StoredBounds::spec_full(m.window))
            &&& m1.doc.spec_loaded_bounds() == m.window
            &&& m1.doc.always_on_top == m.doc.always_on_top
            &&& m1.window == m.window
        }),
{
    lemma_apply_one(m, Action::PersistBounds(spec_merged_bounds(e, m.window)));
}

/// A size preset resizes the window to exactly its fixed dimensions,
/// whatever size it had before, and writes nothing to the store.
pub proof fn lemma_size_preset(
    m: ShellModel,
    stored: Option<bool>,
    visible: Option<bool>,
    p: SizePreset,
)
    ensures
        ({
            let e = match p {
                SizePreset::Small => MenuEvent::SizeSmall,
                SizePreset::Medium => MenuEvent::SizeMedium,
                SizePreset::Large => MenuEvent::SizeLarge,
            };
            let m1 = spec_apply_actions(m, spec_menu_actions(e, stored, visible));
            &&& m1.window.width == p.spec_width()
            &&& m1.window.height == p.spec_height()
            &&& m1.window.x == m.window.x
            &&& m1.window.y == m.window.y
            &&& m1.doc == m.doc
            &&& m1.exit_code == m.exit_code
        }),
{
    lemma_apply_one(m, Action::SetSize(p.spec_width(), p.spec_height()));
}

/// A preset reaches the store only through the toolkit's own resize
/// notification: after the preset and that notification, the persisted
/// record holds the window's whole geometry, preset dimensions included.
pub proof fn lemma_preset_then_resize_persists(
    m: ShellModel,
    stored: Option<bool>,
    visible: Option<bool>,
    p: SizePreset,
)
    ensures
        ({
            let e = match p {
                SizePreset::Small => MenuEvent::SizeSmall,
                SizePreset::Medium => MenuEvent::SizeMedium,
                SizePreset::Large => MenuEvent::SizeLarge,
            };
            let m1 = spec_apply_actions(m, spec_menu_actions(e, stored, visible));
            let ev = GeometryEvent::Resized(p.spec_width(), p.spec_height());
            let m2 = spec_apply_actions(
                m1,
                seq![Action::PersistBounds(spec_merged_bounds(ev, m1.window))],
            );
            &&& m2.doc.spec_loaded_bounds() == m1.window
            &&& m2.doc.spec_loaded_bounds().width == p.spec_width()
            &&& m2.doc.spec_loaded_bounds().height == p.spec_height()
            &&& m2.doc.spec_loaded_bounds().x == m.window.x
            &&& m2.doc.spec_loaded_bounds().y == m.window.y
        }),
{
    lemma_size_preset(m, stored, visible, p);
    let e = match p {
        SizePreset::Small => MenuEvent::SizeSmall,
        SizePreset::Medium => MenuEvent::SizeMedium,
        SizePreset::Large => MenuEvent::SizeLarge,
    };
    let m1 = spec_apply_actions(m, spec_menu_actions(e, stored, visible));
    lemma_geometry_sync(m1, GeometryEvent::Resized(p.spec_width(), p.spec_height()));
}

/// Quitting exits with code zero and performs no persistence: the document
/// is exactly what it was, and no action of the sequence writes the store.
pub proof fn lemma_quit_is_clean(m: ShellModel, stored: Option<bool>, visible: Option<bool>)
    ensures
        ({
            let acts = spec_menu_actions(MenuEvent::Quit, stored, visible);
            let m1 = spec_apply_actions(m, acts);
            &&& m1.exit_code == Some(0i32)
            &&& m1.doc == m.doc
            &&& m1.window == m.window
            &&& forall|i: int| 0 <= i < acts.len() ==> !spec_is_persist(#[trigger] acts[i])
        }),
{
    lemma_apply_one(m, Action::Exit(0));
}

/// Startup applies exactly what is stored: a stored flag reaches the
/// window, a stored record leaves the window at the loaded bounds, and an
/// absent key leaves the toolkit's state alone. Nothing is written back.
pub proof fn lemma_bootstrap_sync(m: ShellModel)
    ensures
        ({
            let m1 = spec_apply_actions(m, spec_bootstrap_actions(m.doc));
            &&& m.doc.window_bounds matches Some(_) ==> m1.window == m.doc.spec_loaded_bounds()
            &&& m.doc.window_bounds matches None ==> m1.window == m.window
            &&& m.doc.always_on_top matches Some(_) ==> m1.always_on_top
                == m.doc.spec_effective_always_on_top()
            &&& m.doc.always_on_top matches None ==> m1.always_on_top == m.always_on_top
            &&& m1.doc == m.doc
            &&& m1.visible == m.visible
            &&& m1.exit_code == m.exit_code
        }),
{
    let aot_part: Seq<Action> = match m.doc.always_on_top {
        Some(v) => seq![Action::ApplyAlwaysOnTop(v)],
        None => Seq::empty(),
    };
    let bounds_part: Seq<Action> = match m.doc.window_bounds {
        Some(raw) => seq![
            Action::SetPosition(raw.spec_resolved().x, raw.spec_resolved().y),
            Action::SetSize(raw.spec_resolved().width, raw.spec_resolved().height),
        ],
        None => Seq::empty(),
    };
    lemma_apply_actions_concat(m, aot_part, bounds_part);
    let m_aot = spec_apply_actions(m, aot_part);
    match m.doc.always_on_top {
        Some(v) => lemma_apply_one(m, Action::ApplyAlwaysOnTop(v)),
        None => {},
    }
    match m.doc.window_bounds {
        Some(raw) => lemma_apply_two(
            m_aot,
            Action::SetPosition(raw.spec_resolved().x, raw.spec_resolved().y),
            Action::SetSize(raw.spec_resolved().width, raw.spec_resolved().height),
        ),
        None => {},
    }
}

} // verus!
