//! The tray menu: its entries, their stable identifiers, and the parsing of
//! an activated identifier back into an event.

use vstd::prelude::*;
use vstd::string::StrSliceExecFns;

use crate::settings::SettingsDoc;

verus! {

/// A menu or tray activation, as the shell understands it. `Other` stands
/// for any identifier the menu never issued; it is ignored.
#[derive(Clone, Copy, PartialEq, Eq, Structural, Debug)]
pub enum MenuEvent {
    AlwaysOnTop,
    SizeSmall,
    SizeMedium,
    SizeLarge,
    ShowHide,
    Quit,
    Other,
}

/// One entry of the tray menu, in display order. The checkbox carries the
/// flag state it is built with.
#[derive(Clone, Copy, PartialEq, Eq, Structural, Debug)]
pub enum MenuEntry {
    AlwaysOnTopCheck(bool),
    Separator,
    SizeSmall,
    SizeMedium,
    SizeLarge,
    ShowHide,
    Quit,
}

/// Exact character-wise equality of two string slices.
fn str_eq(a: &str, b: &str) -> (r: bool)
    ensures
        r == (a@ == b@),
{
    let a_len = a.unicode_len();
    let b_len = b.unicode_len();
    if a_len != b_len {
        return false;
    }
    let mut i: usize = 0;
    while i < a_len
        invariant
            a_len == a@.len(),
            b_len == b@.len(),
            a_len == b_len,
            0 <= i <= a_len,
            forall|j: int| 0 <= j < i ==> a@[j] == b@[j],
        decreases a_len - i,
    {
        if a.get_char(i) != b.get_char(i) {
            return false;
        }
        i = i + 1;
    }
    proof {
        assert(a@ =~= b@);
    }
    true
}

/// The stable identifier under which each activatable entry is registered.
pub open spec fn spec_menu_id(e: MenuEvent) -> Seq<char> {
    match e {
        MenuEvent::AlwaysOnTop => "always_on_top"@,
        MenuEvent::SizeSmall => "size_small"@,
        MenuEvent::SizeMedium => "size_medium"@,
        MenuEvent::SizeLarge => "size_large"@,
        MenuEvent::ShowHide => "show_hide"@,
        MenuEvent::Quit => "quit"@,
        MenuEvent::Other => Seq::empty(),
    }
}

/// The event an activated identifier stands for; anything unknown is `Other`.
pub open spec fn spec_menu_event_of(id: Seq<char>) -> MenuEvent {
    if id == "always_on_top"@ {
        MenuEvent::AlwaysOnTop
    } else if id == "size_small"@ {
        MenuEvent::SizeSmall
    } else if id == "size_medium"@ {
        MenuEvent::SizeMedium
    } else if id == "size_large"@ {
        MenuEvent::SizeLarge
    } else if id == "show_hide"@ {
        MenuEvent::ShowHide
    } else if id == "quit"@ {
        MenuEvent::Quit
    } else {
        MenuEvent::Other
    }
}

/// Turns an activated menu identifier into the event it stands for.
pub fn parse_menu_event(id: &str) -> (r: MenuEvent)
    ensures
        r == spec_menu_event_of(id@),
{
    if str_eq(id, "always_on_top") {
        MenuEvent::AlwaysOnTop
    } else if str_eq(id, "size_small") {
        MenuEvent::SizeSmall
    } else if str_eq(id, "size_medium") {
        MenuEvent::SizeMedium
    } else if str_eq(id, "size_large") {
        MenuEvent::SizeLarge
    } else if str_eq(id, "show_hide") {
        MenuEvent::ShowHide
    } else if str_eq(id, "quit") {
        MenuEvent::Quit
    } else {
        MenuEvent::Other
    }
}

/// The identifier to register an activatable entry under.
pub fn menu_event_id(e: MenuEvent) -> (r: &'static str)
    requires
        e != MenuEvent::Other,
    ensures
        r@ == spec_menu_id(e),
{
    match e {
        MenuEvent::AlwaysOnTop => "always_on_top",
        MenuEvent::SizeSmall => "size_small",
        MenuEvent::SizeMedium => "size_medium",
        MenuEvent::SizeLarge => "size_large",
        MenuEvent::ShowHide => "show_hide",
        MenuEvent::Quit => "quit",
        MenuEvent::Other => "",
    }
}

/// The identifiers are faithful: parsing the identifier an entry was
/// registered under yields that entry's event again.
pub proof fn lemma_menu_id_round_trip(e: MenuEvent)
    requires
        e != MenuEvent::Other,
    ensures
        spec_menu_event_of(spec_menu_id(e)) == e,
{
    reveal_strlit("always_on_top");
    reveal_strlit("size_small");
    reveal_strlit("size_medium");
    reveal_strlit("size_large");
    reveal_strlit("show_hide");
    reveal_strlit("quit");
    match e {
        MenuEvent::AlwaysOnTop => {}
        MenuEvent::SizeSmall => {
            assert("size_small"@.len() != "always_on_top"@.len());
        }
        MenuEvent::SizeMedium => {
            assert("size_medium"@.len() != "always_on_top"@.len());
            assert("size_medium"@.len() != "size_small"@.len());
        }
        MenuEvent::SizeLarge => {
            assert("size_large"@.len() != "always_on_top"@.len());
            assert("size_large"@[5] != "size_small"@[5]);
            assert("size_large"@.len() != "size_medium"@.len());
        }
        MenuEvent::ShowHide => {
            assert("show_hide"@.len() != "always_on_top"@.len());
            assert("show_hide"@.len() != "size_small"@.len());
            assert("show_hide"@.len() != "size_medium"@.len());
            assert("show_hide"@.len() != "size_large"@.len());
        }
        MenuEvent::Quit => {
            assert("quit"@.len() != "always_on_top"@.len());
            assert("quit"@.len() != "size_small"@.len());
            assert("quit"@.len() != "size_medium"@.len());
            assert("quit"@.len() != "size_large"@.len());
            assert("quit"@.len() != "show_hide"@.len());
        }
        MenuEvent::Other => {}
    }
}

/// The fixed menu, in display order: the checkbox built from the stored
/// flag, then the three size presets, show/hide, and quit, with separators
/// between the groups.
pub open spec fn spec_menu_layout(checked: bool) -> Seq<MenuEntry> {
    seq![
        MenuEntry::AlwaysOnTopCheck(checked),
        MenuEntry::Separator,
        MenuEntry::SizeSmall,
        MenuEntry::SizeMedium,
        MenuEntry::SizeLarge,
        MenuEntry::Separator,
        MenuEntry::ShowHide,
        MenuEntry::Separator,
        MenuEntry::Quit,
    ]
}

/// Builds the menu for the given document: the checkbox reflects the
/// persisted flag, every other entry is fixed.
pub fn menu_layout(doc: &SettingsDoc) -> (r: Vec<MenuEntry>)
    ensures
        r@ == spec_menu_layout(doc.spec_effective_always_on_top()),
{
    let checked = doc.effective_always_on_top();
    let mut entries: Vec<MenuEntry> = Vec::new();
    entries.push(MenuEntry::AlwaysOnTopCheck(checked));
    entries.push(MenuEntry::Separator);
    entries.push(MenuEntry::SizeSmall);
    entries.push(MenuEntry::SizeMedium);
    entries.push(MenuEntry::SizeLarge);
    entries.push(MenuEntry::Separator);
    entries.push(MenuEntry::ShowHide);
    entries.push(MenuEntry::Separator);
    entries.push(MenuEntry::Quit);
    proof {
        assert(entries@ =~= spec_menu_layout(doc.spec_effective_always_on_top()));
    }
    entries
}

} // verus!
