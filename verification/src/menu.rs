//! The static tray menu and the global key binding: built once at startup,
//! never mutated afterwards.

use vstd::prelude::*;

verus! {

/// One entry of the tray menu: either a non-interactive separator or an
/// interactive item with a stable id, a display label and an enabled flag.
#[derive(Debug, PartialEq, Eq)]
pub enum MenuEntry {
    Separator,
    Item { id: String, label: String, enabled: bool },
}

/// The id of an entry; a separator carries the empty id.
pub open spec fn entry_id(e: MenuEntry) -> Seq<char> {
    match e {
        MenuEntry::Separator => Seq::empty(),
        MenuEntry::Item { id, .. } => id@,
    }
}

/// `e` is an enabled item with the given id and label.
pub open spec fn is_item(e: MenuEntry, id: Seq<char>, label: Seq<char>) -> bool {
    &&& e matches MenuEntry::Item { id: i, label: l, enabled }
    &&& i@ == id
    &&& l@ == label
    &&& enabled
}

/// The fixed layout of the tray menu: Settings, a separator, Hide, Quit, in
/// that order, all items enabled.
pub open spec fn is_tray_menu(m: Seq<MenuEntry>) -> bool {
    &&& m.len() == 4
    &&& is_item(m[0], "settings"@, "Settings"@)
    &&& m[1] == MenuEntry::Separator
    &&& is_item(m[2], "hide"@, "Hide"@)
    &&& is_item(m[3], "quit"@, "Quit"@)
}

/// Builds the tray menu.
pub fn tray_menu() -> (m: Vec<MenuEntry>)
    ensures
        is_tray_menu(m@),
{
    let mut m: Vec<MenuEntry> = Vec::new();
    m.push(
        MenuEntry::Item { id: "settings".to_owned(), label: "Settings".to_owned(), enabled: true },
    );
    m.push(MenuEntry::Separator);
    m.push(MenuEntry::Item { id: "hide".to_owned(), label: "Hide".to_owned(), enabled: true });
    m.push(MenuEntry::Item { id: "quit".to_owned(), label: "Quit".to_owned(), enabled: true });
    m
}

/// The ids of the interactive entries of the tray menu are pairwise
/// distinct, and none is ever reassigned: the menu is immutable, so this
/// holds for the process lifetime.
pub proof fn tray_menu_ids_unique(m: Seq<MenuEntry>)
    requires
        is_tray_menu(m),
    ensures
        forall|i: int, j: int|
            0 <= i < j < m.len() && m[i] is Item && m[j] is Item ==> entry_id(m[i]) != entry_id(
                m[j],
            ),
{
    reveal_strlit("settings");
    reveal_strlit("hide");
    reveal_strlit("quit");
    assert("settings"@.len() == 8);
    assert("hide"@.len() == 4);
    assert("quit"@.len() == 4);
    assert("hide"@[0] == 'h');
    assert("quit"@[0] == 'q');
    assert("hide"@ != "quit"@);
}

/// The single global key combination bound at startup.
pub fn shortcut_combination() -> (s: String)
    ensures
        s@ == "ctrl+shift+m"@,
{
    "ctrl+shift+m".to_owned()
}

/// The label the single main window is registered under.
pub fn main_window_label() -> (s: String)
    ensures
        s@ == "main"@,
{
    "main".to_owned()
}

} // verus!
