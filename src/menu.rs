use vstd::prelude::*;
use crate::action::HARD_RELOAD_ID;

verus! {

/// Text shown on the hard-reload menu item.
pub const HARD_RELOAD_TEXT: &'static str = "Hard Reload";

/// Keyboard shortcut of the hard-reload menu item.
pub const HARD_RELOAD_ACCELERATOR: &'static str = "Cmd+Shift+R";

/// Title of the submenu that holds the view commands.
pub const VIEW_MENU_TITLE: &'static str = "View";

/// A clickable leaf of the menu.
#[derive(Debug)]
pub struct MenuEntry {
    /// Identifier reported when the entry is clicked.
    pub id: String,
    /// Text shown to the user.
    pub text: String,
    /// Keyboard shortcut that triggers the entry.
    pub accelerator: String,
}

/// A titled submenu of the menu bar.
#[derive(Debug)]
pub struct Submenu {
    pub title: String,
    pub entries: Vec<MenuEntry>,
}

/// The menu bar of the main window, as the submenus it shows from left to right.
#[derive(Debug)]
pub struct MenuLayout {
    pub submenus: Vec<Submenu>,
}

/// An entry as the triple (id, text, accelerator).
pub open spec fn entry_view(e: MenuEntry) -> (Seq<char>, Seq<char>, Seq<char>) {
    (e.id@, e.text@, e.accelerator@)
}

/// The hard-reload entry.
pub open spec fn hard_reload_entry() -> (Seq<char>, Seq<char>, Seq<char>) {
    (HARD_RELOAD_ID@, HARD_RELOAD_TEXT@, HARD_RELOAD_ACCELERATOR@)
}

/// The main window's menu: one "View" submenu holding the hard-reload entry alone.
pub open spec fn is_main_menu(m: MenuLayout) -> bool {
    &&& m.submenus@.len() == 1
    &&& m.submenus@[0].title@ == VIEW_MENU_TITLE@
    &&& m.submenus@[0].entries@.len() == 1
    &&& entry_view(m.submenus@[0].entries@[0]) == hard_reload_entry()
}

/// Builds the layout of the main window's menu.
pub fn main_menu() -> (r: MenuLayout)
    ensures
        is_main_menu(r),
{
    let reload = MenuEntry {
        id: HARD_RELOAD_ID.to_owned(),
        text: HARD_RELOAD_TEXT.to_owned(),
        accelerator: HARD_RELOAD_ACCELERATOR.to_owned(),
    };
    let mut entries: Vec<MenuEntry> = Vec::new();
    entries.push(reload);
    let view = Submenu { title: VIEW_MENU_TITLE.to_owned(), entries };
    let mut submenus: Vec<Submenu> = Vec::new();
    submenus.push(view);
    MenuLayout { submenus }
}

} // verus!
