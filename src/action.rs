use vstd::prelude::*;

verus! {

/// Identifier shared by the "Hard Reload" menu item and the invocable command.
pub const HARD_RELOAD_ID: &'static str = "hard_reload";

/// Script that makes a web view reload its content.
pub const RELOAD_SCRIPT: &'static str = "window.location.reload()";

/// Something the shell asks the main window to do.
#[derive(Clone, Copy, Debug, PartialEq, Eq, Structural)]
pub enum ShellAction {
    /// Reload the main window's web content.
    ReloadMainWindow,
}

/// The script that carries out an action in the window's content view.
pub open spec fn script_of(a: ShellAction) -> Seq<char> {
    match a {
        ShellAction::ReloadMainWindow => RELOAD_SCRIPT@,
    }
}

/// The action, if any, bound to the menu item with the given identifier.
pub open spec fn action_of_menu_id(id: Seq<char>) -> Option<ShellAction> {
    if id == HARD_RELOAD_ID@ {
        Some(ShellAction::ReloadMainWindow)
    } else {
        None
    }
}

impl ShellAction {
    /// The script to evaluate in the main window to carry out this action.
    pub fn script(&self) -> (r: &'static str)
        ensures
            r@ == script_of(*self),
    {
        match self {
            ShellAction::ReloadMainWindow => RELOAD_SCRIPT,
        }
    }
}

/// Decides what a click on the menu item `id` does: the hard-reload item
/// reloads the main window, every other item does nothing.
pub fn action_for_menu_event(id: &str) -> (r: Option<ShellAction>)
    ensures
        r == action_of_menu_id(id@),
{
    let clicked: String = id.to_owned();
    let bound: String = HARD_RELOAD_ID.to_owned();
    if clicked == bound {
        Some(ShellAction::ReloadMainWindow)
    } else {
        None
    }
}

/// The action of the invocable hard-reload command: it always reloads the
/// main window, as the menu item does.
pub fn hard_reload_command() -> (r: ShellAction)
    ensures
        r == ShellAction::ReloadMainWindow,
        Some(r) == action_of_menu_id(HARD_RELOAD_ID@),
{
    ShellAction::ReloadMainWindow
}

} // verus!
