use app_shell::action::{
    action_for_menu_event, hard_reload_command, ShellAction, HARD_RELOAD_ID, RELOAD_SCRIPT,
};
use app_shell::menu::{main_menu, HARD_RELOAD_ACCELERATOR, HARD_RELOAD_TEXT, VIEW_MENU_TITLE};
use app_shell::plugins::{startup_plugins, Plugin};

#[test]
fn hard_reload_item_reloads() {
    assert_eq!(
        action_for_menu_event("hard_reload"),
        Some(ShellAction::ReloadMainWindow)
    );
}

#[test]
fn other_items_do_nothing() {
    assert_eq!(action_for_menu_event("quit"), None);
    assert_eq!(action_for_menu_event(""), None);
    assert_eq!(action_for_menu_event("Hard Reload"), None);
    assert_eq!(action_for_menu_event("hard_reload "), None);
    assert_eq!(action_for_menu_event("HARD_RELOAD"), None);
}

#[test]
fn command_reloads_like_the_menu_item() {
    let a = hard_reload_command();
    assert_eq!(a, ShellAction::ReloadMainWindow);
    assert_eq!(action_for_menu_event(HARD_RELOAD_ID), Some(a));
}

#[test]
fn reload_script_text() {
    assert_eq!(ShellAction::ReloadMainWindow.script(), "window.location.reload()");
    assert_eq!(RELOAD_SCRIPT, "window.location.reload()");
}

#[test]
fn release_build_plugins() {
    assert_eq!(
        startup_plugins(false),
        vec![Plugin::Fs, Plugin::Dialog, Plugin::WindowState]
    );
}

#[test]
fn debug_build_plugins() {
    assert_eq!(
        startup_plugins(true),
        vec![Plugin::Fs, Plugin::Dialog, Plugin::WindowState, Plugin::Log]
    );
}

#[test]
fn main_menu_layout() {
    let m = main_menu();
    assert_eq!(m.submenus.len(), 1);
    let view = &m.submenus[0];
    assert_eq!(view.title, "View");
    assert_eq!(VIEW_MENU_TITLE, "View");
    assert_eq!(view.entries.len(), 1);
    let e = &view.entries[0];
    assert_eq!(e.id, "hard_reload");
    assert_eq!(e.text, "Hard Reload");
    assert_eq!(e.accelerator, "Cmd+Shift+R");
    assert_eq!(HARD_RELOAD_TEXT, "Hard Reload");
    assert_eq!(HARD_RELOAD_ACCELERATOR, "Cmd+Shift+R");
}

#[test]
fn menu_entry_id_is_bound_to_reload() {
    let m = main_menu();
    let id = &m.submenus[0].entries[0].id;
    assert_eq!(
        action_for_menu_event(id),
        Some(ShellAction::ReloadMainWindow)
    );
}
