//! The decisions of a desktop shell: which plugins start and in what order,
//! the layout of the native menu, and what a menu click or an invoked command
//! asks the main window to do. The GUI framework itself performs them.

pub mod action;
pub mod menu;
pub mod plugins;
