//! Native shell logic of the Flack desktop application: the application
//! menu description and the global shortcut that focuses the main window.
pub mod binder;
pub mod menu;
pub mod shortcut;
