//! Decision logic of a save-backup desktop tool's windowing layer: the toast
//! notifications, the tray menu, the autostart entry and the window icon.

pub mod gui;
pub mod resource;
pub mod tray;
