//! Resources of the operating system that the tool registers itself with.

pub mod autostart;
