//! An interactive debugger console for a virtual machine: its modes, its
//! address entry, its memory dumps and what it draws.

pub mod numeral;
pub mod entry;
pub mod dump;
pub mod draw;
pub mod machine;
pub mod keys;
pub mod screen;
pub mod cmdr;
pub mod platform;
pub mod gen;
