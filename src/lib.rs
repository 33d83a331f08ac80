//! A model of a legacy VGA display controller: its register banks, the
//! tables that put it into each supported video mode, its color lookup
//! unit, its character generator and its frame buffer, with typed writers
//! for each fixed screen geometry.

pub mod registers;
pub mod modes;
pub mod vga;
pub mod colors;
pub mod writers;

pub use self::vga::Vga;
pub use self::writers::{Graphics640x480x16, Text40x25, Text40x50, Text80x25};
