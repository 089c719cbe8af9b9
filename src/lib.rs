//! A driver for the HD44780 family of character-LCD controllers.
//!
//! The library turns display operations (clear, write text, move the cursor,
//! define custom glyphs) into the exact sequence of pin levels and waits that
//! the controller expects over a 4- or 8-line parallel bus.
//!
//! * [`commands`] packs semantic parameters into instruction bytes.
//! * [`gpio`] describes how a byte travels over 4 or 8 data lines plus the
//!   enable line, as a sequence of [`Signal`]s.
//! * [`driver`] runs the power-on initialization and exposes the full
//!   command surface; every operation appends the signals it needs to a
//!   pending queue that the caller plays on real pins.
pub mod commands;
pub mod gpio;
pub mod driver;

pub use driver::{Driver, PinDriver};
pub use gpio::{EightLines, FourLines, PinGroup, Signal};
