//! Driver core for SSD1306 monochrome OLED display controllers.
//!
//! The crate keeps an off-device framebuffer, tracks which part of it changed, and
//! produces the exact bus traffic that brings the controller's display memory back
//! in sync. Every bus-facing operation goes through [`interface::DisplayInterface`];
//! the contracts speak of the history of transfers that the channel accepted.
use vstd::prelude::*;

pub mod builder;
pub mod command;
pub mod framebuffer;
pub mod geometry;
pub mod graphics;
pub mod interface;
pub mod properties;

pub use builder::{Builder, I2CDIBuilder};
pub use command::Command;
pub use framebuffer::{DirtyRegion, FrameBuffer};
pub use graphics::GraphicsMode;
pub use properties::{DisplayProperties, Error, Ssd1306};
pub use geometry::{AddrMode, Brightness, DisplayRotation, DisplaySize};
pub use interface::{BusOp, DisplayInterface, RecordingError, RecordingInterface, Transfer};

verus! {

} // verus!
