//! The desktop of a text-mode system: which screen is showing, which screens are paused beneath
//! it, and what the timer and keyboard interrupts do to them.
//!
//! The screens themselves, and what they draw on, belong to the system that uses the desktop:
//! it describes them by implementing [`Screenable`].

pub mod desktop;
pub mod keyboard;
pub mod laws;
pub mod scene;
pub mod screens;
pub mod tick;

pub use crate::desktop::DesktopTUI;
pub use crate::keyboard::Decoder;
pub use crate::screens::{Screenable, SA};
