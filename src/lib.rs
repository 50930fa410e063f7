//! The decision core of a small color-button demo: which panel is shown,
//! what the notification line says, and when the frame loop stops.

pub mod driver;
pub mod laws;
pub mod panels;
pub mod state;

pub use state::{example_selector, Example, Notice, SelectorInput, State};
pub use driver::{Build, Drain, Driver, Phase};
pub use panels::{ButtonStyle, ColorControl, InputMode, Preview, Size, Widget};
