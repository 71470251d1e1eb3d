//! Verified core of a retained-mode UI toolkit: versioned values and
//! signals, widget models and their update rules, the keyboard map,
//! identifier derivation and the distance-field grid used for glyphs.
pub mod base;
pub mod button;
pub mod color;
pub mod director;
pub mod flood;
pub mod id;
pub mod local_screen;
pub mod material;
mod text;
pub mod touch;
pub mod traits;
pub mod window;

pub use color::{WebColor, X11Color};
pub use touch::TouchMsg;
