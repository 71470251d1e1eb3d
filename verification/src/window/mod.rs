//! The decisions a window makes between drawing its widget tree: which
//! signals and timeouts are new, and what a key press types.
pub mod keymap;
pub mod open_window;

pub use self::keymap::Key;
