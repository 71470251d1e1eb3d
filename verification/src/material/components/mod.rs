//! Material widgets: their models and the rules by which they update.
pub mod button;
pub mod button_bar;
pub mod nav_track;
pub mod step;
pub mod stepper;
