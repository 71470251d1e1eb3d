//! Basic values shared by the renderer.
pub mod sdf;

pub use self::sdf::{SignedDistanceField, SDF_SIZE};
