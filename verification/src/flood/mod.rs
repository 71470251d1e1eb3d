//! The values a widget tree carries besides its geometry: versions,
//! signals, timeouts and text input.
pub mod extras;
pub mod numbered;
pub mod signal;
pub mod version;

pub use self::version::{Counter, Enabled, Version};
pub use self::version::Counter as VersionCounter;
pub use self::signal::Signal;
pub use self::extras::{Duration, Input, Stratum, Timeout};
