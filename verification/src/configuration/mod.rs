//! The system configuration an ability runs under.

pub mod color_mode;
pub mod config;
pub mod direction;
pub mod screen_density;

pub use color_mode::ColorMode;
pub use config::{Configuration, ConfigurationView, SCALE_ONE_BITS};
pub use direction::Direction;
pub use screen_density::ScreenDensity;
