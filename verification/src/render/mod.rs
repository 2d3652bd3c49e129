//! Drawing surfaces: a native surface of the ability's own, or the surface
//! of a web view.

pub mod web;
pub mod xcomponent;

pub use xcomponent::{frame_interval, surface_rect};
