//! Window stage events.

pub mod event;

pub use event::StageEventType;
