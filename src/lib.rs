//! A modal OK/Cancel dialog shown above a dimming backdrop: window geometry,
//! the launch sequence, the dismissal state machine and the declarative
//! element trees of both components.

pub mod bootstrap;
pub mod dialog;
pub mod element;
pub mod geometry;
pub mod lifecycle;
