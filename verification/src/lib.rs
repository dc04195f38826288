pub mod gui;

pub mod laws;

pub mod lifecycle;

pub use self::lifecycle::{Lifecycle, LifecycleEvent, LifecycleError, Step};
