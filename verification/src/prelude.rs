//! The types and traits needed to drive a debounced pin with `update()`.

pub use crate::Debounce;
pub use crate::DebounceState;
pub use crate::DebouncedInputPin;
