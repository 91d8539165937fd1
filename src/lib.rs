//! A debouncing filter for mouse button-down events: the decision engine,
//! the hook capability that platforms provide, and the service that owns the
//! live hook.
pub mod debounce;
pub mod hook;
pub mod status;
pub mod service;
