//! Verified bootstrap logic for a windowed graphics application.
//!
//! The library models the capability negotiation, device selection and
//! lifecycle discipline of a low-level graphics context: which extension
//! and layer names each creation call must request, which physical
//! accelerator is chosen, how the event loop reacts to window events, and
//! in which exact order acquired resources are released. The native calls
//! themselves (instance, device and messenger creation, window and event
//! polling) live outside the library; they hand plain values in and take
//! plain values back.

pub mod config;
pub mod device;
pub mod diagnostics;
pub mod errors;
pub mod instance;
pub mod lifecycle;
pub mod logical_device;

pub use errors::BootstrapError;
