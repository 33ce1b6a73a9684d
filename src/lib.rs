//! Provisioning of the LTeX+ language server for an editor extension.
//!
//! The library decides; the host acts. [`platform`] names the release asset
//! and the install layout for a platform; [`provision`] holds the steps,
//! events and errors of a run; [`extension`] holds the provisioner itself, a
//! state machine that tells the host which step to take next, reads back what
//! came of it and caches the executable it found; [`laws`] states properties
//! that hold across these functions.
pub mod platform;
pub mod provision;
pub mod extension;
pub mod laws;
