//! Capture of a single still frame from a compositor-managed output.
//!
//! The library holds the logic of the capture pipeline: pixel-format
//! selection, the frame-copy state machine, shared-memory buffer
//! provisioning with its retry rules, pixel-channel normalization, and the
//! encode step.  The event loop that talks to the display server lives
//! outside the library and feeds it plain events.

pub mod encode;
pub mod error;
pub mod format;
pub mod normalize;
pub mod output;
pub mod session;
pub mod shm;
