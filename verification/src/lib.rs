//! A frame-pacing and swapchain-lifecycle engine for an explicit graphics API.
//!
//! The library models the host-side protocol that keeps several frames in
//! flight without the host and the device touching the same resource at the
//! same time, and that tears down and rebuilds every surface-dependent
//! resource when the presentation surface changes. All device interaction
//! (acquiring, submitting, presenting, waiting on fences) is performed by the
//! caller; the library decides what to do next and proves that any sequence
//! of decisions it hands out is safe.

pub mod device;
pub mod engine;
pub mod error;
pub mod factory;
pub mod frame;
pub mod recorder;
pub mod surface;
pub mod swapchain;
