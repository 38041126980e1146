//! The core of a small real-time scene renderer, without the device: which
//! resources exist, what is uploaded when the scene changes, what is drawn,
//! and what is done when a frame fails. Everything here is plain data and
//! verified; the caller carries the plans out on the device.

pub mod allocator;
pub mod cache;
pub mod pipeline;
pub mod renderer;
pub mod scene;
