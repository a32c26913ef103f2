//! A planning front end for a small GPU renderer.
//!
//! The crate decides; the caller performs. Every operation that needs the
//! graphics device is described by a [`device::Command`], and every answer
//! the device gives comes back as a plain value. What is left in between is
//! the part with real invariants: which memory type backs a resource, how a
//! texture is laid out for upload, which descriptor writes are legal, how the
//! frame slots rotate, and in which order the swapchain-dependent objects are
//! torn down and rebuilt.

pub mod adapter;
pub mod buffer;
pub mod descriptor;
pub mod device;
pub mod error;
pub mod format;
pub mod frame;
pub mod framebuffer;
pub mod image;
pub mod input;
pub mod laws;
pub mod memory;
pub mod mesh;
pub mod pipeline;
pub mod renderer;
pub mod setup;
pub mod shader;
pub mod swapchain;
pub mod texture;
pub mod uniform;
