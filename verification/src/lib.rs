//! Swapchain configuration and bookkeeping for a Vulkan renderer.
//!
//! The library decides how a swapchain is configured from what the surface
//! supports (format, present mode, extent, image count, sharing mode), keeps the
//! per-image bookkeeping of a created swapchain (framebuffers, command buffers),
//! plans the commands recorded for a frame, and maps Vulkan result codes onto the
//! renderer's errors. Every Vulkan object is held as its raw handle and every
//! Vulkan enum or flag as its raw value.

pub mod types;
pub mod support;
pub mod create_info;
pub mod error;
pub mod memory;
pub mod framebuffer;
pub mod swapchain;
