//! Device/swapchain bootstrap and frame-synchronization engine.
//!
//! The crate holds the decision logic of a minimal hardware-accelerated
//! renderer: picking a graphics-and-present-capable device and queue family,
//! deriving a swapchain configuration from surface capabilities, describing a
//! single-subpass render pass, and sequencing per-frame command recording so
//! that CPU-side resource reuse never races GPU-side completion. Every
//! function here is a pure decision from plain values to plain values; the
//! host binary performs the actual graphics-API calls and feeds their
//! outcomes back in.

pub mod device;
pub mod driver;
pub mod errors;
pub mod render_pass;
pub mod ring;
pub mod swapchain;
