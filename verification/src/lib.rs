//! The decision logic of a small Vulkan renderer that draws an indexed
//! rectangle: how a physical device and its queue families are chosen, how
//! the swapchain is configured, which parameters go into each Vulkan object,
//! and how one frame moves from fence wait to presentation.
//!
//! Every value that the driver reports arrives here as a plain value; every
//! object that the driver creates is described here as a plain plan. The
//! binary in `app/` performs the Vulkan calls themselves.

pub mod vk_flags;
pub mod vk_models;
pub mod vk_init_core;
pub mod rndr;
pub mod spirv;
pub mod vk_utils;
pub mod vk_init_rndr;
pub mod app_window;
