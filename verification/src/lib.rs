//! Verified core of a small Vulkan-style renderer.
//!
//! The modules here model and verify the decision logic of the frame
//! lifecycle and the resource-synchronization core: in-flight frame pacing,
//! the staged-upload transfer pipeline, mipmap-generation planning, swapchain
//! configuration, and the selection rules for formats, present modes, memory
//! types and queue families. The graphics driver itself is reached only from
//! the unverified application shell, which executes the plans produced here.

pub mod command_executor;
pub mod frame;
pub mod image;
pub mod lifecycle;
pub mod memory;
pub mod physical_device;
pub mod pipeline;
pub mod queue_family;
pub mod render_pass;
pub mod scene;
pub mod swapchain;
pub mod transfer;
pub mod vertex;
