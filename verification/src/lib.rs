//! The decisions of a small Vulkan renderer, verified: which memory type,
//! depth format, queue family and physical device to use, how the swapchain
//! and the render pass are configured, what every Vulkan object is created
//! with, and how the renderer steps from frame to frame. Talking to the
//! driver is left to the caller, which hands the results of its queries in
//! as plain values.
use vstd::prelude::*;

pub mod handles;
pub mod vkconst;
pub mod descs;
pub mod internal;
pub mod wrapper;
pub mod structs;
pub mod renderer;
pub mod simple;
pub mod uniform;
pub mod vertex_input;

verus! {

} // verus!
