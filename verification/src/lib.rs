//! Decision logic of a Vulkan shader viewer: which swapchain to ask for,
//! how one frame's synchronization objects are wired, how the window's
//! life cycle reacts to events, and which compiled shaders can be shown.
//! The Vulkan and windowing calls themselves are made by the caller with
//! the values these functions return.

pub mod frame;
pub mod shader;
pub mod swapchain;
pub mod viewer;
