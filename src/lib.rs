//! Frame orchestration and supporting bookkeeping for a small Vulkan engine.
//!
//! Everything here is plain logic over plain values: the GPU driver, the
//! window system and the file system are reached by the application layer,
//! which feeds their results into these state machines and performs the
//! actions they hand back.

pub mod error;
pub mod device;
pub mod swapchain;
pub mod frame;
pub mod lifetime;
pub mod resources;
pub mod handle;
pub mod pool;
pub mod realm;
pub mod text;
pub mod config;
pub mod vfs;
pub mod input;
pub mod ply;
