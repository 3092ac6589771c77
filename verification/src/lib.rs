//! Verified decision logic for importing raw Vulkan (and Metal) objects into
//! wgpu: format translation, the descriptors handed to wgpu, and the order in
//! which the fallible import steps run and how a failure ends them.
#![allow(unused_imports)]

pub mod callbacks;
pub mod device;
pub mod format;
pub mod metal;
pub mod sequence;
pub mod texture;
pub mod usage;
