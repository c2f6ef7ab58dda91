//! Buffers: regions of device memory that hold data for the GPU.
//!
//! The library states, over plain values, what a buffer is made of (its handle,
//! its size, the usage it was declared with and how its queues share it), how the
//! declared usage becomes the Vulkan usage flags, what the creation of a buffer
//! asks of the device at each step, and what a slice of a buffer covers.

pub mod flags;
pub mod usage;
pub mod error;
pub mod sync;
pub mod memory;
pub mod buffer;
