# vulkano buffers

A Verus library for Vulkan buffers.

- `src/usage.rs`: the declared usage of a buffer and its Vulkan usage flags.
- `src/buffer.rs`: buffers, slices of buffers, and the steps of a buffer's creation.
- `src/sync.rs`, `src/memory.rs`, `src/error.rs`, `src/flags.rs`: sharing modes,
  memory chunks, out-of-memory errors and Vulkan constants.
- `app/`: runs a buffer creation against a device and destroys buffers on drop.
