//! The Vulkan constants that buffers use, with the values that the Vulkan
//! specification gives them.

use vstd::prelude::*;

verus! {

/// Type of a `VkResult` code, as the C API returns it.
pub type VkResultCode = u32;

/// `VK_SUCCESS`.
pub const SUCCESS: u32 = 0;

/// `VK_ERROR_OUT_OF_HOST_MEMORY` (-1 read as an unsigned 32-bit value).
pub const ERROR_OUT_OF_HOST_MEMORY: u32 = 0xFFFF_FFFF;

/// `VK_ERROR_OUT_OF_DEVICE_MEMORY` (-2 read as an unsigned 32-bit value).
pub const ERROR_OUT_OF_DEVICE_MEMORY: u32 = 0xFFFF_FFFE;

/// `VK_STRUCTURE_TYPE_BUFFER_CREATE_INFO`.
pub const STRUCTURE_TYPE_BUFFER_CREATE_INFO: u32 = 12;

/// `VK_SHARING_MODE_EXCLUSIVE`.
pub const SHARING_MODE_EXCLUSIVE: u32 = 0;

/// `VK_SHARING_MODE_CONCURRENT`.
pub const SHARING_MODE_CONCURRENT: u32 = 1;

/// `VK_BUFFER_USAGE_TRANSFER_SRC_BIT`.
pub const BUFFER_USAGE_TRANSFER_SRC_BIT: u32 = 0x0000_0001;

/// `VK_BUFFER_USAGE_TRANSFER_DST_BIT`.
pub const BUFFER_USAGE_TRANSFER_DST_BIT: u32 = 0x0000_0002;

/// `VK_BUFFER_USAGE_UNIFORM_TEXEL_BUFFER_BIT`.
pub const BUFFER_USAGE_UNIFORM_TEXEL_BUFFER_BIT: u32 = 0x0000_0004;

/// `VK_BUFFER_USAGE_STORAGE_TEXEL_BUFFER_BIT`.
pub const BUFFER_USAGE_STORAGE_TEXEL_BUFFER_BIT: u32 = 0x0000_0008;

/// `VK_BUFFER_USAGE_UNIFORM_BUFFER_BIT`.
pub const BUFFER_USAGE_UNIFORM_BUFFER_BIT: u32 = 0x0000_0010;

/// `VK_BUFFER_USAGE_STORAGE_BUFFER_BIT`.
pub const BUFFER_USAGE_STORAGE_BUFFER_BIT: u32 = 0x0000_0020;

/// `VK_BUFFER_USAGE_INDEX_BUFFER_BIT`.
pub const BUFFER_USAGE_INDEX_BUFFER_BIT: u32 = 0x0000_0040;

/// `VK_BUFFER_USAGE_VERTEX_BUFFER_BIT`.
pub const BUFFER_USAGE_VERTEX_BUFFER_BIT: u32 = 0x0000_0080;

/// `VK_BUFFER_USAGE_INDIRECT_BUFFER_BIT`.
pub const BUFFER_USAGE_INDIRECT_BUFFER_BIT: u32 = 0x0000_0100;

/// Whether the flag `flag` is set in `bits`.
pub open spec fn has_flag(bits: u32, flag: u32) -> bool {
    bits & flag != 0
}

} // verus!
