//! Location in memory that contains data.
//!
//! All buffers are guaranteed to be accessible from the GPU.
//!
//! # Strong typing
//!
//! All buffers take a template parameter that indicates their content.
//!
//! # Memory
//!
//! Creating a buffer requires passing an object that will be used by this library to provide
//! memory to the buffer.
//!
//! All accesses to the memory are done through the `Buffer` object.

use std::marker::PhantomData;
use std::sync::Arc;
use vstd::prelude::*;
use crate::error::{allocation_outcome, check_errors, is_allocation_result, OomError};
use crate::flags::{
    has_flag, BUFFER_USAGE_INDEX_BUFFER_BIT, BUFFER_USAGE_INDIRECT_BUFFER_BIT,
    BUFFER_USAGE_STORAGE_BUFFER_BIT, BUFFER_USAGE_STORAGE_TEXEL_BUFFER_BIT,
    BUFFER_USAGE_TRANSFER_DST_BIT, BUFFER_USAGE_TRANSFER_SRC_BIT, BUFFER_USAGE_UNIFORM_BUFFER_BIT,
    BUFFER_USAGE_UNIFORM_TEXEL_BUFFER_BIT, BUFFER_USAGE_VERTEX_BUFFER_BIT,
    SHARING_MODE_CONCURRENT, SHARING_MODE_EXCLUSIVE, STRUCTURE_TYPE_BUFFER_CREATE_INFO,
};
use crate::memory::{
    ChunkProperties, ChunkRange, CpuAccessible, CpuWriteAccessible, MemoryRequirements,
    MemorySourceChunk,
};
use crate::sync::{queue_family_indices, sharing_mode_code, SharingMode, SharingModel};
use crate::usage::{lemma_usage_bits_decode, usage_bits, Usage};

verus! {

/// A buffer of device memory whose content has the type `T`, backed by the memory
/// chunk `M`.
pub struct Buffer<T: ?Sized, M> {
    marker: PhantomData<T>,
    inner: Inner<M>,
}

struct Inner<M> {
    memory: M,
    buffer: u64,
    size: usize,
    usage: u32,
    sharing: SharingMode,
}

/// What a buffer is, as plain values: its Vulkan handle, its size in bytes, its
/// Vulkan usage flags and how queues share it.
pub struct BufferModel {
    pub handle: u64,
    pub size: usize,
    pub usage: u32,
    pub sharing: SharingModel,
}

impl<M> Inner<M> {
    spec fn model(&self) -> BufferModel {
        BufferModel {
            handle: self.buffer,
            size: self.size,
            usage: self.usage,
            sharing: self.sharing@,
        }
    }
}

impl<T: ?Sized, M> View for Buffer<T, M> {
    type V = BufferModel;

    closed spec fn view(&self) -> BufferModel {
        self.inner.model()
    }
}

impl<T: ?Sized, M> Buffer<T, M> {
    /// The memory chunk that backs the buffer.
    pub closed spec fn memory(&self) -> M {
        self.inner.memory
    }

    /// Returns the size of the buffer in bytes.
    pub fn size(&self) -> (r: usize)
        ensures
            r == self@.size,
    {
        self.inner.size
    }

    /// True if the buffer can be used as a source for buffer transfers.
    pub fn usage_transfer_src(&self) -> (r: bool)
        ensures
            r == has_flag(self@.usage, BUFFER_USAGE_TRANSFER_SRC_BIT),
    {
        (self.inner.usage & BUFFER_USAGE_TRANSFER_SRC_BIT) != 0
    }

    /// True if the buffer can be used as a destination for buffer transfers.
    pub fn usage_transfer_dest(&self) -> (r: bool)
        ensures
            r == has_flag(self@.usage, BUFFER_USAGE_TRANSFER_DST_BIT),
    {
        (self.inner.usage & BUFFER_USAGE_TRANSFER_DST_BIT) != 0
    }

    /// True if the buffer can be used as a uniform texel buffer.
    pub fn usage_uniform_texel_buffer(&self) -> (r: bool)
        ensures
            r == has_flag(self@.usage, BUFFER_USAGE_UNIFORM_TEXEL_BUFFER_BIT),
    {
        (self.inner.usage & BUFFER_USAGE_UNIFORM_TEXEL_BUFFER_BIT) != 0
    }

    /// True if the buffer can be used as a storage texel buffer.
    pub fn usage_storage_texel_buffer(&self) -> (r: bool)
        ensures
            r == has_flag(self@.usage, BUFFER_USAGE_STORAGE_TEXEL_BUFFER_BIT),
    {
        (self.inner.usage & BUFFER_USAGE_STORAGE_TEXEL_BUFFER_BIT) != 0
    }

    /// True if the buffer can be used as a uniform buffer.
    pub fn usage_uniform_buffer(&self) -> (r: bool)
        ensures
            r == has_flag(self@.usage, BUFFER_USAGE_UNIFORM_BUFFER_BIT),
    {
        (self.inner.usage & BUFFER_USAGE_UNIFORM_BUFFER_BIT) != 0
    }

    /// True if the buffer can be used as a storage buffer.
    pub fn usage_storage_buffer(&self) -> (r: bool)
        ensures
            r == has_flag(self@.usage, BUFFER_USAGE_STORAGE_BUFFER_BIT),
    {
        (self.inner.usage & BUFFER_USAGE_STORAGE_BUFFER_BIT) != 0
    }

    /// True if the buffer can be used as a source for index data.
    pub fn usage_index_buffer(&self) -> (r: bool)
        ensures
            r == has_flag(self@.usage, BUFFER_USAGE_INDEX_BUFFER_BIT),
    {
        (self.inner.usage & BUFFER_USAGE_INDEX_BUFFER_BIT) != 0
    }

    /// True if the buffer can be used as a source for vertex data.
    pub fn usage_vertex_buffer(&self) -> (r: bool)
        ensures
            r == has_flag(self@.usage, BUFFER_USAGE_VERTEX_BUFFER_BIT),
    {
        (self.inner.usage & BUFFER_USAGE_VERTEX_BUFFER_BIT) != 0
    }

    /// True if the buffer can be used as an indirect buffer.
    pub fn usage_indirect_buffer(&self) -> (r: bool)
        ensures
            r == has_flag(self@.usage, BUFFER_USAGE_INDIRECT_BUFFER_BIT),
    {
        (self.inner.usage & BUFFER_USAGE_INDIRECT_BUFFER_BIT) != 0
    }

    /// The Vulkan handle of the buffer.
    pub fn internal_object(&self) -> (r: u64)
        ensures
            r == self@.handle,
    {
        self.inner.buffer
    }

    /// How the queues share the buffer.
    pub fn sharing_mode(&self) -> (r: &SharingMode)
        ensures
            r@ == self@.sharing,
    {
        &self.inner.sharing
    }

    /// The part of the memory chunk that an access by the GPU to the buffer
    /// concerns: all of it.
    pub fn chunk_range(&self) -> (r: ChunkRange)
        ensures
            r == ChunkRange::All,
    {
        ChunkRange::All
    }
}

impl<T: ?Sized, M: MemorySourceChunk> Buffer<T, M> {
    /// Whether the GPU's accesses to the buffer must be waited for with a fence: the
    /// memory chunk decides.
    pub fn requires_fence(&self) -> (r: bool)
        ensures
            r == self.memory().fence_required(),
    {
        self.inner.memory.requires_fence()
    }

    /// Whether the GPU's accesses to the buffer must be ordered with semaphores: the
    /// memory chunk decides.
    pub fn requires_semaphore(&self) -> (r: bool)
        ensures
            r == self.memory().semaphore_required(),
    {
        self.inner.memory.requires_semaphore()
    }

    /// Declares an access by the GPU to the whole buffer: the memory chunk is told
    /// of one access to all of it, submitted to `queue`, with the given fence and
    /// semaphore, and what it hands back is returned.
    pub fn gpu_access(
        &self,
        write: bool,
        queue: &mut M::Queue,
        fence: Option<Arc<M::Fence>>,
        semaphore: Option<Arc<M::Semaphore>>,
    ) -> (r: Option<Arc<M::Semaphore>>)
        ensures
            self.memory().gpu_access_result(write, ChunkRange::All, fence, semaphore, r),
            self.memory().gpu_access_queue(write, ChunkRange::All, *old(queue), *final(queue)),
    {
        self.inner.memory.gpu_access(write, ChunkRange::All, queue, fence, semaphore)
    }
}

impl<T, M> Buffer<[T], M> {
    /// Returns the number of elements in the buffer.
    pub fn len(&self) -> (r: usize)
        requires
            vstd::layout::size_of::<T>() > 0,
        ensures
            r == self@.size as nat / vstd::layout::size_of::<T>(),
    {
        self.inner.size / std::mem::size_of::<T>()
    }
}

impl<'a, T: ?Sized, M: CpuAccessible<'a, T>> Buffer<T, M> {
    /// Gives a read access to the content of the buffer.
    ///
    /// If the buffer is in use by the GPU, blocks until it is available. What comes
    /// back is a read access that the memory chunk may hand out.
    pub fn read(&'a self, timeout_ns: u64) -> (r: M::Read)
        ensures
            self.memory().read_result(timeout_ns, r),
    {
        self.inner.memory.read(timeout_ns)
    }

    /// Tries to give a read access to the content of the buffer.
    ///
    /// If the buffer is in use by the GPU, returns `None`. What comes back is a
    /// result that the memory chunk may hand out.
    pub fn try_read(&'a self) -> (r: Option<M::Read>)
        ensures
            self.memory().try_read_result(r),
    {
        self.inner.memory.try_read()
    }
}

impl<'a, T: ?Sized, M: CpuWriteAccessible<'a, T>> Buffer<T, M> {
    /// Gives a write access to the content of the buffer.
    ///
    /// If the buffer is in use by the GPU, blocks until it is available. What comes
    /// back is a write access that the memory chunk may hand out.
    pub fn write(&'a self, timeout_ns: u64) -> (w: M::Write)
        ensures
            self.memory().write_result(timeout_ns, w),
    {
        self.inner.memory.write(timeout_ns)
    }

    /// Tries to give a write access to the content of the buffer.
    ///
    /// If the buffer is in use by the GPU, returns `None`. What comes back is a
    /// result that the memory chunk may hand out.
    pub fn try_write(&'a self) -> (w: Option<M::Write>)
        ensures
            self.memory().try_write_result(w),
    {
        self.inner.memory.try_write()
    }
}

/// A buffer's accesses are those of its memory chunk.
impl<'a, T: ?Sized, M: CpuAccessible<'a, T>> CpuAccessible<'a, T> for Buffer<T, M> {
    type Read = M::Read;

    closed spec fn read_result(&self, timeout_ns: u64, r: M::Read) -> bool {
        self.inner.memory.read_result(timeout_ns, r)
    }

    closed spec fn try_read_result(&self, r: Option<M::Read>) -> bool {
        self.inner.memory.try_read_result(r)
    }

    fn read(&'a self, timeout_ns: u64) -> (r: M::Read)
        ensures
            self.memory().read_result(timeout_ns, r),
    {
        self.inner.memory.read(timeout_ns)
    }

    fn try_read(&'a self) -> (r: Option<M::Read>)
        ensures
            self.memory().try_read_result(r),
    {
        self.inner.memory.try_read()
    }
}

/// A buffer's accesses are those of its memory chunk.
impl<'a, T: ?Sized, M: CpuWriteAccessible<'a, T>> CpuWriteAccessible<'a, T> for Buffer<T, M> {
    type Write = M::Write;

    closed spec fn write_result(&self, timeout_ns: u64, w: M::Write) -> bool {
        self.inner.memory.write_result(timeout_ns, w)
    }

    closed spec fn try_write_result(&self, w: Option<M::Write>) -> bool {
        self.inner.memory.try_write_result(w)
    }

    fn write(&'a self, timeout_ns: u64) -> (w: M::Write)
        ensures
            self.memory().write_result(timeout_ns, w),
    {
        self.inner.memory.write(timeout_ns)
    }

    fn try_write(&'a self) -> (w: Option<M::Write>)
        ensures
            self.memory().try_write_result(w),
    {
        self.inner.memory.try_write()
    }
}

/// The parameters of a `vkCreateBuffer` call: the fields of a
/// `VkBufferCreateInfo`, with the queue family list held by value.
pub struct BufferCreateInfo {
    pub s_type: u32,
    pub flags: u32,
    pub size: u64,
    pub usage: u32,
    pub sharing_mode: u32,
    pub queue_family_index_count: u32,
    pub queue_family_indices: Vec<u32>,
}

/// What a buffer under creation is declared with: its Vulkan usage flags, its size
/// in bytes (that of one `T`) and how queues will share it.
pub struct CreationPlan {
    pub usage: u32,
    pub size: usize,
    pub sharing: SharingModel,
}

/// A memory allocation to make for a buffer: `size` bytes aligned to `alignment`,
/// from one of the memory types whose bit is set in `memory_type_bits`.
#[derive(Debug, Copy, Clone, PartialEq, Eq, Structural)]
pub struct AllocationRequest {
    pub size: usize,
    pub alignment: usize,
    pub memory_type_bits: u32,
}

/// A `vkBindBufferMemory` call to make: bind `buffer` to the device memory
/// allocation `memory`, starting `offset` bytes into it.
#[derive(Debug, Copy, Clone, PartialEq, Eq, Structural)]
pub struct BindRequest {
    pub buffer: u64,
    pub memory: u64,
    pub offset: u64,
}

/// First step of a buffer creation: the device is to create the buffer object
/// from `create_info`.
pub struct CreatingBuffer<T, M> {
    marker: PhantomData<T>,
    chunk: PhantomData<M>,
    usage: u32,
    size: usize,
    sharing: SharingMode,
}

/// Second step: the device is to report the memory requirements of the buffer.
pub struct QueryingRequirements<T, M> {
    marker: PhantomData<T>,
    chunk: PhantomData<M>,
    usage: u32,
    size: usize,
    sharing: SharingMode,
    buffer: u64,
}

/// Third step: memory is to be allocated for the buffer.
pub struct AllocatingMemory<T, M> {
    marker: PhantomData<T>,
    chunk: PhantomData<M>,
    usage: u32,
    size: usize,
    sharing: SharingMode,
    buffer: u64,
    requirements: MemoryRequirements,
}

/// Last step: the allocated memory is to be bound to the buffer.
pub struct BindingMemory<T, M> {
    marker: PhantomData<T>,
    memory: M,
    usage: u32,
    size: usize,
    sharing: SharingMode,
    buffer: u64,
    requirements: MemoryRequirements,
    device_memory: u64,
    offset: usize,
}

impl<T, M> View for CreatingBuffer<T, M> {
    type V = CreationPlan;

    closed spec fn view(&self) -> CreationPlan {
        CreationPlan { usage: self.usage, size: self.size, sharing: self.sharing@ }
    }
}

impl<T, M> View for QueryingRequirements<T, M> {
    /// The plan and the handle of the created buffer.
    type V = (CreationPlan, u64);

    closed spec fn view(&self) -> (CreationPlan, u64) {
        (CreationPlan { usage: self.usage, size: self.size, sharing: self.sharing@ }, self.buffer)
    }
}

impl<T, M> View for AllocatingMemory<T, M> {
    /// The plan, the handle of the buffer and its memory requirements.
    type V = (CreationPlan, u64, MemoryRequirements);

    closed spec fn view(&self) -> (CreationPlan, u64, MemoryRequirements) {
        (CreationPlan { usage: self.usage, size: self.size, sharing: self.sharing@ }, self.buffer, self.requirements)
    }
}

impl<T, M> View for BindingMemory<T, M> {
    /// The plan, the handle of the buffer, its memory requirements, the handle of
    /// the device memory allocation and the offset into it.
    type V = (CreationPlan, u64, MemoryRequirements, u64, usize);

    closed spec fn view(&self) -> (CreationPlan, u64, MemoryRequirements, u64, usize) {
        (
            CreationPlan { usage: self.usage, size: self.size, sharing: self.sharing@ },
            self.buffer,
            self.requirements,
            self.device_memory,
            self.offset,
        )
    }
}

/// The buffer that a creation yields: the created handle, and the declared usage,
/// size and sharing. The memory that the device asks for may be larger than the
/// buffer; it does not change the buffer's size.
pub open spec fn created_buffer(plan: CreationPlan, buffer: u64) -> BufferModel {
    BufferModel {
        handle: buffer,
        size: plan.size,
        usage: plan.usage,
        sharing: plan.sharing,
    }
}

/// A buffer that a creation yields is what it was declared to be: each usage
/// getter answers exactly the usage that was declared, the size is the declared
/// one, the handle is the created one and the sharing is the declared one.
pub proof fn lemma_created_buffer_matches_declaration(
    usage: Usage,
    size: usize,
    sharing: SharingModel,
    buffer: u64,
)
    ensures
        ({
            let b = created_buffer(CreationPlan { usage: usage_bits(usage), size, sharing }, buffer);
            &&& has_flag(b.usage, BUFFER_USAGE_TRANSFER_SRC_BIT) == usage.transfer_source
            &&& has_flag(b.usage, BUFFER_USAGE_TRANSFER_DST_BIT) == usage.transfer_dest
            &&& has_flag(b.usage, BUFFER_USAGE_UNIFORM_TEXEL_BUFFER_BIT) == usage.uniform_texel_buffer
            &&& has_flag(b.usage, BUFFER_USAGE_STORAGE_TEXEL_BUFFER_BIT) == usage.storage_texel_buffer
            &&& has_flag(b.usage, BUFFER_USAGE_UNIFORM_BUFFER_BIT) == usage.uniform_buffer
            &&& has_flag(b.usage, BUFFER_USAGE_STORAGE_BUFFER_BIT) == usage.storage_buffer
            &&& has_flag(b.usage, BUFFER_USAGE_INDEX_BUFFER_BIT) == usage.index_buffer
            &&& has_flag(b.usage, BUFFER_USAGE_VERTEX_BUFFER_BIT) == usage.vertex_buffer
            &&& has_flag(b.usage, BUFFER_USAGE_INDIRECT_BUFFER_BIT) == usage.indirect_buffer
            &&& b.size == size
            &&& b.handle == buffer
            &&& b.sharing == sharing
        }),
{
    lemma_usage_bits_decode(usage);
}

impl<T, M> Buffer<T, M> {
    /// Starts the creation of a new buffer that holds one `T`, with the given usage
    /// and sharing.
    ///
    /// The creation then goes step by step: each step says what the device is to do
    /// next, and takes what the device answered.
    pub fn new(usage: &Usage, sharing: SharingMode) -> (r: CreatingBuffer<T, M>)
        ensures
            r@.usage == usage_bits(*usage),
            r@.size as nat == vstd::layout::size_of::<T>(),
            r@.sharing == sharing@,
    {
        CreatingBuffer {
            marker: PhantomData,
            chunk: PhantomData,
            usage: usage.to_usage_bits(),
            size: std::mem::size_of::<T>(),
            sharing,
        }
    }
}

impl<T, M> CreatingBuffer<T, M> {
    /// The parameters of the buffer object to create: the declared size (room for
    /// one `T`), usage and sharing, and no creation flags.
    pub fn create_info(&self) -> (r: BufferCreateInfo)
        ensures
            r.s_type == STRUCTURE_TYPE_BUFFER_CREATE_INFO,
            r.flags == 0,
            r.size == self@.size as u64,
            r.usage == self@.usage,
            r.sharing_mode == sharing_mode_code(self@.sharing),
            r.queue_family_index_count == (queue_family_indices(self@.sharing).len() as u32),
            r.queue_family_indices@ == queue_family_indices(self@.sharing),
            match self@.sharing {
                SharingModel::Exclusive(_) => {
                    &&& r.sharing_mode == SHARING_MODE_EXCLUSIVE
                    &&& r.queue_family_index_count == 0
                    &&& r.queue_family_indices@.len() == 0
                },
                SharingModel::Concurrent(ids) => {
                    &&& r.sharing_mode == SHARING_MODE_CONCURRENT
                    &&& r.queue_family_index_count == (ids.len() as u32)
                    &&& r.queue_family_indices@ == ids
                },
            },
    {
        let (sharing_mode, count, indices) = self.sharing.to_vulkan();
        BufferCreateInfo {
            s_type: STRUCTURE_TYPE_BUFFER_CREATE_INFO,
            flags: 0,
            size: self.size as u64,
            usage: self.usage,
            sharing_mode,
            queue_family_index_count: count,
            queue_family_indices: indices,
        }
    }

    /// Takes the result of the buffer object's creation: on success, the handle of
    /// the new buffer, whose memory requirements come next; otherwise the memory
    /// that ran out.
    pub fn buffer_created(self, result: u32, buffer: u64) -> (r: Result<QueryingRequirements<T, M>, OomError>)
        requires
            is_allocation_result(result),
        ensures
            match r {
                Ok(next) => allocation_outcome(result) is Ok && next@ == (self@, buffer),
                Err(e) => allocation_outcome(result) == Err::<(), OomError>(e),
            },
    {
        match check_errors(result) {
            Ok(()) => Ok(QueryingRequirements {
                marker: PhantomData,
                chunk: PhantomData,
                usage: self.usage,
                size: self.size,
                sharing: self.sharing,
                buffer,
            }),
            Err(e) => Err(e),
        }
    }
}

impl<T, M> QueryingRequirements<T, M> {
    /// The buffer whose memory requirements are to be queried.
    pub fn buffer(&self) -> (r: u64)
        ensures
            r == self@.1,
    {
        self.buffer
    }

    /// Takes the memory requirements of the buffer; memory is to be allocated next.
    pub fn requirements_known(self, requirements: MemoryRequirements) -> (r: AllocatingMemory<T, M>)
        ensures
            r@ == (self@.0, self@.1, requirements),
    {
        AllocatingMemory {
            marker: PhantomData,
            chunk: PhantomData,
            usage: self.usage,
            size: self.size,
            sharing: self.sharing,
            buffer: self.buffer,
            requirements,
        }
    }
}

impl<T, M> AllocatingMemory<T, M> {
    /// The allocation to make: the size, alignment and memory types that the device
    /// requires, the sizes taken as `usize`.
    pub fn allocation_request(&self) -> (r: AllocationRequest)
        ensures
            r.size == self@.2.size as usize,
            r.alignment == self@.2.alignment as usize,
            r.memory_type_bits == self@.2.memory_type_bits,
    {
        AllocationRequest {
            size: self.requirements.size as usize,
            alignment: self.requirements.alignment as usize,
            memory_type_bits: self.requirements.memory_type_bits,
        }
    }

    /// Takes the allocated memory chunk and where it lies; the chunk is to be bound
    /// to the buffer next. Only a chunk that is a range of one allocation can be
    /// bound.
    pub fn memory_allocated(self, memory: M, properties: ChunkProperties) -> (r: BindingMemory<T, M>)
        requires
            properties is Regular,
        ensures
            r@ == (self@.0, self@.1, self@.2, properties->memory, properties->offset),
            r.memory() == memory,
    {
        match properties {
            ChunkProperties::Regular { memory: device_memory, offset, .. } => BindingMemory {
                marker: PhantomData,
                memory,
                usage: self.usage,
                size: self.size,
                sharing: self.sharing,
                buffer: self.buffer,
                requirements: self.requirements,
                device_memory,
                offset,
            },
            ChunkProperties::Sparse => vstd::pervasive::unreached(),
        }
    }
}

impl<T, M> BindingMemory<T, M> {
    /// The memory chunk that is being bound.
    pub closed spec fn memory(&self) -> M {
        self.memory
    }

    /// The binding to make: the buffer, to the allocation that holds the chunk, at
    /// the chunk's offset.
    pub fn bind_request(&self) -> (r: BindRequest)
        ensures
            r == (BindRequest { buffer: self@.1, memory: self@.3, offset: self@.4 as u64 }),
    {
        BindRequest { buffer: self.buffer, memory: self.device_memory, offset: self.offset as u64 }
    }

    /// Takes the result of the binding: on success, the buffer, with its declared
    /// size, usage and sharing; otherwise the memory that ran out.
    pub fn memory_bound(self, result: u32) -> (r: Result<Buffer<T, M>, OomError>)
        requires
            is_allocation_result(result),
        ensures
            match r {
                Ok(b) => {
                    &&& allocation_outcome(result) is Ok
                    &&& b@ == created_buffer(self@.0, self@.1)
                    &&& b.memory() == self.memory()
                },
                Err(e) => allocation_outcome(result) == Err::<(), OomError>(e),
            },
    {
        match check_errors(result) {
            Ok(()) => Ok(Buffer {
                marker: PhantomData,
                inner: Inner {
                    memory: self.memory,
                    buffer: self.buffer,
                    size: self.size,
                    usage: self.usage,
                    sharing: self.sharing,
                },
            }),
            Err(e) => Err(e),
        }
    }
}

/// A subpart of a buffer.
///
/// This object doesn't correspond to any Vulkan object. It exists for the programmer's
/// convenience.
pub struct BufferSlice<'a, T: ?Sized + 'a, M: 'a> {
    marker: PhantomData<T>,
    inner: &'a Inner<M>,
    offset: usize,
    size: usize,
}

/// What a slice is, as plain values: the buffer's handle, the offset and size in
/// bytes of the slice within the buffer, and the buffer's usage flags and sharing.
pub struct SliceModel {
    pub handle: u64,
    pub offset: usize,
    pub size: usize,
    pub usage: u32,
    pub sharing: SharingModel,
}

impl<'a, T: ?Sized + 'a, M: 'a> View for BufferSlice<'a, T, M> {
    type V = SliceModel;

    closed spec fn view(&self) -> SliceModel {
        SliceModel {
            handle: self.inner.buffer,
            offset: self.offset,
            size: self.size,
            usage: self.inner.usage,
            sharing: self.inner.sharing@,
        }
    }
}

impl<'a, T: ?Sized + 'a, M: 'a> Clone for BufferSlice<'a, T, M> {
    fn clone(&self) -> (r: Self)
        ensures
            r@ == self@,
            r.memory() == self.memory(),
    {
        BufferSlice { marker: PhantomData, inner: self.inner, offset: self.offset, size: self.size }
    }
}

impl<'a, T: ?Sized + 'a, M: 'a> Copy for BufferSlice<'a, T, M> {}

impl<'a, T: ?Sized + 'a, M: 'a> BufferSlice<'a, T, M> {
    /// The memory chunk that backs the buffer that the slice is part of.
    pub closed spec fn memory(&self) -> M {
        self.inner.memory
    }

    /// Returns the offset of that slice within the buffer.
    pub fn offset(&self) -> (r: usize)
        ensures
            r == self@.offset,
    {
        self.offset
    }

    /// Returns the size of that slice in bytes.
    pub fn size(&self) -> (r: usize)
        ensures
            r == self@.size,
    {
        self.size
    }

    /// True if the buffer can be used as a source for buffer transfers.
    pub fn usage_transfer_src(&self) -> (r: bool)
        ensures
            r == has_flag(self@.usage, BUFFER_USAGE_TRANSFER_SRC_BIT),
    {
        (self.inner.usage & BUFFER_USAGE_TRANSFER_SRC_BIT) != 0
    }

    /// True if the buffer can be used as a destination for buffer transfers.
    pub fn usage_transfer_dest(&self) -> (r: bool)
        ensures
            r == has_flag(self@.usage, BUFFER_USAGE_TRANSFER_DST_BIT),
    {
        (self.inner.usage & BUFFER_USAGE_TRANSFER_DST_BIT) != 0
    }

    /// True if the buffer can be used as a uniform texel buffer.
    pub fn usage_uniform_texel_buffer(&self) -> (r: bool)
        ensures
            r == has_flag(self@.usage, BUFFER_USAGE_UNIFORM_TEXEL_BUFFER_BIT),
    {
        (self.inner.usage & BUFFER_USAGE_UNIFORM_TEXEL_BUFFER_BIT) != 0
    }

    /// True if the buffer can be used as a storage texel buffer.
    pub fn usage_storage_texel_buffer(&self) -> (r: bool)
        ensures
            r == has_flag(self@.usage, BUFFER_USAGE_STORAGE_TEXEL_BUFFER_BIT),
    {
        (self.inner.usage & BUFFER_USAGE_STORAGE_TEXEL_BUFFER_BIT) != 0
    }

    /// True if the buffer can be used as a uniform buffer.
    pub fn usage_uniform_buffer(&self) -> (r: bool)
        ensures
            r == has_flag(self@.usage, BUFFER_USAGE_UNIFORM_BUFFER_BIT),
    {
        (self.inner.usage & BUFFER_USAGE_UNIFORM_BUFFER_BIT) != 0
    }

    /// True if the buffer can be used as a storage buffer.
    pub fn usage_storage_buffer(&self) -> (r: bool)
        ensures
            r == has_flag(self@.usage, BUFFER_USAGE_STORAGE_BUFFER_BIT),
    {
        (self.inner.usage & BUFFER_USAGE_STORAGE_BUFFER_BIT) != 0
    }

    /// True if the buffer can be used as a source for index data.
    pub fn usage_index_buffer(&self) -> (r: bool)
        ensures
            r == has_flag(self@.usage, BUFFER_USAGE_INDEX_BUFFER_BIT),
    {
        (self.inner.usage & BUFFER_USAGE_INDEX_BUFFER_BIT) != 0
    }

    /// True if the buffer can be used as a source for vertex data.
    pub fn usage_vertex_buffer(&self) -> (r: bool)
        ensures
            r == has_flag(self@.usage, BUFFER_USAGE_VERTEX_BUFFER_BIT),
    {
        (self.inner.usage & BUFFER_USAGE_VERTEX_BUFFER_BIT) != 0
    }

    /// True if the buffer can be used as an indirect buffer.
    pub fn usage_indirect_buffer(&self) -> (r: bool)
        ensures
            r == has_flag(self@.usage, BUFFER_USAGE_INDIRECT_BUFFER_BIT),
    {
        (self.inner.usage & BUFFER_USAGE_INDIRECT_BUFFER_BIT) != 0
    }

    /// The Vulkan handle of the buffer that the slice is part of.
    pub fn internal_object(&self) -> (r: u64)
        ensures
            r == self@.handle,
    {
        self.inner.buffer
    }

    /// How the queues share the buffer that the slice is part of.
    pub fn sharing_mode(&self) -> (r: &SharingMode)
        ensures
            r@ == self@.sharing,
    {
        &self.inner.sharing
    }

    /// The part of the memory chunk that an access by the GPU to the slice
    /// concerns: the slice's offset and size.
    pub fn chunk_range(&self) -> (r: ChunkRange)
        ensures
            r == (ChunkRange::Range { offset: self@.offset, size: self@.size }),
    {
        ChunkRange::Range { offset: self.offset, size: self.size }
    }
}

impl<'a, T: ?Sized + 'a, M: MemorySourceChunk + 'a> BufferSlice<'a, T, M> {
    /// Declares an access by the GPU to the slice: the memory chunk is told of one
    /// access to the slice's offset and size, submitted to `queue`, with the given
    /// fence and semaphore, and what it hands back is returned.
    pub fn gpu_access(
        &self,
        write: bool,
        queue: &mut M::Queue,
        fence: Option<Arc<M::Fence>>,
        semaphore: Option<Arc<M::Semaphore>>,
    ) -> (r: Option<Arc<M::Semaphore>>)
        ensures
            self.memory().gpu_access_result(
                write,
                ChunkRange::Range { offset: self@.offset, size: self@.size },
                fence,
                semaphore,
                r,
            ),
            self.memory().gpu_access_queue(
                write,
                ChunkRange::Range { offset: self@.offset, size: self@.size },
                *old(queue),
                *final(queue),
            ),
    {
        self.inner.memory.gpu_access(
            write,
            ChunkRange::Range { offset: self.offset, size: self.size },
            queue,
            fence,
            semaphore,
        )
    }
}

impl<'a, T: 'a, M: 'a> BufferSlice<'a, [T], M> {
    /// Returns the number of elements in this slice.
    pub fn len(&self) -> (r: usize)
        requires
            vstd::layout::size_of::<T>() > 0,
        ensures
            r == self@.size as nat / vstd::layout::size_of::<T>(),
    {
        self.size / std::mem::size_of::<T>()
    }
}

/// The slice that covers a whole buffer.
pub open spec fn whole_buffer(b: BufferModel) -> SliceModel {
    SliceModel { handle: b.handle, offset: 0, size: b.size, usage: b.usage, sharing: b.sharing }
}

impl<'a, T: ?Sized + 'a, M: 'a> BufferSlice<'a, T, M> {
    /// The slice that covers all of `r`.
    pub closed spec fn whole(r: &'a Arc<Buffer<T, M>>) -> BufferSlice<'a, T, M> {
        BufferSlice { marker: PhantomData, inner: &r.inner, offset: 0, size: r.inner.size }
    }
}

impl<'a, T: 'a, M: 'a> BufferSlice<'a, T, M> {
    /// The same slice, seen as a slice of elements of type `T`.
    pub closed spec fn elements(self) -> BufferSlice<'a, [T], M> {
        BufferSlice { marker: PhantomData, inner: self.inner, offset: self.offset, size: self.size }
    }
}

/// Represents a way for the GPU to interpret buffer data.
///
/// Note that a buffer view is only required for some operations. For example using a buffer as a
/// uniform buffer doesn't require creating a `BufferView`.
pub struct BufferView<T: ?Sized, M> {
    buffer: Arc<Buffer<T, M>>,
}

/// A slice taken from a whole buffer starts at its beginning and covers all of it:
/// its offset is 0 and its size is the buffer's. It belongs to the same buffer
/// object, so it has the buffer's handle and sharing, and each usage getter of the
/// slice answers what the same getter answers on the buffer.
pub proof fn lemma_whole_slice_covers_buffer(b: BufferModel)
    ensures
        whole_buffer(b).offset == 0,
        whole_buffer(b).size == b.size,
        whole_buffer(b).handle == b.handle,
        whole_buffer(b).sharing == b.sharing,
        whole_buffer(b).usage == b.usage,
        forall|flag: u32| has_flag(#[trigger] whole_buffer(b).usage, flag) == has_flag(b.usage, flag),
{
}

/// A slice of a created buffer answers, through its usage getters, exactly the
/// usage that the buffer was declared with, and covers the declared size.
pub proof fn lemma_whole_slice_of_created_buffer(
    usage: Usage,
    size: usize,
    sharing: SharingModel,
    buffer: u64,
)
    ensures
        ({
            let s = whole_buffer(created_buffer(CreationPlan { usage: usage_bits(usage), size, sharing }, buffer));
            &&& has_flag(s.usage, BUFFER_USAGE_TRANSFER_SRC_BIT) == usage.transfer_source
            &&& has_flag(s.usage, BUFFER_USAGE_TRANSFER_DST_BIT) == usage.transfer_dest
            &&& has_flag(s.usage, BUFFER_USAGE_UNIFORM_TEXEL_BUFFER_BIT) == usage.uniform_texel_buffer
            &&& has_flag(s.usage, BUFFER_USAGE_STORAGE_TEXEL_BUFFER_BIT) == usage.storage_texel_buffer
            &&& has_flag(s.usage, BUFFER_USAGE_UNIFORM_BUFFER_BIT) == usage.uniform_buffer
            &&& has_flag(s.usage, BUFFER_USAGE_STORAGE_BUFFER_BIT) == usage.storage_buffer
            &&& has_flag(s.usage, BUFFER_USAGE_INDEX_BUFFER_BIT) == usage.index_buffer
            &&& has_flag(s.usage, BUFFER_USAGE_VERTEX_BUFFER_BIT) == usage.vertex_buffer
            &&& has_flag(s.usage, BUFFER_USAGE_INDIRECT_BUFFER_BIT) == usage.indirect_buffer
            &&& s.offset == 0
            &&& s.size == size
            &&& s.handle == buffer
            &&& s.sharing == sharing
        }),
{
    lemma_usage_bits_decode(usage);
}

impl<'a, T: ?Sized + 'a, M: 'a> From<&'a Arc<Buffer<T, M>>> for BufferSlice<'a, T, M> {
    fn from(r: &'a Arc<Buffer<T, M>>) -> (s: BufferSlice<'a, T, M>)
        ensures
            s@ == whole_buffer(r@),
            s@.offset == 0,
            s@.size == r@.size,
            s@.handle == r@.handle,
            s@.usage == r@.usage,
            s@.sharing == r@.sharing,
            s.memory() == r.memory(),
    {
        BufferSlice { marker: PhantomData, inner: &r.inner, offset: 0, size: r.inner.size }
    }
}

impl<'a, T: ?Sized + 'a, M: 'a> vstd::std_specs::convert::FromSpecImpl<&'a Arc<Buffer<T, M>>> for BufferSlice<'a, T, M> {
    open spec fn obeys_from_spec() -> bool {
        true
    }

    open spec fn from_spec(r: &'a Arc<Buffer<T, M>>) -> BufferSlice<'a, T, M> {
        BufferSlice::whole(r)
    }
}

impl<'a, T: 'a, M: 'a> From<BufferSlice<'a, T, M>> for BufferSlice<'a, [T], M> {
    fn from(r: BufferSlice<'a, T, M>) -> (s: BufferSlice<'a, [T], M>)
        ensures
            s@ == r@,
            s.memory() == r.memory(),
    {
        BufferSlice { marker: PhantomData, inner: r.inner, offset: r.offset, size: r.size }
    }
}

impl<'a, T: 'a, M: 'a> vstd::std_specs::convert::FromSpecImpl<BufferSlice<'a, T, M>> for BufferSlice<'a, [T], M> {
    open spec fn obeys_from_spec() -> bool {
        true
    }

    open spec fn from_spec(r: BufferSlice<'a, T, M>) -> BufferSlice<'a, [T], M> {
        r.elements()
    }
}

} // verus!
