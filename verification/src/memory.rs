//! What buffers ask of the memory that backs them.

use std::sync::Arc;
use vstd::prelude::*;

verus! {

/// The part of a memory chunk that an access concerns.
#[derive(Debug, Copy, Clone, PartialEq, Eq, Structural)]
pub enum ChunkRange {
    /// The whole chunk.
    All,
    /// `size` bytes starting `offset` bytes into the chunk.
    Range { offset: usize, size: usize },
}

/// Where the memory of a chunk lies.
#[derive(Debug, Copy, Clone, PartialEq, Eq, Structural)]
pub enum ChunkProperties {
    /// A range of one device memory allocation: the allocation's handle, and the
    /// offset and size of the range within it.
    Regular { memory: u64, offset: usize, size: usize },
    /// Memory bound page by page.
    Sparse,
}

/// Memory requirements of a resource, as the device reports them.
#[derive(Debug, Copy, Clone, PartialEq, Eq, Structural)]
pub struct MemoryRequirements {
    /// Size in bytes of the memory that the resource needs.
    pub size: u64,
    /// Alignment in bytes that the memory must have.
    pub alignment: u64,
    /// Bit `i` is set when memory type `i` may back the resource.
    pub memory_type_bits: u32,
}

/// A chunk of memory that a resource is bound to.
///
/// Implementors state, through the spec functions, what their methods answer. How
/// an access by the GPU is ordered depends on what the GPU is doing, so for
/// `gpu_access` they state which results it may hand out rather than which one it
/// will.
pub trait MemorySourceChunk {
    /// The queues that GPU accesses are submitted to.
    type Queue;

    /// The fences that signal the end of a GPU access.
    type Fence;

    /// The semaphores that order GPU accesses.
    type Semaphore;

    /// Whether the GPU's accesses to this chunk must be waited for with a fence.
    spec fn fence_required(&self) -> bool;

    /// Whether the GPU's accesses to this chunk must be ordered with semaphores.
    spec fn semaphore_required(&self) -> bool;

    /// Returns true if the chunk needs a fence to be synchronized.
    fn requires_fence(&self) -> (r: bool)
        ensures
            r == self.fence_required(),
    ;

    /// Returns true if the chunk needs semaphores to be synchronized.
    fn requires_semaphore(&self) -> (r: bool)
        ensures
            r == self.semaphore_required(),
    ;

    /// Whether `r` is a semaphore that `gpu_access` may hand out for an access to
    /// `range`, for writing when `write` holds, with the given fence and semaphore.
    spec fn gpu_access_result(
        &self,
        write: bool,
        range: ChunkRange,
        fence: Option<Arc<Self::Fence>>,
        semaphore: Option<Arc<Self::Semaphore>>,
        r: Option<Arc<Self::Semaphore>>,
    ) -> bool;

    /// Whether `after` is what `queue` may become when `gpu_access` declares one
    /// access to `range`, for writing when `write` holds, to the queue `before`.
    spec fn gpu_access_queue(
        &self,
        write: bool,
        range: ChunkRange,
        before: Self::Queue,
        after: Self::Queue,
    ) -> bool;

    /// Declares an access by the GPU to `range` of the chunk, submitted to `queue`:
    /// `fence` is signalled when it ends, and it waits for `semaphore`. Returns the
    /// semaphore that later accesses must wait for, if any.
    fn gpu_access(
        &self,
        write: bool,
        range: ChunkRange,
        queue: &mut Self::Queue,
        fence: Option<Arc<Self::Fence>>,
        semaphore: Option<Arc<Self::Semaphore>>,
    ) -> (r: Option<Arc<Self::Semaphore>>)
        ensures
            self.gpu_access_result(write, range, fence, semaphore, r),
            self.gpu_access_queue(write, range, *old(queue), *final(queue)),
    ;
}

/// A resource whose content the CPU can read.
///
/// Whether the GPU still uses the content when the CPU asks for it depends on
/// timing, so an implementor states, through the two spec functions, which results
/// its methods may hand out rather than which one they will.
pub trait CpuAccessible<'a, T: ?Sized> {
    /// What gives access to the content while it is read.
    type Read;

    /// Whether `r` is a read access that `read` with this timeout may hand out.
    spec fn read_result(&self, timeout_ns: u64, r: Self::Read) -> bool;

    /// Whether `r` is a result that `try_read` may hand out.
    spec fn try_read_result(&self, r: Option<Self::Read>) -> bool;

    /// Gives a read access to the content. Blocks while the GPU uses it.
    fn read(&'a self, timeout_ns: u64) -> (r: Self::Read)
        ensures
            self.read_result(timeout_ns, r),
    ;

    /// Gives a read access to the content, or `None` while the GPU uses it.
    fn try_read(&'a self) -> (r: Option<Self::Read>)
        ensures
            self.try_read_result(r),
    ;
}

/// A resource whose content the CPU can write.
///
/// As for reading, an implementor states through the two spec functions which
/// results its methods may hand out.
pub trait CpuWriteAccessible<'a, T: ?Sized> {
    /// What gives access to the content while it is written.
    type Write;

    /// Whether `w` is a write access that `write` with this timeout may hand out.
    spec fn write_result(&self, timeout_ns: u64, w: Self::Write) -> bool;

    /// Whether `w` is a result that `try_write` may hand out.
    spec fn try_write_result(&self, w: Option<Self::Write>) -> bool;

    /// Gives a write access to the content. Blocks while the GPU uses it.
    fn write(&'a self, timeout_ns: u64) -> (w: Self::Write)
        ensures
            self.write_result(timeout_ns, w),
    ;

    /// Gives a write access to the content, or `None` while the GPU uses it.
    fn try_write(&'a self) -> (w: Option<Self::Write>)
        ensures
            self.try_write_result(w),
    ;
}

} // verus!
