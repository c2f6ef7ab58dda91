use std::sync::Arc;

use vulkano::buffer::{AllocationRequest, BindRequest, Buffer, BufferSlice, CreatingBuffer};
use vulkano::error::{check_errors, OomError};
use vulkano::flags::{
    BUFFER_USAGE_INDEX_BUFFER_BIT, BUFFER_USAGE_VERTEX_BUFFER_BIT, ERROR_OUT_OF_DEVICE_MEMORY,
    ERROR_OUT_OF_HOST_MEMORY, SHARING_MODE_CONCURRENT, SHARING_MODE_EXCLUSIVE,
    STRUCTURE_TYPE_BUFFER_CREATE_INFO, SUCCESS,
};
use vulkano::memory::{
    ChunkProperties, ChunkRange, CpuAccessible, CpuWriteAccessible, MemoryRequirements,
    MemorySourceChunk,
};
use vulkano::sync::SharingMode;
use vulkano::usage::Usage;

/// A memory chunk for tests: it answers the synchronization questions with its
/// fields, and hands out its content unless the GPU is said to use it.
struct TestChunk {
    fence: bool,
    semaphore: bool,
    busy: bool,
    content: u32,
}

impl MemorySourceChunk for TestChunk {
    type Queue = Vec<(bool, ChunkRange)>;
    type Fence = u32;
    type Semaphore = u32;

    fn gpu_access_result(
        &self,
        _write: bool,
        _range: ChunkRange,
        _fence: Option<Arc<u32>>,
        semaphore: Option<Arc<u32>>,
        r: Option<Arc<u32>>,
    ) -> bool {
        r == semaphore
    }

    fn gpu_access_queue(
        &self,
        write: bool,
        range: ChunkRange,
        before: Vec<(bool, ChunkRange)>,
        after: Vec<(bool, ChunkRange)>,
    ) -> bool {
        let mut expected = before;
        expected.push((write, range));
        after == expected
    }

    fn gpu_access(
        &self,
        write: bool,
        range: ChunkRange,
        queue: &mut Vec<(bool, ChunkRange)>,
        _fence: Option<Arc<u32>>,
        semaphore: Option<Arc<u32>>,
    ) -> Option<Arc<u32>> {
        queue.push((write, range));
        semaphore
    }

    fn fence_required(&self) -> bool {
        self.fence
    }

    fn semaphore_required(&self) -> bool {
        self.semaphore
    }

    fn requires_fence(&self) -> bool {
        self.fence
    }

    fn requires_semaphore(&self) -> bool {
        self.semaphore
    }
}

impl<'a> CpuAccessible<'a, u32> for TestChunk {
    type Read = &'a u32;

    fn read_result(&self, _timeout_ns: u64, r: &'a u32) -> bool {
        *r == self.content
    }

    fn try_read_result(&self, r: Option<&'a u32>) -> bool {
        if self.busy { r.is_none() } else { r == Some(&self.content) }
    }

    fn read(&'a self, _timeout_ns: u64) -> &'a u32 {
        &self.content
    }

    fn try_read(&'a self) -> Option<&'a u32> {
        if self.busy { None } else { Some(&self.content) }
    }
}

impl<'a> CpuWriteAccessible<'a, u32> for TestChunk {
    type Write = u32;

    fn write_result(&self, _timeout_ns: u64, w: u32) -> bool {
        w == self.content
    }

    fn try_write_result(&self, w: Option<u32>) -> bool {
        if self.busy { w.is_none() } else { w == Some(self.content) }
    }

    fn write(&'a self, _timeout_ns: u64) -> u32 {
        self.content
    }

    fn try_write(&'a self) -> Option<u32> {
        if self.busy { None } else { Some(self.content) }
    }
}

fn no_usage() -> Usage {
    Usage {
        transfer_source: false,
        transfer_dest: false,
        uniform_texel_buffer: false,
        storage_texel_buffer: false,
        uniform_buffer: false,
        storage_buffer: false,
        index_buffer: false,
        vertex_buffer: false,
        indirect_buffer: false,
    }
}

fn chunk() -> TestChunk {
    TestChunk { fence: true, semaphore: false, busy: false, content: 42 }
}

/// Runs a whole successful creation of a buffer of `T` with the given usage.
fn create<T>(usage: &Usage, sharing: SharingMode, size: u64) -> Buffer<T, TestChunk> {
    let creating: CreatingBuffer<T, TestChunk> = Buffer::new(usage, sharing);
    let querying = creating.buffer_created(SUCCESS, 0xABCD).unwrap();
    assert_eq!(querying.buffer(), 0xABCD);
    let allocating = querying.requirements_known(MemoryRequirements {
        size,
        alignment: 256,
        memory_type_bits: 0b101,
    });
    let binding = allocating
        .memory_allocated(chunk(), ChunkProperties::Regular { memory: 7, offset: 512, size: size as usize });
    binding.memory_bound(SUCCESS).unwrap()
}

#[test]
fn usage_all_sets_every_flag() {
    let u = Usage::all();
    assert!(u.transfer_source && u.transfer_dest && u.uniform_texel_buffer);
    assert!(u.storage_texel_buffer && u.uniform_buffer && u.storage_buffer);
    assert!(u.index_buffer && u.vertex_buffer && u.indirect_buffer);
    assert_eq!(u.to_usage_bits(), 0x1FF);
}

#[test]
fn usage_bits_of_each_flag() {
    assert_eq!(no_usage().to_usage_bits(), 0);
    let mut u = no_usage();
    u.transfer_source = true;
    assert_eq!(u.to_usage_bits(), 0x1);
    let mut u = no_usage();
    u.transfer_dest = true;
    assert_eq!(u.to_usage_bits(), 0x2);
    let mut u = no_usage();
    u.uniform_texel_buffer = true;
    assert_eq!(u.to_usage_bits(), 0x4);
    let mut u = no_usage();
    u.storage_texel_buffer = true;
    assert_eq!(u.to_usage_bits(), 0x8);
    let mut u = no_usage();
    u.uniform_buffer = true;
    assert_eq!(u.to_usage_bits(), 0x10);
    let mut u = no_usage();
    u.storage_buffer = true;
    assert_eq!(u.to_usage_bits(), 0x20);
    let mut u = no_usage();
    u.index_buffer = true;
    assert_eq!(u.to_usage_bits(), 0x40);
    let mut u = no_usage();
    u.vertex_buffer = true;
    assert_eq!(u.to_usage_bits(), 0x80);
    let mut u = no_usage();
    u.indirect_buffer = true;
    assert_eq!(u.to_usage_bits(), 0x100);
}

#[test]
fn usage_bits_of_several_flags() {
    let mut u = no_usage();
    u.index_buffer = true;
    u.vertex_buffer = true;
    assert_eq!(u.to_usage_bits(), BUFFER_USAGE_INDEX_BUFFER_BIT | BUFFER_USAGE_VERTEX_BUFFER_BIT);
    assert_eq!(u.to_usage_bits(), 0xC0);
}

#[test]
fn created_buffer_reports_declared_usage() {
    let mut u = no_usage();
    u.transfer_dest = true;
    u.storage_buffer = true;
    u.indirect_buffer = true;
    let b = create::<u32>(&u, SharingMode::Exclusive(0), 1024);
    assert!(!b.usage_transfer_src());
    assert!(b.usage_transfer_dest());
    assert!(!b.usage_uniform_texel_buffer());
    assert!(!b.usage_storage_texel_buffer());
    assert!(!b.usage_uniform_buffer());
    assert!(b.usage_storage_buffer());
    assert!(!b.usage_index_buffer());
    assert!(!b.usage_vertex_buffer());
    assert!(b.usage_indirect_buffer());
}

#[test]
fn created_buffer_with_all_usages() {
    let b = create::<u64>(&Usage::all(), SharingMode::Exclusive(0), 64);
    assert!(b.usage_transfer_src() && b.usage_transfer_dest());
    assert!(b.usage_uniform_texel_buffer() && b.usage_storage_texel_buffer());
    assert!(b.usage_uniform_buffer() && b.usage_storage_buffer());
    assert!(b.usage_index_buffer() && b.usage_vertex_buffer() && b.usage_indirect_buffer());
}

#[test]
fn created_buffer_size_handle_and_sharing() {
    // The device may ask for more memory than the buffer holds: the buffer's size
    // stays that of its content.
    let b = create::<[u8; 100]>(&Usage::all(), SharingMode::Concurrent(vec![1, 3]), 4096);
    assert_eq!(b.size(), 100);
    assert_eq!(b.internal_object(), 0xABCD);
    match b.sharing_mode() {
        SharingMode::Concurrent(ids) => assert_eq!(ids, &vec![1, 3]),
        SharingMode::Exclusive(_) => panic!("wrong sharing mode"),
    }
    assert_eq!(b.chunk_range(), ChunkRange::All);
}

#[test]
fn create_info_for_exclusive_sharing() {
    let creating: CreatingBuffer<[u8; 12], TestChunk> =
        Buffer::new(&no_usage(), SharingMode::Exclusive(2));
    let info = creating.create_info();
    assert_eq!(info.s_type, STRUCTURE_TYPE_BUFFER_CREATE_INFO);
    assert_eq!(info.s_type, 12);
    assert_eq!(info.flags, 0);
    assert_eq!(info.size, 12);
    assert_eq!(info.usage, 0);
    assert_eq!(info.sharing_mode, SHARING_MODE_EXCLUSIVE);
    assert_eq!(info.queue_family_index_count, 0);
    assert!(info.queue_family_indices.is_empty());
}

#[test]
fn create_info_for_concurrent_sharing() {
    let mut u = no_usage();
    u.uniform_buffer = true;
    let creating: CreatingBuffer<u64, TestChunk> =
        Buffer::new(&u, SharingMode::Concurrent(vec![0, 2, 5]));
    let info = creating.create_info();
    assert_eq!(info.size, 8);
    assert_eq!(info.usage, 0x10);
    assert_eq!(info.sharing_mode, SHARING_MODE_CONCURRENT);
    assert_eq!(info.queue_family_index_count, 3);
    assert_eq!(info.queue_family_indices, vec![0, 2, 5]);
}

#[test]
fn allocation_and_bind_requests() {
    let creating: CreatingBuffer<u32, TestChunk> = Buffer::new(&Usage::all(), SharingMode::Exclusive(0));
    let allocating = creating
        .buffer_created(SUCCESS, 11)
        .unwrap()
        .requirements_known(MemoryRequirements { size: 300, alignment: 64, memory_type_bits: 0b110 });
    assert_eq!(
        allocating.allocation_request(),
        AllocationRequest { size: 300, alignment: 64, memory_type_bits: 0b110 }
    );
    let binding = allocating.memory_allocated(chunk(), ChunkProperties::Regular { memory: 99, offset: 4096, size: 300 });
    assert_eq!(binding.bind_request(), BindRequest { buffer: 11, memory: 99, offset: 4096 });
    let b = binding.memory_bound(SUCCESS).unwrap();
    assert_eq!(b.size(), 4);
}

#[test]
fn creation_fails_when_host_memory_runs_out() {
    let creating: CreatingBuffer<u32, TestChunk> = Buffer::new(&Usage::all(), SharingMode::Exclusive(0));
    match creating.buffer_created(ERROR_OUT_OF_HOST_MEMORY, 1) {
        Err(e) => assert_eq!(e, OomError::OutOfHostMemory),
        Ok(_) => panic!("creation succeeded"),
    }
}

#[test]
fn creation_fails_when_device_memory_runs_out() {
    let creating: CreatingBuffer<u32, TestChunk> = Buffer::new(&Usage::all(), SharingMode::Exclusive(0));
    match creating.buffer_created(ERROR_OUT_OF_DEVICE_MEMORY, 1) {
        Err(e) => assert_eq!(e, OomError::OutOfDeviceMemory),
        Ok(_) => panic!("creation succeeded"),
    }
}

#[test]
fn binding_fails_when_device_memory_runs_out() {
    let creating: CreatingBuffer<u32, TestChunk> = Buffer::new(&Usage::all(), SharingMode::Exclusive(0));
    let binding = creating
        .buffer_created(SUCCESS, 5)
        .unwrap()
        .requirements_known(MemoryRequirements { size: 16, alignment: 4, memory_type_bits: 1 })
        .memory_allocated(chunk(), ChunkProperties::Regular { memory: 1, offset: 0, size: 16 });
    match binding.memory_bound(ERROR_OUT_OF_DEVICE_MEMORY) {
        Err(e) => assert_eq!(e, OomError::OutOfDeviceMemory),
        Ok(_) => panic!("binding succeeded"),
    }
}

#[test]
fn check_errors_reads_result_codes() {
    assert_eq!(check_errors(SUCCESS), Ok(()));
    assert_eq!(check_errors(0xFFFF_FFFF), Err(OomError::OutOfHostMemory));
    assert_eq!(check_errors(0xFFFF_FFFE), Err(OomError::OutOfDeviceMemory));
}

#[test]
fn synchronization_comes_from_the_chunk() {
    let b = create::<u32>(&Usage::all(), SharingMode::Exclusive(0), 16);
    assert!(b.requires_fence());
    assert!(!b.requires_semaphore());
}

#[test]
fn cpu_access_goes_through_the_chunk() {
    let b = create::<u32>(&Usage::all(), SharingMode::Exclusive(0), 16);
    assert_eq!(*b.read(0), 42);
    assert_eq!(b.try_read().copied(), Some(42));
    assert_eq!(b.write(0), 42);
    assert_eq!(b.try_write(), Some(42));
    assert_eq!(*CpuAccessible::read(&b, 0), 42);
    assert_eq!(CpuWriteAccessible::try_write(&b), Some(42));
}

#[test]
fn slice_of_whole_buffer() {
    let mut u = no_usage();
    u.vertex_buffer = true;
    let b = Arc::new(create::<[u32; 64]>(&u, SharingMode::Exclusive(4), 512));
    let s = BufferSlice::from(&b);
    assert_eq!(s.offset(), 0);
    assert_eq!(s.size(), 256);
    assert_eq!(s.size(), b.size());
    assert_eq!(s.internal_object(), 0xABCD);
    assert!(s.usage_vertex_buffer());
    assert!(!s.usage_transfer_src() && !s.usage_transfer_dest());
    assert!(!s.usage_uniform_texel_buffer() && !s.usage_storage_texel_buffer());
    assert!(!s.usage_uniform_buffer() && !s.usage_storage_buffer());
    assert!(!s.usage_index_buffer() && !s.usage_indirect_buffer());
    assert_eq!(s.chunk_range(), ChunkRange::Range { offset: 0, size: 256 });
    match s.sharing_mode() {
        SharingMode::Exclusive(id) => assert_eq!(*id, 4),
        SharingMode::Concurrent(_) => panic!("wrong sharing mode"),
    }
}

#[test]
fn slice_seen_as_elements() {
    let b = Arc::new(create::<u32>(&Usage::all(), SharingMode::Exclusive(0), 64));
    let s: BufferSlice<u32, TestChunk> = BufferSlice::from(&b);
    let elements: BufferSlice<[u32], TestChunk> = s.into();
    assert_eq!(elements.offset(), 0);
    assert_eq!(elements.size(), 4);
    assert_eq!(elements.len(), 1);
    let b = Arc::new(create::<[u8; 60]>(&Usage::all(), SharingMode::Exclusive(0), 64));
    let s: BufferSlice<[u8; 60], TestChunk> = BufferSlice::from(&b);
    let elements: BufferSlice<[[u8; 60]], TestChunk> = BufferSlice::from(s);
    assert_eq!(elements.size(), 60);
    assert_eq!(elements.len(), 1);
    assert!(elements.usage_indirect_buffer());
}

#[test]
fn slice_copies_are_the_same_slice() {
    let b = Arc::new(create::<[u8; 24]>(&Usage::all(), SharingMode::Exclusive(0), 32));
    let s: BufferSlice<[u8; 24], TestChunk> = BufferSlice::from(&b);
    let copy = s;
    let cloned = s.clone();
    assert_eq!(copy.offset(), s.offset());
    assert_eq!(cloned.size(), 24);
    assert_eq!(cloned.internal_object(), b.internal_object());
}

#[test]
fn gpu_access_to_a_buffer_concerns_all_of_its_chunk() {
    let b = create::<u32>(&Usage::all(), SharingMode::Exclusive(0), 16);
    let mut queue = Vec::new();
    let r = b.gpu_access(true, &mut queue, None, Some(Arc::new(3)));
    assert_eq!(r, Some(Arc::new(3)));
    assert_eq!(queue, vec![(true, ChunkRange::All)]);
}

#[test]
fn gpu_access_to_a_slice_concerns_its_range() {
    let b = Arc::new(create::<[u32; 8]>(&Usage::all(), SharingMode::Exclusive(0), 64));
    let s = BufferSlice::from(&b);
    let mut queue = Vec::new();
    let r = s.gpu_access(false, &mut queue, Some(Arc::new(1)), None);
    assert_eq!(r, None);
    assert_eq!(queue, vec![(false, ChunkRange::Range { offset: 0, size: 32 })]);
}
