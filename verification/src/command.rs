//! Device calls, written down as data.
//!
//! The crate never calls the device. Whoever drives it performs each
//! [`Command`] and reports the status that the device answered with, together
//! with the handle, size or text that the call produced.
use vstd::prelude::*;
use crate::buffer::BufferId;

verus! {

/// Memory flag: the device may read and write the buffer.
pub const CL_MEM_READ_WRITE: u64 = 1;

/// Memory flag: the buffer lives in the host block it was created over.
pub const CL_MEM_USE_HOST_PTR: u64 = 8;

/// Map flag: the host will read the mapped region.
pub const CL_MAP_READ: u64 = 1;

/// Map flag: the host will write the mapped region.
pub const CL_MAP_WRITE: u64 = 2;

/// Device type: a CPU.
pub const CL_DEVICE_TYPE_CPU: u64 = 2;

/// Device type: a GPU.
pub const CL_DEVICE_TYPE_GPU: u64 = 4;

/// Queue property: commands are timed.
pub const CL_QUEUE_PROFILING_ENABLE: u64 = 2;

/// Flags of every buffer: read-write, in place over the host block.
pub const BUFFER_FLAGS: u64 = 9;

/// Flags of every mapping: read and write.
pub const MAP_FLAGS: u64 = 3;

/// Device types that a context is made for: GPU or CPU.
pub const DEVICE_TYPES: u64 = 6;

/// A value that a caller wants bound to an argument slot of a kernel.
#[derive(Clone, Copy, Debug, PartialEq, Eq, Structural)]
pub enum KernelArg {
    /// A signed 32-bit integer.
    I32(i32),
    /// An unsigned 32-bit integer.
    U32(u32),
    /// A 32-bit float, given by its bits.
    F32(u32),
    /// A 64-bit float, given by its bits.
    F64(u64),
    /// A registered buffer.
    Buffer(BufferId),
}

/// A value as it is laid into an argument slot of a kernel.
#[derive(Clone, Copy, Debug, PartialEq, Eq, Structural)]
pub enum ArgValue {
    /// A signed 32-bit integer.
    I32(i32),
    /// An unsigned 32-bit integer.
    U32(u32),
    /// The bits of a 32-bit float.
    F32(u32),
    /// The bits of a 64-bit float.
    F64(u64),
    /// The device allocation `handle` of the buffer registered as `id`.
    Mem { id: usize, handle: usize },
}

impl ArgValue {
    /// The number of bytes of a scalar, and `None` for a device allocation,
    /// whose handle has the size of a pointer.
    pub open spec fn scalar_size(self) -> Option<usize> {
        match self {
            ArgValue::I32(_) => Some(4usize),
            ArgValue::U32(_) => Some(4usize),
            ArgValue::F32(_) => Some(4usize),
            ArgValue::F64(_) => Some(8usize),
            ArgValue::Mem { .. } => None,
        }
    }

    /// The size in bytes of a scalar value.
    pub fn size(&self) -> (n: Option<usize>)
        ensures
            n == self.scalar_size(),
    {
        match self {
            ArgValue::I32(_) => Some(4),
            ArgValue::U32(_) => Some(4),
            ArgValue::F32(_) => Some(4),
            ArgValue::F64(_) => Some(8),
            ArgValue::Mem { .. } => None,
        }
    }
}

/// One call to the device, or one step on host memory that belongs to the
/// same protocol.
#[derive(Clone, Copy, Debug, PartialEq, Eq, Structural)]
pub enum Command {
    /// Ask how many platforms there are.
    CountPlatforms,
    /// Fetch the identities of the first `count` platforms.
    ListPlatforms { count: u32 },
    /// Ask for the length of the vendor name of `platform`.
    VendorSize { platform: usize },
    /// Fetch the vendor name of `platform`, `size` bytes long.
    VendorName { platform: usize, size: usize },
    /// Find one device of the given types on `platform`.
    FindDevice { platform: usize, device_types: u64 },
    /// Create a context for `device`.
    CreateContext { device: usize },
    /// Create the command queue of `device` in `context`.
    CreateQueue { context: usize, device: usize, properties: u64 },
    /// Create a program in `context` from the kernel source.
    CreateProgram { context: usize },
    /// Compile `program` for `device`, with the options of
    /// [`build_options`](crate::startup::build_options).
    BuildProgram { program: usize, device: usize },
    /// Ask for the length of the build log.
    BuildLogSize { program: usize, device: usize },
    /// Fetch the build log, `size` bytes long.
    BuildLog { program: usize, device: usize, size: usize },
    /// Create the kernel of the name at hand from `program`.
    CreateKernel { program: usize },
    /// Create a buffer of `size` bytes over the host block at `host_ptr`.
    CreateBuffer { context: usize, flags: u64, size: usize, host_ptr: usize },
    /// Map `size` bytes of `mem` for the host, from `offset`, and wait for it
    /// if `blocking`.
    MapBuffer { queue: usize, mem: usize, blocking: bool, flags: u64, offset: usize, size: usize },
    /// Give the region mapped at `ptr` back to the device.
    UnmapBuffer { queue: usize, mem: usize, ptr: usize },
    /// Lay `value` into slot `index` of `kernel`.
    SetKernelArg { kernel: usize, index: u32, value: ArgValue },
    /// Submit `kernel` over `global` work items in groups of `local`, in one
    /// dimension and from offset zero.
    EnqueueKernel { queue: usize, kernel: usize, global: usize, local: usize },
    /// Wait until `queue` has run dry.
    Finish { queue: usize },
    /// Take the `len` bytes at `addr` back as an ordinary host allocation.
    ReclaimHost { addr: usize, len: usize },
    /// Release the device allocation `mem`.
    ReleaseMem { mem: usize },
    /// Release `kernel`.
    ReleaseKernel { kernel: usize },
    /// Release the command queue.
    ReleaseQueue { queue: usize },
    /// Release the compiled program.
    ReleaseProgram { program: usize },
    /// Release the device reference.
    ReleaseDevice { device: usize },
    /// Release the context.
    ReleaseContext { context: usize },
}

/// The flags that every buffer, every mapping and every search for a device
/// is given are made of the single flags above.
pub proof fn lemma_flags_are_composed()
    ensures
        BUFFER_FLAGS == CL_MEM_READ_WRITE | CL_MEM_USE_HOST_PTR,
        MAP_FLAGS == CL_MAP_READ | CL_MAP_WRITE,
        DEVICE_TYPES == CL_DEVICE_TYPE_GPU | CL_DEVICE_TYPE_CPU,
{
    assert(9u64 == 1u64 | 8u64) by (bit_vector);
    assert(3u64 == 1u64 | 2u64) by (bit_vector);
    assert(6u64 == 4u64 | 2u64) by (bit_vector);
}

} // verus!
