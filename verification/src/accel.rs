//! The device context: its resources, both registries, and the operations on
//! them.
//!
//! Each operation comes in two parts. The first part, named `.._command` or
//! `.._commands`, looks at the context, refuses what cannot be done, and
//! otherwise says which device call is due. The second part takes what the
//! device answered and brings the books up to date. The second part makes
//! the same tests as the first, so that a caller who skipped the first cannot
//! bring the registries out of step.
use vstd::prelude::*;
use vstd::string::*;
use crate::buffer::{BufferId, BufferRecord, BufferRegistry, HostBlock, Ownership};
use crate::command::{Command, BUFFER_FLAGS, MAP_FLAGS};
use crate::error::{error_of_status, Error};
use crate::kernel::{has_kernel, KernelRegistry};
use crate::model::{buffer_release, AccelView};
use crate::status::{CL_INVALID_BUFFER_SIZE, CL_MAP_FAILURE, CL_SUCCESS};

verus! {

/// One device context with everything registered against it.
#[derive(Debug)]
pub struct Accel {
    pub(crate) live: bool,
    pub(crate) context: usize,
    pub(crate) device: usize,
    pub(crate) program: usize,
    pub(crate) queue: usize,
    pub(crate) kernels: KernelRegistry,
    pub(crate) buffers: BufferRegistry,
}

impl View for Accel {
    type V = AccelView;

    closed spec fn view(&self) -> AccelView {
        AccelView {
            live: self.live,
            context: self.context,
            device: self.device,
            program: self.program,
            queue: self.queue,
            kernels: self.kernels@,
            buffers: self.buffers@,
        }
    }
}

/// What the view of a context is made of, for the other modules of the crate.
pub(crate) broadcast proof fn lemma_accel_view(dev: &Accel)
    ensures
        #[trigger] dev@ == (AccelView {
            live: dev.live,
            context: dev.context,
            device: dev.device,
            program: dev.program,
            queue: dev.queue,
            kernels: dev.kernels@,
            buffers: dev.buffers@,
        }),
{
}

impl Accel {
    /// The invariant of the context.
    pub open spec fn wf(&self) -> bool {
        self@.wf()
    }

    /// A context over device resources that are ready for use, with nothing
    /// registered yet.
    pub fn new(context: usize, device: usize, program: usize, queue: usize) -> (dev: Accel)
        ensures
            dev@ == AccelView::fresh(context, device, program, queue),
            dev.wf(),
    {
        Accel {
            live: true,
            context,
            device,
            program,
            queue,
            kernels: KernelRegistry::new(),
            buffers: BufferRegistry::new(),
        }
    }

    /// Whether the context has not been torn down.
    pub fn is_live(&self) -> (b: bool)
        ensures
            b == self@.live,
    {
        self.live
    }

    /// The handle of the context on the device.
    pub fn context(&self) -> (h: usize)
        ensures
            h == self@.context,
    {
        self.context
    }

    /// The device the context was made for.
    pub fn device(&self) -> (h: usize)
        ensures
            h == self@.device,
    {
        self.device
    }

    /// The compiled program.
    pub fn program(&self) -> (h: usize)
        ensures
            h == self@.program,
    {
        self.program
    }

    /// The command queue.
    pub fn queue(&self) -> (h: usize)
        ensures
            h == self@.queue,
    {
        self.queue
    }

    /// The number of registered kernels.
    pub fn kernel_count(&self) -> (n: usize)
        ensures
            n == self@.kernels.len(),
    {
        self.kernels.len()
    }

    /// The number of registered buffers.
    pub fn buffer_count(&self) -> (n: usize)
        ensures
            n == self@.buffers.order.len(),
    {
        self.buffers.len()
    }

    /// Whether a kernel is registered under `name`.
    pub fn has_kernel(&self, name: &str) -> (b: bool)
        requires
            self.wf(),
        ensures
            b == has_kernel(self@.kernels, name@),
    {
        let owned = String::from_str(name);
        self.kernels.find(&owned).is_some()
    }

    /// Who owns the memory of the buffer `id`, if it is registered.
    pub fn buffer_state(&self, id: BufferId) -> (s: Option<Ownership>)
        ensures
            s == self@.buffers.state_of(id.addr),
    {
        match self.buffers.get(id.addr) {
            Some(rec) => Some(rec.state),
            None => None,
        }
    }

    /// The record of the buffer `id`, if it is registered.
    pub fn buffer_record(&self, id: BufferId) -> (r: Option<BufferRecord>)
        ensures
            r is Some <==> self@.buffers.has(id.addr),
            r is Some ==> r->0 == self@.buffers.records[id.addr],
    {
        self.buffers.get(id.addr)
    }

    /// Says which call creates the kernel `name`, or why it cannot be
    /// registered.
    pub fn kernel_command(&self, name: &str) -> (r: Result<Command, Error>)
        requires
            self.wf(),
        ensures
            r == self@.kernel_command(name@),
    {
        if !self.live {
            return Err(Error::DeviceUnavailable);
        }
        let owned = String::from_str(name);
        if self.kernels.find(&owned).is_some() {
            return Err(Error::DuplicateKernelError);
        }
        Ok(Command::CreateKernel { program: self.program })
    }

    /// Registers the kernel `name`, which the device created as `handle` and
    /// answered for with `status`.
    ///
    /// Fails with `DuplicateKernelError` if the name is taken, with
    /// `UnknownKernelName` if the device found no such entry point, and with
    /// the device's error for any other status.
    pub fn register_kernel(&mut self, name: &str, handle: usize, status: i32) -> (r: Result<
        (),
        Error,
    >)
        requires
            old(self).wf(),
        ensures
            final(self).wf(),
            (final(self)@, r) == old(self)@.register_kernel(name@, handle, status),
    {
        if !self.live {
            return Err(Error::DeviceUnavailable);
        }
        let owned = String::from_str(name);
        if self.kernels.find(&owned).is_some() {
            return Err(Error::DuplicateKernelError);
        }
        if status != CL_SUCCESS {
            return Err(error_of_status(status));
        }
        self.kernels.push(owned, handle);
        Ok(())
    }

    /// Says which call creates the device buffer over the host block of
    /// `count` elements of `stride` bytes at `addr`, or why the block cannot
    /// be registered.
    pub fn buffer_command(&self, addr: usize, count: usize, stride: usize) -> (r: Result<
        Command,
        Error,
    >)
        requires
            self.wf(),
        ensures
            r == self@.buffer_command(addr, count, stride),
    {
        if !self.live {
            return Err(Error::DeviceUnavailable);
        }
        if self.buffers.get(addr).is_some() {
            return Err(Error::BufferAlreadyRegistered);
        }
        match count.checked_mul(stride) {
            None => Err(Error::Device { code: CL_INVALID_BUFFER_SIZE }),
            Some(size) => Ok(
                Command::CreateBuffer {
                    context: self.context,
                    flags: BUFFER_FLAGS,
                    size,
                    host_ptr: addr,
                },
            ),
        }
    }

    /// Registers the host block of `count` elements of `stride` bytes at
    /// `addr`, over which the device created the allocation `mem` and
    /// answered with `status`. From here on the device owns the memory.
    ///
    /// Fails with `BufferAlreadyRegistered` if a buffer is registered at
    /// `addr`, and with the device's error for a status other than success.
    pub fn register_buffer(
        &mut self,
        addr: usize,
        count: usize,
        stride: usize,
        mem: usize,
        status: i32,
    ) -> (r: Result<BufferId, Error>)
        requires
            old(self).wf(),
        ensures
            final(self).wf(),
            (final(self)@, r) == old(self)@.register_buffer(addr, count, stride, mem, status),
    {
        if !self.live {
            return Err(Error::DeviceUnavailable);
        }
        if self.buffers.get(addr).is_some() {
            return Err(Error::BufferAlreadyRegistered);
        }
        if count.checked_mul(stride).is_none() {
            return Err(Error::Device { code: CL_INVALID_BUFFER_SIZE });
        }
        if status != CL_SUCCESS {
            return Err(error_of_status(status));
        }
        self.buffers.insert(
            addr,
            BufferRecord { mem, count, stride, state: Ownership::DeviceOwned },
        );
        Ok(BufferId { addr })
    }

    /// Says which call maps the buffer `id` for the host, or why it cannot be
    /// mapped.
    pub fn map_command(&self, id: BufferId) -> (r: Result<Command, Error>)
        requires
            self.wf(),
        ensures
            r == self@.map_command(id),
    {
        match self.buffers.get(id.addr) {
            None => Err(Error::UnknownBuffer),
            Some(rec) => match rec.state {
                Ownership::HostOwned => Err(Error::BufferStateViolation),
                Ownership::DeviceOwned => Ok(
                    Command::MapBuffer {
                        queue: self.queue,
                        mem: rec.mem,
                        blocking: true,
                        flags: MAP_FLAGS,
                        offset: 0,
                        size: rec.len_bytes(),
                    },
                ),
            },
        }
    }

    /// Hands the buffer `id` to the host, after the device answered the
    /// mapping call with `status` and mapped the block at `mapped_at`.
    ///
    /// Fails with `BufferStateViolation` if the host owns the buffer already.
    /// On success the host owns the block described by the result, which lies
    /// where it was registered and has the length it was registered with.
    pub fn map_buffer(&mut self, id: BufferId, mapped_at: usize, status: i32) -> (r: Result<
        HostBlock,
        Error,
    >)
        requires
            old(self).wf(),
        ensures
            final(self).wf(),
            (final(self)@, r) == old(self)@.map_buffer(id, mapped_at, status),
    {
        match self.buffers.get(id.addr) {
            None => Err(Error::UnknownBuffer),
            Some(rec) => match rec.state {
                Ownership::HostOwned => Err(Error::BufferStateViolation),
                Ownership::DeviceOwned => {
                    if status != CL_SUCCESS {
                        Err(error_of_status(status))
                    } else if mapped_at != id.addr {
                        Err(Error::Device { code: CL_MAP_FAILURE })
                    } else {
                        self.buffers.set_state(id.addr, Ownership::HostOwned);
                        Ok(HostBlock { addr: id.addr, count: rec.count, stride: rec.stride })
                    }
                },
            },
        }
    }

    /// Says which call gives the host block at `addr` back to the device, or
    /// why it cannot be given back.
    pub fn unmap_command(&self, addr: usize) -> (r: Result<Command, Error>)
        requires
            self.wf(),
        ensures
            r == self@.unmap_command(addr),
    {
        match self.buffers.get(addr) {
            None => Err(Error::UnknownBuffer),
            Some(rec) => match rec.state {
                Ownership::DeviceOwned => Err(Error::BufferStateViolation),
                Ownership::HostOwned => Ok(
                    Command::UnmapBuffer { queue: self.queue, mem: rec.mem, ptr: addr },
                ),
            },
        }
    }

    /// Hands the host block at `addr` back to the device, after the device
    /// answered the unmapping call with `status`.
    ///
    /// Fails with `BufferStateViolation` if the device owns the buffer
    /// already.
    pub fn unmap_buffer(&mut self, addr: usize, status: i32) -> (r: Result<BufferId, Error>)
        requires
            old(self).wf(),
        ensures
            final(self).wf(),
            (final(self)@, r) == old(self)@.unmap_buffer(addr, status),
    {
        match self.buffers.get(addr) {
            None => Err(Error::UnknownBuffer),
            Some(rec) => match rec.state {
                Ownership::DeviceOwned => Err(Error::BufferStateViolation),
                Ownership::HostOwned => {
                    if status != CL_SUCCESS {
                        Err(error_of_status(status))
                    } else {
                        self.buffers.set_state(addr, Ownership::DeviceOwned);
                        Ok(BufferId { addr })
                    }
                },
            },
        }
    }

    /// Says which calls give up the buffer `id`: its memory goes back to the
    /// host first if the device owns it, then the allocation is released.
    pub fn release_commands(&self, id: BufferId) -> (r: Result<Vec<Command>, Error>)
        requires
            self.wf(),
        ensures
            r is Ok <==> self@.release_commands(id) is Ok,
            r is Ok ==> r->Ok_0@ == self@.release_commands(id)->Ok_0,
            r is Err ==> r->Err_0 == self@.release_commands(id)->Err_0,
    {
        match self.buffers.get(id.addr) {
            None => Err(Error::UnknownBuffer),
            Some(rec) => {
                let mut plan: Vec<Command> = Vec::new();
                push_buffer_release(&mut plan, id.addr, &rec);
                Ok(plan)
            },
        }
    }

    /// Drops the buffer `id` from the registry, after the device answered
    /// the releasing call with `status`.
    ///
    /// The record goes whatever the device answered; a status other than
    /// success is reported as the device's error.
    pub fn release_buffer(&mut self, id: BufferId, status: i32) -> (r: Result<(), Error>)
        requires
            old(self).wf(),
        ensures
            final(self).wf(),
            (final(self)@, r) == old(self)@.release_buffer(id, status),
    {
        match self.buffers.get(id.addr) {
            None => Err(Error::UnknownBuffer),
            Some(_) => {
                self.buffers.remove(id.addr);
                if status != CL_SUCCESS {
                    Err(error_of_status(status))
                } else {
                    Ok(())
                }
            },
        }
    }
}

/// Appends the calls that give up one buffer.
pub(crate) fn push_buffer_release(plan: &mut Vec<Command>, addr: usize, record: &BufferRecord)
    requires
        record.wf(),
    ensures
        final(plan)@ == old(plan)@ + buffer_release(addr, *record),
{
    match record.state {
        Ownership::DeviceOwned => {
            plan.push(Command::ReclaimHost { addr, len: record.len_bytes() });
            plan.push(Command::ReleaseMem { mem: record.mem });
        },
        Ownership::HostOwned => {
            plan.push(Command::ReleaseMem { mem: record.mem });
        },
    }
    assert(plan@ =~= old(plan)@ + buffer_release(addr, *record));
}

} // verus!
