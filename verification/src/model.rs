//! The device context as a mathematical value, and what each operation makes
//! of it.
//!
//! Every operation on [`Accel`](crate::accel::Accel) is stated here as a
//! function from the context before the call, the arguments and the replies of
//! the device to the context after the call and the result. An operation that
//! fails leaves the context as it was, unless its description says otherwise.
use vstd::prelude::*;
use crate::buffer::{BufferId, BufferRecord, Buffers, HostBlock, Ownership};
use crate::command::{ArgValue, Command, KernelArg, BUFFER_FLAGS, MAP_FLAGS};
use crate::error::{device_error, Error};
use crate::kernel::{has_kernel, kernel_pos, kernels_wf, overlay, slots_fault, KernelView};
use crate::status::{
    CL_INVALID_ARG_INDEX, CL_INVALID_BUFFER_SIZE, CL_INVALID_OPERATION, CL_MAP_FAILURE,
    CL_SUCCESS,
};

verus! {

/// Whether `global` work items can be cut into groups of `local`: both are
/// positive and `local` divides `global`.
pub open spec fn valid_partition(global: usize, local: usize) -> bool {
    local > 0 && global > 0 && global % local == 0
}

/// How many of the first `n` binding calls went through: the position of the
/// first among them that has no reply or a reply other than success, and `n`
/// if there is none.
pub open spec fn bound_count(replies: Seq<i32>, n: int) -> int
    decreases n,
{
    if n <= 0 {
        0
    } else {
        let before = bound_count(replies, n - 1);
        if before == n - 1 && n - 1 < replies.len() && replies[n - 1] == CL_SUCCESS {
            n
        } else {
            before
        }
    }
}

/// The call of `plan` that is due when `replies` have come in, one for each
/// call made so far: the next call, as long as every call so far was answered
/// with success and the plan has not run out. After the first failure
/// nothing is due.
pub open spec fn due(plan: Seq<Command>, replies: Seq<i32>) -> Option<Command> {
    if replies.len() < plan.len() && (forall|i: int|
        0 <= i < replies.len() ==> replies[i] == CL_SUCCESS) {
        Some(plan[replies.len() as int])
    } else {
        None
    }
}

/// The reply to call `i` of a plan, and `CL_INVALID_OPERATION` where the call
/// has no reply: a call that was not made did not succeed.
pub open spec fn reply_at(replies: Seq<i32>, i: int) -> i32 {
    if 0 <= i < replies.len() {
        replies[i]
    } else {
        CL_INVALID_OPERATION
    }
}

/// The replies to the first `n` calls of a plan, as far as there are any.
pub open spec fn first_replies(replies: Seq<i32>, n: int) -> Seq<i32> {
    if 0 <= n <= replies.len() {
        replies.take(n)
    } else {
        replies
    }
}

/// The calls that give up one buffer: its memory goes back to the host first
/// if the device still owns it, then the device allocation is released.
pub open spec fn buffer_release(addr: usize, record: BufferRecord) -> Seq<Command> {
    if record.state == Ownership::DeviceOwned {
        seq![
            Command::ReclaimHost { addr, len: record.byte_len() as usize },
            Command::ReleaseMem { mem: record.mem },
        ]
    } else {
        seq![Command::ReleaseMem { mem: record.mem }]
    }
}

/// The calls that give up the first `n` buffers, in the order of their
/// registration.
pub open spec fn buffers_release(buffers: Buffers, n: int) -> Seq<Command>
    decreases n,
{
    if n <= 0 {
        Seq::empty()
    } else {
        buffers_release(buffers, n - 1) + buffer_release(
            buffers.order[n - 1],
            buffers.records[buffers.order[n - 1]],
        )
    }
}

/// The calls that release every kernel, in the order of their registration.
pub open spec fn kernels_release(kernels: Seq<KernelView>) -> Seq<Command> {
    Seq::new(kernels.len(), |i: int| Command::ReleaseKernel { kernel: kernels[i].handle })
}

/// One device context as a mathematical value.
pub struct AccelView {
    /// False once the context has been torn down.
    pub live: bool,
    pub context: usize,
    pub device: usize,
    pub program: usize,
    pub queue: usize,
    /// The registered kernels, in the order of their registration.
    pub kernels: Seq<KernelView>,
    /// The registered buffers.
    pub buffers: Buffers,
}

impl AccelView {
    /// Both registries are well formed, and a context that was torn down
    /// owns nothing.
    pub open spec fn wf(self) -> bool {
        &&& kernels_wf(self.kernels)
        &&& self.buffers.wf()
        &&& !self.live ==> self.kernels.len() == 0 && self.buffers == Buffers::empty()
    }

    /// A context over the given device resources, with nothing registered.
    pub open spec fn fresh(
        context: usize,
        device: usize,
        program: usize,
        queue: usize,
    ) -> AccelView {
        AccelView {
            live: true,
            context,
            device,
            program,
            queue,
            kernels: Seq::empty(),
            buffers: Buffers::empty(),
        }
    }

    /// Why a kernel cannot be registered under `name`, before the device is
    /// asked.
    pub open spec fn kernel_refusal(self, name: Seq<char>) -> Option<Error> {
        if !self.live {
            Some(Error::DeviceUnavailable)
        } else if has_kernel(self.kernels, name) {
            Some(Error::DuplicateKernelError)
        } else {
            None
        }
    }

    /// The call that creates the kernel `name`.
    pub open spec fn kernel_command(self, name: Seq<char>) -> Result<Command, Error> {
        match self.kernel_refusal(name) {
            Some(e) => Err(e),
            None => Ok(Command::CreateKernel { program: self.program }),
        }
    }

    /// Registering a kernel: the device answered the creating call with
    /// `status` and the kernel `handle`.
    pub open spec fn register_kernel(self, name: Seq<char>, handle: usize, status: i32) -> (
        AccelView,
        Result<(), Error>,
    ) {
        match self.kernel_refusal(name) {
            Some(e) => (self, Err(e)),
            None => if status != CL_SUCCESS {
                (self, Err(device_error(status)))
            } else {
                (
                    AccelView {
                        kernels: self.kernels.push(
                            KernelView { name, handle, slots: Map::empty() },
                        ),
                        ..self
                    },
                    Ok(()),
                )
            },
        }
    }

    /// Why a block of `count` elements of `stride` bytes at `addr` cannot be
    /// registered, before the device is asked.
    pub open spec fn buffer_refusal(self, addr: usize, count: usize, stride: usize) -> Option<
        Error,
    > {
        if !self.live {
            Some(Error::DeviceUnavailable)
        } else if self.buffers.has(addr) {
            Some(Error::BufferAlreadyRegistered)
        } else if count * stride > usize::MAX {
            Some(Error::Device { code: CL_INVALID_BUFFER_SIZE })
        } else {
            None
        }
    }

    /// The call that creates the device buffer over a host block.
    pub open spec fn buffer_command(self, addr: usize, count: usize, stride: usize) -> Result<
        Command,
        Error,
    > {
        match self.buffer_refusal(addr, count, stride) {
            Some(e) => Err(e),
            None => Ok(
                Command::CreateBuffer {
                    context: self.context,
                    flags: BUFFER_FLAGS,
                    size: (count * stride) as usize,
                    host_ptr: addr,
                },
            ),
        }
    }

    /// Registering a buffer: the device answered the creating call with
    /// `status` and the allocation `mem`. The new buffer is device-owned.
    pub open spec fn register_buffer(
        self,
        addr: usize,
        count: usize,
        stride: usize,
        mem: usize,
        status: i32,
    ) -> (AccelView, Result<BufferId, Error>) {
        match self.buffer_refusal(addr, count, stride) {
            Some(e) => (self, Err(e)),
            None => if status != CL_SUCCESS {
                (self, Err(device_error(status)))
            } else {
                (
                    AccelView {
                        buffers: self.buffers.with(
                            addr,
                            BufferRecord { mem, count, stride, state: Ownership::DeviceOwned },
                        ),
                        ..self
                    },
                    Ok(BufferId { addr }),
                )
            },
        }
    }

    /// Why the buffer `id` cannot move to `target`: it is not registered, or
    /// it is in that state already.
    pub open spec fn transfer_refusal(self, id: BufferId, target: Ownership) -> Option<Error> {
        if !self.buffers.has(id.addr) {
            Some(Error::UnknownBuffer)
        } else if self.buffers.records[id.addr].state == target {
            Some(Error::BufferStateViolation)
        } else {
            None
        }
    }

    /// The call that maps the buffer `id` for the host: the whole block, for
    /// reading and writing, and waiting until the device is done with it.
    pub open spec fn map_command(self, id: BufferId) -> Result<Command, Error> {
        match self.transfer_refusal(id, Ownership::HostOwned) {
            Some(e) => Err(e),
            None => Ok(
                Command::MapBuffer {
                    queue: self.queue,
                    mem: self.buffers.records[id.addr].mem,
                    blocking: true,
                    flags: MAP_FLAGS,
                    offset: 0,
                    size: self.buffers.records[id.addr].byte_len() as usize,
                },
            ),
        }
    }

    /// Mapping a buffer: the device answered the mapping call with `status`
    /// and mapped the block at `mapped_at`. The host gets the block only where
    /// it was registered; a mapping anywhere else counts as failed.
    pub open spec fn map_buffer(self, id: BufferId, mapped_at: usize, status: i32) -> (
        AccelView,
        Result<HostBlock, Error>,
    ) {
        match self.transfer_refusal(id, Ownership::HostOwned) {
            Some(e) => (self, Err(e)),
            None => if status != CL_SUCCESS {
                (self, Err(device_error(status)))
            } else if mapped_at != id.addr {
                (self, Err(Error::Device { code: CL_MAP_FAILURE }))
            } else {
                (
                    AccelView {
                        buffers: self.buffers.with_state(id.addr, Ownership::HostOwned),
                        ..self
                    },
                    Ok(
                        HostBlock {
                            addr: id.addr,
                            count: self.buffers.records[id.addr].count,
                            stride: self.buffers.records[id.addr].stride,
                        },
                    ),
                )
            },
        }
    }

    /// The call that gives the host block at `addr` back to the device.
    pub open spec fn unmap_command(self, addr: usize) -> Result<Command, Error> {
        match self.transfer_refusal(BufferId { addr }, Ownership::DeviceOwned) {
            Some(e) => Err(e),
            None => Ok(
                Command::UnmapBuffer {
                    queue: self.queue,
                    mem: self.buffers.records[addr].mem,
                    ptr: addr,
                },
            ),
        }
    }

    /// Unmapping a buffer: the device answered the unmapping call with
    /// `status`.
    pub open spec fn unmap_buffer(self, addr: usize, status: i32) -> (
        AccelView,
        Result<BufferId, Error>,
    ) {
        match self.transfer_refusal(BufferId { addr }, Ownership::DeviceOwned) {
            Some(e) => (self, Err(e)),
            None => if status != CL_SUCCESS {
                (self, Err(device_error(status)))
            } else {
                (
                    AccelView {
                        buffers: self.buffers.with_state(addr, Ownership::DeviceOwned),
                        ..self
                    },
                    Ok(BufferId { addr }),
                )
            },
        }
    }

    /// The calls that give up the buffer `id`.
    pub open spec fn release_commands(self, id: BufferId) -> Result<Seq<Command>, Error> {
        if !self.buffers.has(id.addr) {
            Err(Error::UnknownBuffer)
        } else {
            Ok(buffer_release(id.addr, self.buffers.records[id.addr]))
        }
    }

    /// Releasing a buffer: the device answered the releasing call with
    /// `status`. The record goes whatever the device answered, since the
    /// memory is back with the host by then; a failed release is reported.
    pub open spec fn release_buffer(self, id: BufferId, status: i32) -> (
        AccelView,
        Result<(), Error>,
    ) {
        if !self.buffers.has(id.addr) {
            (self, Err(Error::UnknownBuffer))
        } else {
            (
                AccelView { buffers: self.buffers.without(id.addr), ..self },
                if status != CL_SUCCESS {
                    Err(device_error(status))
                } else {
                    Ok(())
                },
            )
        }
    }

    /// What is laid into a slot for `arg`. A buffer must be registered and
    /// device-owned; its device allocation is what the kernel gets.
    pub open spec fn encode(self, arg: KernelArg) -> Result<ArgValue, Error> {
        match arg {
            KernelArg::I32(x) => Ok(ArgValue::I32(x)),
            KernelArg::U32(x) => Ok(ArgValue::U32(x)),
            KernelArg::F32(bits) => Ok(ArgValue::F32(bits)),
            KernelArg::F64(bits) => Ok(ArgValue::F64(bits)),
            KernelArg::Buffer(id) => if !self.buffers.has(id.addr) {
                Err(Error::UnknownBuffer)
            } else if self.buffers.records[id.addr].state == Ownership::HostOwned {
                Err(Error::BufferStateViolation)
            } else {
                Ok(ArgValue::Mem { id: id.addr, handle: self.buffers.records[id.addr].mem })
            },
        }
    }

    /// The context with `slots` as the slots of the kernel `name`.
    pub open spec fn with_slots(self, name: Seq<char>, slots: Map<u32, ArgValue>) -> AccelView {
        let k = kernel_pos(self.kernels, name);
        AccelView {
            kernels: self.kernels.update(k, KernelView { slots, ..self.kernels[k] }),
            ..self
        }
    }

    /// The slots of the kernel `name`.
    pub open spec fn slots_of(self, name: Seq<char>) -> Map<u32, ArgValue> {
        self.kernels[kernel_pos(self.kernels, name)].slots
    }

    /// The device handle of the kernel `name`.
    pub open spec fn handle_of(self, name: Seq<char>) -> usize {
        self.kernels[kernel_pos(self.kernels, name)].handle
    }

    /// The call that binds `arg` to slot `index` of the kernel `name`.
    ///
    /// The argument is looked at before the index: a buffer that is not
    /// registered or that the host owns is refused as such, whatever the
    /// index. An index that does not fit 32 bits is refused after that.
    pub open spec fn arg_command(self, name: Seq<char>, index: usize, arg: KernelArg) -> Result<
        Command,
        Error,
    > {
        if !has_kernel(self.kernels, name) {
            Err(Error::UnknownKernelName)
        } else {
            match self.encode(arg) {
                Err(e) => Err(e),
                Ok(value) => if index > u32::MAX {
                    Err(Error::Device { code: CL_INVALID_ARG_INDEX })
                } else {
                    Ok(
                        Command::SetKernelArg {
                            kernel: self.handle_of(name),
                            index: index as u32,
                            value,
                        },
                    )
                },
            }
        }
    }

    /// Binding an argument: the device answered the binding call with
    /// `status`. A binding that went through replaces what the slot held.
    pub open spec fn set_kernel_arg(
        self,
        name: Seq<char>,
        index: usize,
        arg: KernelArg,
        status: i32,
    ) -> (AccelView, Result<(), Error>) {
        match self.arg_command(name, index, arg) {
            Err(e) => (self, Err(e)),
            Ok(_) => if status != CL_SUCCESS {
                (self, Err(device_error(status)))
            } else {
                (
                    self.with_slots(
                        name,
                        self.slots_of(name).insert(index as u32, self.encode(arg)->Ok_0),
                    ),
                    Ok(()),
                )
            },
        }
    }

    /// Why the kernel `name` cannot be dispatched, before the device is asked:
    /// it is not registered, the work sizes do not fit, a slot was left out,
    /// or a bound buffer is gone or host-owned.
    pub open spec fn dispatch_refusal(self, name: Seq<char>, global: usize, local: usize) -> Option<
        Error,
    > {
        if !has_kernel(self.kernels, name) {
            Some(Error::UnknownKernelName)
        } else if !valid_partition(global, local) {
            Some(Error::InvalidPartitioning)
        } else {
            slots_fault(self.buffers, self.slots_of(name))
        }
    }

    /// The call that submits the kernel `name`.
    pub open spec fn dispatch_command(self, name: Seq<char>, global: usize, local: usize) -> Result<
        Command,
        Error,
    > {
        match self.dispatch_refusal(name, global, local) {
            Some(e) => Err(e),
            None => Ok(
                Command::EnqueueKernel {
                    queue: self.queue,
                    kernel: self.handle_of(name),
                    global,
                    local,
                },
            ),
        }
    }

    /// What follows a submission that the device answered with `enqueued`:
    /// the wait for the queue, or the error.
    pub open spec fn after_enqueue(self, enqueued: i32) -> Result<Command, Error> {
        if enqueued != CL_SUCCESS {
            Err(device_error(enqueued))
        } else {
            Ok(Command::Finish { queue: self.queue })
        }
    }

    /// Dispatching a kernel: the device answered the submission with
    /// `enqueued` and the wait that followed with `finished`. The wait is not
    /// looked at where the submission failed.
    pub open spec fn run_kernel(
        self,
        name: Seq<char>,
        global: usize,
        local: usize,
        enqueued: i32,
        finished: i32,
    ) -> Result<(), Error> {
        match self.dispatch_refusal(name, global, local) {
            Some(e) => Err(e),
            None => if enqueued != CL_SUCCESS {
                Err(device_error(enqueued))
            } else if finished != CL_SUCCESS {
                Err(device_error(finished))
            } else {
                Ok(())
            },
        }
    }

    /// The values that `args` are bound as, one for one. Meaningful where
    /// every argument can be encoded.
    pub open spec fn encode_all(self, args: Seq<KernelArg>) -> Seq<ArgValue> {
        Seq::new(args.len(), |i: int| self.encode(args[i])->Ok_0)
    }

    /// The position of the first of `args` that cannot be encoded, or the
    /// length of `args`.
    pub open spec fn first_unencodable(self, args: Seq<KernelArg>) -> int {
        if exists|i: int| 0 <= i < args.len() && self.encode(args[i]) is Err {
            choose|i: int|
                0 <= i < args.len() && self.encode(args[i]) is Err && forall|j: int|
                    0 <= j < i ==> self.encode(args[j]) is Ok
        } else {
            args.len() as int
        }
    }

    /// Why `args` cannot be bound to the kernel `name` and the kernel
    /// dispatched, before the device is asked.
    ///
    /// The tests come in the order in which binding each argument and then
    /// dispatching would make them: the arguments one after the other, each
    /// before its slot index; then the work sizes; then the slots as they
    /// would stand once the arguments were bound.
    pub open spec fn bind_all_refusal(
        self,
        name: Seq<char>,
        global: usize,
        local: usize,
        args: Seq<KernelArg>,
    ) -> Option<Error> {
        if !has_kernel(self.kernels, name) {
            Some(Error::UnknownKernelName)
        } else if self.first_unencodable(args) < args.len() && self.first_unencodable(args)
            <= 0x1_0000_0000 {
            Some(self.encode(args[self.first_unencodable(args)])->Err_0)
        } else if args.len() > 0x1_0000_0000 {
            Some(Error::Device { code: CL_INVALID_ARG_INDEX })
        } else if !valid_partition(global, local) {
            Some(Error::InvalidPartitioning)
        } else {
            slots_fault(
                self.buffers,
                overlay(self.slots_of(name), self.encode_all(args), args.len() as int),
            )
        }
    }

    /// The calls that bind `args` to the slots `0`, `1`, ... of the kernel
    /// `name`, submit it and wait for it.
    pub open spec fn bind_all_commands(
        self,
        name: Seq<char>,
        global: usize,
        local: usize,
        args: Seq<KernelArg>,
    ) -> Result<Seq<Command>, Error> {
        match self.bind_all_refusal(name, global, local, args) {
            Some(e) => Err(e),
            None => Ok(
                Seq::new(
                    args.len(),
                    |i: int|
                        Command::SetKernelArg {
                            kernel: self.handle_of(name),
                            index: i as u32,
                            value: self.encode_all(args)[i],
                        },
                ).push(
                    Command::EnqueueKernel {
                        queue: self.queue,
                        kernel: self.handle_of(name),
                        global,
                        local,
                    },
                ).push(Command::Finish { queue: self.queue }),
            ),
        }
    }

    /// Binding all arguments and dispatching: `bound[i]` is the device's
    /// answer to the binding of `args[i]`, `enqueued` and `finished` its
    /// answers to the submission and to the wait.
    ///
    /// The bindings up to the first that failed, or that has no answer, stay
    /// recorded. A binding without an answer was not made: the argument
    /// counts as unbound. Nothing after the first failure is looked at.
    pub open spec fn bind_all_and_dispatch(
        self,
        name: Seq<char>,
        global: usize,
        local: usize,
        args: Seq<KernelArg>,
        bound: Seq<i32>,
        enqueued: i32,
        finished: i32,
    ) -> (AccelView, Result<(), Error>) {
        match self.bind_all_refusal(name, global, local, args) {
            Some(e) => (self, Err(e)),
            None => {
                let done = bound_count(bound, args.len() as int);
                let next = self.with_slots(
                    name,
                    overlay(self.slots_of(name), self.encode_all(args), done),
                );
                if done < args.len() {
                    if done < bound.len() {
                        (next, Err(device_error(bound[done])))
                    } else {
                        (next, Err(Error::UnboundArgument))
                    }
                } else if enqueued != CL_SUCCESS {
                    (next, Err(device_error(enqueued)))
                } else if finished != CL_SUCCESS {
                    (next, Err(device_error(finished)))
                } else {
                    (next, Ok(()))
                }
            },
        }
    }

    /// The calls that give up everything the context owns: every buffer in
    /// the order of registration, then every kernel, then the command queue,
    /// the program, the device reference and the context. A context that was
    /// torn down has nothing left to give up.
    pub open spec fn teardown_plan(self) -> Seq<Command> {
        if !self.live {
            Seq::empty()
        } else {
            buffers_release(self.buffers, self.buffers.order.len() as int) + kernels_release(
                self.kernels,
            ) + seq![
                Command::ReleaseQueue { queue: self.queue },
                Command::ReleaseProgram { program: self.program },
                Command::ReleaseDevice { device: self.device },
                Command::ReleaseContext { context: self.context },
            ]
        }
    }

    /// The context after teardown: not live, and with nothing registered.
    pub open spec fn torn_down(self) -> AccelView {
        AccelView { live: false, kernels: Seq::empty(), buffers: Buffers::empty(), ..self }
    }
}

/// A context is what it is with the slots of one of its kernels laid over by
/// no value.
pub proof fn lemma_overlay_zero(v: AccelView, name: Seq<char>)
    requires
        has_kernel(v.kernels, name),
    ensures
        forall|values: Seq<ArgValue>|
            v.with_slots(name, #[trigger] overlay(v.slots_of(name), values, 0)) == v,
{
    assert forall|values: Seq<ArgValue>|
        v.with_slots(name, #[trigger] overlay(v.slots_of(name), values, 0)) == v by {
        assert(overlay(v.slots_of(name), values, 0) =~= v.slots_of(name));
        assert(v.with_slots(name, v.slots_of(name)).kernels =~= v.kernels);
    }
}

/// The first argument that cannot be encoded lies within `args`, cannot be
/// encoded, and follows only arguments that can; where every argument can be
/// encoded it is the length of `args`.
pub proof fn lemma_first_unencodable_is_first(v: AccelView, args: Seq<KernelArg>)
    ensures
        0 <= v.first_unencodable(args) <= args.len(),
        v.first_unencodable(args) < args.len() ==> v.encode(
            args[v.first_unencodable(args)],
        ) is Err,
        forall|j: int| 0 <= j < v.first_unencodable(args) ==> v.encode(#[trigger] args[j]) is Ok,
{
    let f = v.first_unencodable(args);
    if exists|i: int| 0 <= i < args.len() && v.encode(args[i]) is Err {
        let w = choose|i: int| 0 <= i < args.len() && v.encode(args[i]) is Err;
        lemma_least_unencodable(v, args, w);
    } else {
        assert forall|j: int| 0 <= j < f implies v.encode(#[trigger] args[j]) is Ok by {
            if v.encode(args[j]) is Err {
                assert(0 <= j < args.len() && v.encode(args[j]) is Err);
            }
        }
    }
}

/// Where some argument cannot be encoded, there is a first such argument.
pub proof fn lemma_least_unencodable(v: AccelView, args: Seq<KernelArg>, w: int)
    requires
        0 <= w < args.len(),
        v.encode(args[w]) is Err,
    ensures
        exists|i: int|
            0 <= i < args.len() && v.encode(args[i]) is Err && forall|j: int|
                0 <= j < i ==> v.encode(args[j]) is Ok,
    decreases w,
{
    if exists|j: int| 0 <= j < w && v.encode(args[j]) is Err {
        let j = choose|j: int| 0 <= j < w && v.encode(args[j]) is Err;
        lemma_least_unencodable(v, args, j);
    } else {
        assert(0 <= w < args.len() && v.encode(args[w]) is Err && forall|j: int|
            0 <= j < w ==> v.encode(args[j]) is Ok);
    }
}

/// The first argument that cannot be encoded is the one before which all
/// can.
pub proof fn lemma_first_unencodable(v: AccelView, args: Seq<KernelArg>, i: int)
    requires
        0 <= i <= args.len(),
        forall|j: int| #![trigger args[j]] 0 <= j < i ==> v.encode(args[j]) is Ok,
        i < args.len() ==> v.encode(args[i]) is Err,
    ensures
        v.first_unencodable(args) == i,
{
    lemma_first_unencodable_is_first(v, args);
    let f = v.first_unencodable(args);
    if f < i {
        assert(v.encode(args[f]) is Ok);
    } else if f > i {
        assert(v.encode(args[i]) is Ok);
    }
}

/// Once a binding has failed or has no answer, no later binding counts.
pub proof fn lemma_bound_count_stops(replies: Seq<i32>, i: int, n: int)
    requires
        0 <= i <= n,
        bound_count(replies, i) == i,
        i >= replies.len() || replies[i] != CL_SUCCESS,
    ensures
        bound_count(replies, n) == i,
    decreases n - i,
{
    if n > i {
        lemma_bound_count_stops(replies, i, n - 1);
    }
}

} // verus!
