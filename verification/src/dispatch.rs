//! Binding arguments to kernels and dispatching them.
use vstd::prelude::*;
use vstd::string::*;
use crate::accel::Accel;
use crate::buffer::{BufferId, Ownership};
use crate::command::{ArgValue, Command, KernelArg};
use crate::error::{error_of_status, Error};
use crate::kernel::{has_kernel, kernel_pos, lemma_overlay_step, overlay};
use crate::model::{
    bound_count, due, first_replies, lemma_bound_count_stops, lemma_first_unencodable,
    lemma_first_unencodable_is_first, lemma_overlay_zero, reply_at, valid_partition,
};
use crate::status::{CL_INVALID_ARG_INDEX, CL_INVALID_OPERATION, CL_SUCCESS};

verus! {

broadcast use crate::accel::lemma_accel_view;

/// A value that can be bound to an argument slot of a kernel.
///
/// A scalar goes into the slot as it is. A buffer is looked up in the
/// context's registry: it must be registered and device-owned, and the slot
/// then holds its device allocation.
pub trait TrueArg {
    /// What the value is bound as.
    spec fn descriptor(&self) -> KernelArg;

    /// The value as it is laid into a slot by a kernel of `dev`.
    fn true_arg(&self, dev: &Accel) -> (r: Result<ArgValue, Error>)
        requires
            dev.wf(),
        ensures
            r == dev@.encode(self.descriptor()),
    ;
}

impl TrueArg for i32 {
    open spec fn descriptor(&self) -> KernelArg {
        KernelArg::I32(*self)
    }

    fn true_arg(&self, dev: &Accel) -> (r: Result<ArgValue, Error>) {
        Ok(ArgValue::I32(*self))
    }
}

impl TrueArg for u32 {
    open spec fn descriptor(&self) -> KernelArg {
        KernelArg::U32(*self)
    }

    fn true_arg(&self, dev: &Accel) -> (r: Result<ArgValue, Error>) {
        Ok(ArgValue::U32(*self))
    }
}

impl TrueArg for BufferId {
    open spec fn descriptor(&self) -> KernelArg {
        KernelArg::Buffer(*self)
    }

    fn true_arg(&self, dev: &Accel) -> (r: Result<ArgValue, Error>) {
        dev.encode(&KernelArg::Buffer(*self))
    }
}

impl TrueArg for KernelArg {
    open spec fn descriptor(&self) -> KernelArg {
        *self
    }

    fn true_arg(&self, dev: &Accel) -> (r: Result<ArgValue, Error>) {
        dev.encode(self)
    }
}

/// Says which call of `plan` is due when `replies` have come in, one for each
/// call made so far. The plan of a binding and dispatch is followed call by
/// call and ends with the first call that the device refuses: nothing is due
/// after a reply other than success, nor when every call has its reply.
pub fn next_call(plan: &Vec<Command>, replies: &Vec<i32>) -> (r: Option<Command>)
    ensures
        r == due(plan@, replies@),
{
    let n: usize = replies.len();
    if n >= plan.len() {
        return None;
    }
    let mut i: usize = 0;
    while i < n
        invariant
            n == replies@.len(),
            n < plan@.len(),
            i <= n,
            forall|j: int| 0 <= j < i ==> replies@[j] == CL_SUCCESS,
        decreases n - i,
    {
        if replies[i] != CL_SUCCESS {
            return None;
        }
        i = i + 1;
    }
    Some(plan[n])
}

/// Tells the replies to a plan of `bindings` bindings, a submission and a
/// wait apart: the replies to the bindings as far as there are any, the reply
/// to the submission, and the reply to the wait. A call without a reply was
/// not made and counts as `CL_INVALID_OPERATION`.
pub fn split_replies(replies: &Vec<i32>, bindings: usize) -> (r: (Vec<i32>, i32, i32))
    ensures
        r.0@ == first_replies(replies@, bindings as int),
        r.1 == reply_at(replies@, bindings as int),
        r.2 == reply_at(replies@, bindings + 1),
{
    let len: usize = replies.len();
    let n: usize = if bindings <= len {
        bindings
    } else {
        len
    };
    let mut bound: Vec<i32> = Vec::new();
    let mut i: usize = 0;
    while i < n
        invariant
            len == replies@.len(),
            n <= len,
            i <= n,
            bound@ == replies@.take(i as int),
        decreases n - i,
    {
        bound.push(replies[i]);
        i = i + 1;
        proof {
            assert(bound@ =~= replies@.take(i as int));
        }
    }
    proof {
        if bindings > len {
            assert(replies@.take(len as int) =~= replies@);
        }
    }
    let enqueued: i32 = if bindings < len {
        replies[bindings]
    } else {
        CL_INVALID_OPERATION
    };
    let finished: i32 = if bindings < len && bindings + 1 < len {
        replies[bindings + 1]
    } else {
        CL_INVALID_OPERATION
    };
    (bound, enqueued, finished)
}

/// Tells whether `global` work items can be cut into groups of `local`.
pub fn is_valid_partition(global: usize, local: usize) -> (ok: bool)
    ensures
        ok == valid_partition(global, local),
{
    local > 0 && global > 0 && global % local == 0
}

impl Accel {
    /// Turns an argument into the value that goes into a slot.
    ///
    /// A buffer that is not registered gives `UnknownBuffer`, one that the
    /// host owns gives `BufferStateViolation`.
    pub fn encode(&self, arg: &KernelArg) -> (r: Result<ArgValue, Error>)
        ensures
            r == self@.encode(*arg),
    {
        match arg {
            KernelArg::I32(x) => Ok(ArgValue::I32(*x)),
            KernelArg::U32(x) => Ok(ArgValue::U32(*x)),
            KernelArg::F32(bits) => Ok(ArgValue::F32(*bits)),
            KernelArg::F64(bits) => Ok(ArgValue::F64(*bits)),
            KernelArg::Buffer(id) => match self.buffers.get(id.addr) {
                None => Err(Error::UnknownBuffer),
                Some(rec) => match rec.state {
                    Ownership::HostOwned => Err(Error::BufferStateViolation),
                    Ownership::DeviceOwned => Ok(ArgValue::Mem { id: id.addr, handle: rec.mem }),
                },
            },
        }
    }

    /// Says which call binds `arg` to slot `index` of the kernel `kname`, or
    /// why it cannot be bound.
    ///
    /// The argument is looked at before the index: a buffer that the host
    /// owns gives `BufferStateViolation` whatever the index is.
    pub fn arg_command<T: TrueArg>(&self, kname: &str, index: usize, arg: &T) -> (r: Result<
        Command,
        Error,
    >)
        requires
            self.wf(),
        ensures
            r == self@.arg_command(kname@, index, arg.descriptor()),
    {
        let owned = String::from_str(kname);
        let k = match self.kernels.find(&owned) {
            None => {
                return Err(Error::UnknownKernelName);
            },
            Some(k) => k,
        };
        match arg.true_arg(self) {
            Err(e) => Err(e),
            Ok(value) => {
                if index > 0xffff_ffff {
                    Err(Error::Device { code: CL_INVALID_ARG_INDEX })
                } else {
                    Ok(
                        Command::SetKernelArg {
                            kernel: self.kernels.handle_at(k),
                            index: index as u32,
                            value,
                        },
                    )
                }
            },
        }
    }

    /// Records that `arg` is bound to slot `index` of the kernel `kname`,
    /// after the device answered the binding call with `status`.
    ///
    /// Fails with `BufferStateViolation` if `arg` is a buffer that the host
    /// owns, whatever the index is. A binding that went through replaces what
    /// the slot held.
    pub fn set_kernel_arg<T: TrueArg>(
        &mut self,
        kname: &str,
        index: usize,
        arg: &T,
        status: i32,
    ) -> (r: Result<(), Error>)
        requires
            old(self).wf(),
        ensures
            final(self).wf(),
            (final(self)@, r) == old(self)@.set_kernel_arg(
                kname@,
                index,
                arg.descriptor(),
                status,
            ),
    {
        let owned = String::from_str(kname);
        let k = match self.kernels.find(&owned) {
            None => {
                return Err(Error::UnknownKernelName);
            },
            Some(k) => k,
        };
        let value = match arg.true_arg(self) {
            Err(e) => {
                return Err(e);
            },
            Ok(value) => value,
        };
        if index > 0xffff_ffff {
            return Err(Error::Device { code: CL_INVALID_ARG_INDEX });
        }
        if status != CL_SUCCESS {
            return Err(error_of_status(status));
        }
        self.kernels.bind(k, index as u32, value);
        Ok(())
    }

    /// Says which call submits the kernel `kname` over `globsize` work items
    /// in groups of `locsize`, or why it cannot be dispatched.
    ///
    /// Fails with `InvalidPartitioning` unless `globsize` is a positive
    /// multiple of `locsize`, with `UnboundArgument` if a slot below a bound
    /// one was never bound, and with `BufferStateViolation` if a bound buffer
    /// is host-owned.
    pub fn dispatch_command(&self, kname: &str, globsize: usize, locsize: usize) -> (r: Result<
        Command,
        Error,
    >)
        requires
            self.wf(),
        ensures
            r == self@.dispatch_command(kname@, globsize, locsize),
    {
        let owned = String::from_str(kname);
        let k = match self.kernels.find(&owned) {
            None => {
                return Err(Error::UnknownKernelName);
            },
            Some(k) => k,
        };
        if !is_valid_partition(globsize, locsize) {
            return Err(Error::InvalidPartitioning);
        }
        match self.kernels.check_slots(k, &self.buffers) {
            Some(e) => Err(e),
            None => Ok(
                Command::EnqueueKernel {
                    queue: self.queue,
                    kernel: self.kernels.handle_at(k),
                    global: globsize,
                    local: locsize,
                },
            ),
        }
    }

    /// Says what follows a submission that the device answered with
    /// `enqueued`: the wait for the queue, or the error.
    pub fn after_enqueue(&self, enqueued: i32) -> (r: Result<Command, Error>)
        ensures
            r == self@.after_enqueue(enqueued),
    {
        if enqueued != CL_SUCCESS {
            Err(error_of_status(enqueued))
        } else {
            Ok(Command::Finish { queue: self.queue })
        }
    }

    /// Settles a dispatch of the kernel `kname`: the device answered the
    /// submission with `enqueued` and the wait that followed with `finished`.
    ///
    /// The dispatch is done only when the wait has returned with success, so
    /// that no work of the device is pending when this returns `Ok`.
    pub fn run_kernel(
        &self,
        kname: &str,
        globsize: usize,
        locsize: usize,
        enqueued: i32,
        finished: i32,
    ) -> (r: Result<(), Error>)
        requires
            self.wf(),
        ensures
            r == self@.run_kernel(kname@, globsize, locsize, enqueued, finished),
    {
        match self.dispatch_command(kname, globsize, locsize) {
            Err(e) => Err(e),
            Ok(_) => {
                if enqueued != CL_SUCCESS {
                    Err(error_of_status(enqueued))
                } else if finished != CL_SUCCESS {
                    Err(error_of_status(finished))
                } else {
                    Ok(())
                }
            },
        }
    }

    /// Encodes `args` and tests everything that can be tested before the
    /// device is asked. Gives the position of the kernel and the values.
    fn bind_all_check(
        &self,
        kname: &str,
        globsize: usize,
        locsize: usize,
        args: &Vec<KernelArg>,
    ) -> (r: Result<(usize, Vec<ArgValue>), Error>)
        requires
            self.wf(),
        ensures
            match self@.bind_all_refusal(kname@, globsize, locsize, args@) {
                Some(e) => r == Err::<(usize, Vec<ArgValue>), Error>(e),
                None => r is Ok && r->Ok_0.0 == kernel_pos(self@.kernels, kname@) && r->Ok_0.0
                    < self@.kernels.len() && r->Ok_0.1@ == self@.encode_all(args@),
            },
    {
        let owned = String::from_str(kname);
        let k = match self.kernels.find(&owned) {
            None => {
                return Err(Error::UnknownKernelName);
            },
            Some(k) => k,
        };
        let n: usize = args.len();
        let mut values: Vec<ArgValue> = Vec::new();
        let mut i: usize = 0;
        while i < n
            invariant
                has_kernel(self@.kernels, kname@),
                n == args@.len(),
                i <= n,
                i <= 0x1_0000_0000,
                values@.len() == i,
                forall|j: int|
                    #![trigger args@[j]]
                    0 <= j < i ==> self@.encode(args@[j]) is Ok && values@[j] == self@.encode(
                        args@[j],
                    )->Ok_0,
            decreases n - i,
        {
            match self.encode(&args[i]) {
                Err(e) => {
                    proof {
                        lemma_first_unencodable(self@, args@, i as int);
                    }
                    return Err(e);
                },
                Ok(value) => {
                    if i > 0xffff_ffff {
                        proof {
                            lemma_first_unencodable_is_first(self@, args@);
                            let f = self@.first_unencodable(args@);
                            if f <= i {
                                assert(self@.encode(args@[f]) is Ok);
                            }
                        }
                        return Err(Error::Device { code: CL_INVALID_ARG_INDEX });
                    }
                    values.push(value);
                },
            }
            i = i + 1;
        }
        proof {
            lemma_first_unencodable(self@, args@, n as int);
            assert(values@ =~= self@.encode_all(args@));
        }
        if !is_valid_partition(globsize, locsize) {
            return Err(Error::InvalidPartitioning);
        }
        match self.kernels.check_overlay(k, &values, &self.buffers) {
            Some(e) => Err(e),
            None => Ok((k, values)),
        }
    }

    /// Says which calls bind `args` to the slots `0`, `1`, ... of the kernel
    /// `kname`, submit it and wait for it, or why that cannot be done.
    ///
    /// The arguments are tested first, in their order, then the work sizes.
    /// Every buffer among `args`, and every buffer left in a higher slot by
    /// an earlier binding, is tested again here, just before the submission.
    pub fn bind_all_commands(
        &self,
        kname: &str,
        globsize: usize,
        locsize: usize,
        args: &Vec<KernelArg>,
    ) -> (r: Result<Vec<Command>, Error>)
        requires
            self.wf(),
        ensures
            r is Ok <==> self@.bind_all_commands(kname@, globsize, locsize, args@) is Ok,
            r is Ok ==> r->Ok_0@ == self@.bind_all_commands(
                kname@,
                globsize,
                locsize,
                args@,
            )->Ok_0,
            r is Err ==> r->Err_0 == self@.bind_all_commands(
                kname@,
                globsize,
                locsize,
                args@,
            )->Err_0,
    {
        let (k, values) = match self.bind_all_check(kname, globsize, locsize, args) {
            Err(e) => {
                return Err(e);
            },
            Ok(pair) => pair,
        };
        let kernel = self.kernels.handle_at(k);
        let n: usize = values.len();
        let mut plan: Vec<Command> = Vec::new();
        let mut i: usize = 0;
        while i < n
            invariant
                n == values@.len(),
                n <= 0x1_0000_0000,
                i <= n,
                plan@.len() == i,
                forall|j: int|
                    0 <= j < i ==> plan@[j] == (Command::SetKernelArg {
                        kernel,
                        index: j as u32,
                        value: values@[j],
                    }),
            decreases n - i,
        {
            plan.push(Command::SetKernelArg { kernel, index: i as u32, value: values[i] });
            i = i + 1;
        }
        plan.push(
            Command::EnqueueKernel {
                queue: self.queue,
                kernel,
                global: globsize,
                local: locsize,
            },
        );
        plan.push(Command::Finish { queue: self.queue });
        proof {
            assert(plan@ =~= self@.bind_all_commands(kname@, globsize, locsize, args@)->Ok_0);
        }
        Ok(plan)
    }

    /// Binds `args` to the slots `0`, `1`, ... of the kernel `kname` and
    /// settles its dispatch: `bound[i]` is the device's answer to the binding
    /// of `args[i]`, `enqueued` and `finished` are its answers to the
    /// submission and to the wait.
    ///
    /// The bindings up to the first that failed or has no answer stay
    /// recorded; an argument whose binding has no answer counts as unbound.
    pub fn bind_all_and_dispatch(
        &mut self,
        kname: &str,
        globsize: usize,
        locsize: usize,
        args: &Vec<KernelArg>,
        bound: &Vec<i32>,
        enqueued: i32,
        finished: i32,
    ) -> (r: Result<(), Error>)
        requires
            old(self).wf(),
        ensures
            final(self).wf(),
            (final(self)@, r) == old(self)@.bind_all_and_dispatch(
                kname@,
                globsize,
                locsize,
                args@,
                bound@,
                enqueued,
                finished,
            ),
    {
        let (k, values) = match self.bind_all_check(kname, globsize, locsize, args) {
            Err(e) => {
                return Err(e);
            },
            Ok(pair) => pair,
        };
        let ghost before = self@;
        let ghost slots = before.kernels[k as int].slots;
        let n: usize = values.len();
        let mut i: usize = 0;
        proof {
            lemma_overlay_zero(before, kname@);
        }
        while i < n
            invariant
                self.wf(),
                before == old(self)@,
                before.wf(),
                before.bind_all_refusal(kname@, globsize, locsize, args@) is None,
                values@ == before.encode_all(args@),
                k == kernel_pos(before.kernels, kname@),
                k < before.kernels.len(),
                slots == before.kernels[k as int].slots,
                n == values@.len(),
                n == args@.len(),
                n <= 0x1_0000_0000,
                i <= n,
                bound_count(bound@, i as int) == i,
                self@ == before.with_slots(kname@, overlay(slots, values@, i as int)),
            decreases n - i,
        {
            if i >= bound.len() {
                proof {
                    lemma_bound_count_stops(bound@, i as int, n as int);
                }
                return Err(Error::UnboundArgument);
            }
            if bound[i] != CL_SUCCESS {
                proof {
                    lemma_bound_count_stops(bound@, i as int, n as int);
                }
                return Err(error_of_status(bound[i]));
            }
            proof {
                lemma_overlay_step(slots, values@, i as int);
            }
            self.kernels.bind(k, i as u32, values[i]);
            i = i + 1;
            proof {
                assert(self@.kernels =~= before.with_slots(
                    kname@,
                    overlay(slots, values@, i as int),
                ).kernels);
            }
        }
        if enqueued != CL_SUCCESS {
            Err(error_of_status(enqueued))
        } else if finished != CL_SUCCESS {
            Err(error_of_status(finished))
        } else {
            Ok(())
        }
    }
}

} // verus!
