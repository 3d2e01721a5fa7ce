//! What holds of the operations taken together.
//!
//! Each function here is a theorem about the model of the context: its
//! parameters are universally quantified, and Verus proves its `ensures` from
//! its `requires`.
use vstd::prelude::*;
use crate::buffer::{
    lemma_with_state_wf, lemma_with_wf, lemma_without_wf, BufferId, BufferRecord, Buffers,
    HostBlock, Ownership,
};
use crate::command::{ArgValue, Command, KernelArg};
use crate::error::{device_error, Error};
use crate::kernel::{
    has_kernel, kernel_pos, lemma_overlay_step, overlay, slot_fault, slots_fault, value_fault,
    KernelView,
};
use crate::model::{
    bound_count, buffer_release, buffers_release, due, first_replies, kernels_release,
    lemma_bound_count_stops, lemma_first_unencodable, lemma_first_unencodable_is_first, reply_at,
    valid_partition, AccelView,
};
use crate::startup::{Outcome, Progress, Reply, Stage};
use crate::status::CL_SUCCESS;

verus! {

/// Round trip: a block that was registered and is mapped right away comes
/// back as it went in, at the same address and with the same number of
/// elements of the same size. Whatever the device answers to the mapping
/// call, the host never gets any other block for that buffer.
pub proof fn law_round_trip(
    v: AccelView,
    addr: usize,
    count: usize,
    stride: usize,
    mem: usize,
    status: i32,
    mapped_at: usize,
    map_status: i32,
)
    requires
        v.wf(),
        v.register_buffer(addr, count, stride, mem, status).1 is Ok,
    ensures
        ({
            let (registered, id) = v.register_buffer(addr, count, stride, mem, status);
            let block = HostBlock { addr, count, stride };
            &&& id == Ok::<BufferId, Error>(BufferId { addr })
            &&& registered.buffers.state_of(addr) == Some(Ownership::DeviceOwned)
            &&& registered.map_buffer(id->Ok_0, addr, CL_SUCCESS).1 == Ok::<HostBlock, Error>(block)
            &&& registered.map_buffer(id->Ok_0, mapped_at, map_status).1 is Ok
                ==> registered.map_buffer(id->Ok_0, mapped_at, map_status).1 == Ok::<
                HostBlock,
                Error,
            >(block)
        }),
{
}

/// State exclusivity: after a mapping that went through, another mapping of
/// the same buffer fails with `BufferStateViolation` and changes nothing,
/// whatever the device is said to have answered.
pub proof fn law_map_twice(
    v: AccelView,
    id: BufferId,
    mapped_at: usize,
    status: i32,
    mapped_at2: usize,
    status2: i32,
)
    requires
        v.wf(),
        v.map_buffer(id, mapped_at, status).1 is Ok,
    ensures
        ({
            let mapped = v.map_buffer(id, mapped_at, status).0;
            &&& mapped.buffers.state_of(id.addr) == Some(Ownership::HostOwned)
            &&& mapped.map_command(id) == Err::<Command, Error>(Error::BufferStateViolation)
            &&& mapped.map_buffer(id, mapped_at2, status2) == (
                mapped,
                Err::<HostBlock, Error>(Error::BufferStateViolation),
            )
        }),
{
}

/// State exclusivity, the other way: after an unmapping that went through,
/// another unmapping of the same block fails with `BufferStateViolation` and
/// changes nothing.
pub proof fn law_unmap_twice(v: AccelView, addr: usize, status: i32, status2: i32)
    requires
        v.wf(),
        v.unmap_buffer(addr, status).1 is Ok,
    ensures
        ({
            let unmapped = v.unmap_buffer(addr, status).0;
            &&& unmapped.buffers.state_of(addr) == Some(Ownership::DeviceOwned)
            &&& unmapped.unmap_command(addr) == Err::<Command, Error>(Error::BufferStateViolation)
            &&& unmapped.unmap_buffer(addr, status2) == (
                unmapped,
                Err::<BufferId, Error>(Error::BufferStateViolation),
            )
        }),
{
}

/// Mapping and unmapping undo each other: a buffer that is mapped and then
/// unmapped, or unmapped and then mapped, leaves the context as it was.
pub proof fn law_map_unmap_inverse(v: AccelView, id: BufferId)
    requires
        v.wf(),
        v.buffers.has(id.addr),
    ensures
        v.buffers.state_of(id.addr) == Some(Ownership::DeviceOwned) ==> v.map_buffer(
            id,
            id.addr,
            CL_SUCCESS,
        ).0.unmap_buffer(id.addr, CL_SUCCESS) == (v, Ok::<BufferId, Error>(id)),
        v.buffers.state_of(id.addr) == Some(Ownership::HostOwned) ==> v.unmap_buffer(
            id.addr,
            CL_SUCCESS,
        ).0.map_buffer(id, id.addr, CL_SUCCESS).0 == v,
{
    let rec = v.buffers.records[id.addr];
    if rec.state == Ownership::DeviceOwned {
        let m = v.map_buffer(id, id.addr, CL_SUCCESS).0;
        let u = m.unmap_buffer(id.addr, CL_SUCCESS).0;
        assert(u.buffers.records =~= v.buffers.records);
    } else {
        let u = v.unmap_buffer(id.addr, CL_SUCCESS).0;
        let m = u.map_buffer(id, id.addr, CL_SUCCESS).0;
        assert(m.buffers.records =~= v.buffers.records);
    }
}

/// Bind-state guard: a buffer that the host owns cannot be bound to a
/// kernel. The binding fails with `BufferStateViolation` and changes nothing,
/// whatever the device is said to have answered. Once the buffer has been
/// unmapped, the same binding goes through, and the slot holds the buffer's
/// device allocation.
pub proof fn law_bind_guard(v: AccelView, name: Seq<char>, index: usize, id: BufferId, status: i32)
    requires
        v.wf(),
        has_kernel(v.kernels, name),
        v.buffers.state_of(id.addr) == Some(Ownership::HostOwned),
    ensures
        v.arg_command(name, index, KernelArg::Buffer(id)) == Err::<Command, Error>(
            Error::BufferStateViolation,
        ),
        v.set_kernel_arg(name, index, KernelArg::Buffer(id), status) == (
            v,
            Err::<(), Error>(Error::BufferStateViolation),
        ),
        ({
            let unmapped = v.unmap_buffer(id.addr, CL_SUCCESS).0;
            let bound = unmapped.set_kernel_arg(name, index, KernelArg::Buffer(id), CL_SUCCESS);
            &&& v.unmap_buffer(id.addr, CL_SUCCESS).1 is Ok
            &&& index <= u32::MAX ==> bound.1 is Ok && bound.0.slots_of(name)[index as u32] == (
            ArgValue::Mem { id: id.addr, handle: v.buffers.records[id.addr].mem })
        }),
{
    let unmapped = v.unmap_buffer(id.addr, CL_SUCCESS).0;
    assert(unmapped.kernels == v.kernels);
    assert(names_differ(v.kernels));
    lemma_slots_after_update(
        unmapped,
        name,
        unmapped.slots_of(name).insert(
            index as u32,
            unmapped.encode(KernelArg::Buffer(id))->Ok_0,
        ),
    );
}

/// Bind-state guard, for a whole list of arguments: where the first argument
/// that cannot be bound is a buffer that the host owns, binding all and
/// dispatching is refused with `BufferStateViolation`, whatever the work
/// sizes are and whatever the device is said to have answered, and nothing
/// changes.
pub proof fn law_bind_all_guard(
    v: AccelView,
    name: Seq<char>,
    global: usize,
    local: usize,
    args: Seq<KernelArg>,
    at: int,
    id: BufferId,
    bound: Seq<i32>,
    enqueued: i32,
    finished: i32,
)
    requires
        v.wf(),
        has_kernel(v.kernels, name),
        0 <= at < args.len(),
        at <= 0x1_0000_0000,
        forall|j: int| #![trigger args[j]] 0 <= j < at ==> v.encode(args[j]) is Ok,
        args[at] == KernelArg::Buffer(id),
        v.buffers.state_of(id.addr) == Some(Ownership::HostOwned),
    ensures
        v.bind_all_commands(name, global, local, args) == Err::<Seq<Command>, Error>(
            Error::BufferStateViolation,
        ),
        v.bind_all_and_dispatch(name, global, local, args, bound, enqueued, finished) == (
            v,
            Err::<(), Error>(Error::BufferStateViolation),
        ),
{
    lemma_first_unencodable(v, args, at);
}

/// The slots of a kernel are what they were last set to.
pub proof fn lemma_slots_after_update(v: AccelView, name: Seq<char>, slots: Map<u32, ArgValue>)
    requires
        names_differ(v.kernels),
        has_kernel(v.kernels, name),
    ensures
        names_differ(v.with_slots(name, slots).kernels),
        has_kernel(v.with_slots(name, slots).kernels, name),
        kernel_pos(v.with_slots(name, slots).kernels, name) == kernel_pos(v.kernels, name),
        v.with_slots(name, slots).slots_of(name) == slots,
        v.with_slots(name, slots).handle_of(name) == v.handle_of(name),
        v.with_slots(name, slots).buffers == v.buffers,
        forall|other: Map<u32, ArgValue>|
            (#[trigger] v.with_slots(name, slots).with_slots(name, other)) == v.with_slots(
                name,
                other,
            ),
{
    let k = kernel_pos(v.kernels, name);
    let w = v.with_slots(name, slots);
    assert(w.kernels[k].name == name);
    let k2 = kernel_pos(w.kernels, name);
    assert(0 <= k2 < w.kernels.len() && w.kernels[k2].name == name);
    if k2 != k {
        assert(v.kernels[k2].name == name);
    }
    assert forall|i: int, j: int|
        0 <= i < w.kernels.len() && 0 <= j < w.kernels.len() && i != j implies #[trigger]
        w.kernels[i].name != #[trigger] w.kernels[j].name by {
        assert(w.kernels[i].name == v.kernels[i].name);
        assert(w.kernels[j].name == v.kernels[j].name);
    }
    assert forall|other: Map<u32, ArgValue>|
        (#[trigger] w.with_slots(name, other)) == v.with_slots(name, other) by {
        assert(w.with_slots(name, other).kernels =~= v.with_slots(name, other).kernels);
    }
}

/// No two kernels share a name.
pub open spec fn names_differ(kernels: Seq<KernelView>) -> bool {
    forall|i: int, j: int|
        0 <= i < kernels.len() && 0 <= j < kernels.len() && i != j ==> #[trigger] kernels[i].name
            != #[trigger] kernels[j].name
}

/// A binding that nothing stands against, answered with success, lays the
/// value into its slot.
pub proof fn lemma_binding_lays_value(v: AccelView, name: Seq<char>, index: usize, arg: KernelArg)
    requires
        has_kernel(v.kernels, name),
        index <= u32::MAX,
        v.encode(arg) is Ok,
    ensures
        v.set_kernel_arg(name, index, arg, CL_SUCCESS) == (
            v.with_slots(name, v.slots_of(name).insert(index as u32, v.encode(arg)->Ok_0)),
            Ok::<(), Error>(()),
        ),
{
}

/// Partitioning invariant: a registered kernel is refused with
/// `InvalidPartitioning` exactly when the global size is not a positive
/// multiple of the local size, before the device is asked and whatever it is
/// said to have answered.
pub proof fn law_partitioning(
    v: AccelView,
    name: Seq<char>,
    global: usize,
    local: usize,
    enqueued: i32,
    finished: i32,
)
    requires
        v.wf(),
        has_kernel(v.kernels, name),
    ensures
        !valid_partition(global, local) ==> v.dispatch_command(name, global, local) == Err::<
            Command,
            Error,
        >(Error::InvalidPartitioning) && v.run_kernel(name, global, local, enqueued, finished)
            == Err::<(), Error>(Error::InvalidPartitioning),
        valid_partition(global, local) && slots_fault(v.buffers, v.slots_of(name)) is None ==> (
        v.run_kernel(name, global, local, CL_SUCCESS, CL_SUCCESS) == Ok::<(), Error>(())),
        valid_partition(global, local) <==> local != 0 && global != 0 && exists|groups: int|
            global == #[trigger] (groups * local),
{
    if valid_partition(global, local) {
        assert(global == (global as int / local as int) * local) by (nonlinear_arith)
            requires
                local > 0,
                global as int % local as int == 0,
        ;
    }
    if local != 0 && global != 0 && exists|groups: int| global == #[trigger] (groups * local) {
        let groups = choose|groups: int| global == #[trigger] (groups * local);
        assert(global as int % local as int == 0) by (nonlinear_arith)
            requires
                local > 0,
                global == groups * local,
        ;
    }
}

/// A dispatch that is let through touches no memory that the host owns:
/// every slot up to the highest bound one is bound, and every buffer in a
/// slot is registered, device-owned, and still the allocation that was
/// bound.
pub proof fn law_dispatch_is_safe(v: AccelView, name: Seq<char>, global: usize, local: usize)
    requires
        v.wf(),
        v.dispatch_command(name, global, local) is Ok,
    ensures
        valid_partition(global, local),
        forall|i: u32, j: u32|
            #![trigger v.slots_of(name).contains_key(i), v.slots_of(name).contains_key(j)]
            i < j && v.slots_of(name).contains_key(j) ==> v.slots_of(name).contains_key(i),
        forall|i: u32| #[trigger]
            v.slots_of(name).contains_key(i) ==> match v.slots_of(name)[i] {
                ArgValue::Mem { id, handle } => v.buffers.has(id) && v.buffers.records[id].mem
                    == handle && v.buffers.records[id].state == Ownership::DeviceOwned,
                _ => true,
            },
{
    let slots = v.slots_of(name);
    assert(slots_fault(v.buffers, slots) is None);
    assert forall|i: u32| slot_fault(v.buffers, slots, i) is None by {
        if slot_fault(v.buffers, slots, i) is Some {
            lemma_least_fault(v.buffers, slots, i);
        }
    }
    assert forall|i: u32, j: u32|
        #![trigger slots.contains_key(i), slots.contains_key(j)]
        i < j && slots.contains_key(j) implies slots.contains_key(i) by {
        assert(slot_fault(v.buffers, slots, i) is None);
    }
    assert forall|i: u32| #[trigger] slots.contains_key(i) implies match slots[i] {
        ArgValue::Mem { id, handle } => v.buffers.has(id) && v.buffers.records[id].mem == handle
            && v.buffers.records[id].state == Ownership::DeviceOwned,
        _ => true,
    } by {
        assert(slot_fault(v.buffers, slots, i) is None);
        assert(value_fault(v.buffers, slots[i]) is None);
    }
}

/// Where some slot has a fault, there is a lowest such slot.
pub proof fn lemma_least_fault(buffers: Buffers, slots: Map<u32, ArgValue>, i: u32)
    requires
        slot_fault(buffers, slots, i) is Some,
    ensures
        slots_fault(buffers, slots) is Some,
    decreases i,
{
    if exists|j: u32| j < i && slot_fault(buffers, slots, j) is Some {
        let j = choose|j: u32| j < i && slot_fault(buffers, slots, j) is Some;
        lemma_least_fault(buffers, slots, j);
    } else {
        assert(slot_fault(buffers, slots, i) is Some && forall|j: u32|
            j < i ==> slot_fault(buffers, slots, j) is None);
        let c = choose|c: u32|
            slot_fault(buffers, slots, c) is Some && forall|j: u32|
                j < c ==> slot_fault(buffers, slots, j) is None;
        assert(slot_fault(buffers, slots, c) is Some);
    }
}

/// The device allocations that a sequence of calls releases, in order.
pub open spec fn released_mems(plan: Seq<Command>) -> Seq<usize>
    decreases plan.len(),
{
    if plan.len() == 0 {
        Seq::empty()
    } else {
        match plan.last() {
            Command::ReleaseMem { mem } => released_mems(plan.drop_last()).push(mem),
            _ => released_mems(plan.drop_last()),
        }
    }
}

/// The kernels that a sequence of calls releases, in order.
pub open spec fn released_kernels(plan: Seq<Command>) -> Seq<usize>
    decreases plan.len(),
{
    if plan.len() == 0 {
        Seq::empty()
    } else {
        match plan.last() {
            Command::ReleaseKernel { kernel } => released_kernels(plan.drop_last()).push(kernel),
            _ => released_kernels(plan.drop_last()),
        }
    }
}

/// The host blocks that a sequence of calls takes back, in order, each by
/// its address.
pub open spec fn reclaimed_blocks(plan: Seq<Command>) -> Seq<usize>
    decreases plan.len(),
{
    if plan.len() == 0 {
        Seq::empty()
    } else {
        match plan.last() {
            Command::ReclaimHost { addr, len } => reclaimed_blocks(plan.drop_last()).push(addr),
            _ => reclaimed_blocks(plan.drop_last()),
        }
    }
}

/// The addresses, among the first `n` registered, of the buffers that the
/// device owns.
pub open spec fn device_owned(buffers: Buffers, n: int) -> Seq<usize>
    decreases n,
{
    if n <= 0 {
        Seq::empty()
    } else if buffers.records[buffers.order[n - 1]].state == Ownership::DeviceOwned {
        device_owned(buffers, n - 1).push(buffers.order[n - 1])
    } else {
        device_owned(buffers, n - 1)
    }
}

/// What two sequences of calls release one after the other is what the first
/// releases, then what the second releases.
pub proof fn lemma_released_concat(a: Seq<Command>, b: Seq<Command>)
    ensures
        released_mems(a + b) == released_mems(a) + released_mems(b),
        released_kernels(a + b) == released_kernels(a) + released_kernels(b),
        reclaimed_blocks(a + b) == reclaimed_blocks(a) + reclaimed_blocks(b),
    decreases b.len(),
{
    if b.len() == 0 {
        assert(a + b =~= a);
        assert(released_mems(a) + released_mems(b) =~= released_mems(a));
        assert(released_kernels(a) + released_kernels(b) =~= released_kernels(a));
        assert(reclaimed_blocks(a) + reclaimed_blocks(b) =~= reclaimed_blocks(a));
    } else {
        lemma_released_concat(a, b.drop_last());
        assert((a + b).drop_last() =~= a + b.drop_last());
        assert((a + b).last() == b.last());
        match b.last() {
            Command::ReleaseMem { mem } => {
                assert(released_mems(a + b) =~= released_mems(a) + released_mems(b));
            },
            Command::ReleaseKernel { kernel } => {
                assert(released_kernels(a + b) =~= released_kernels(a) + released_kernels(b));
            },
            Command::ReclaimHost { addr, len } => {
                assert(reclaimed_blocks(a + b) =~= reclaimed_blocks(a) + reclaimed_blocks(b));
            },
            _ => {},
        }
    }
}

/// What the calls for one buffer release and take back.
pub proof fn lemma_released_of_buffer(addr: usize, record: BufferRecord)
    ensures
        released_mems(buffer_release(addr, record)) == seq![record.mem],
        released_kernels(buffer_release(addr, record)) == Seq::<usize>::empty(),
        reclaimed_blocks(buffer_release(addr, record)) == (if record.state
            == Ownership::DeviceOwned {
            seq![addr]
        } else {
            Seq::<usize>::empty()
        }),
{
    let plan = buffer_release(addr, record);
    reveal_with_fuel(released_mems, 3);
    reveal_with_fuel(released_kernels, 3);
    reveal_with_fuel(reclaimed_blocks, 3);
    if record.state == Ownership::DeviceOwned {
        assert(plan.drop_last() =~= seq![
            Command::ReclaimHost { addr, len: record.byte_len() as usize },
        ]);
        assert(plan.drop_last().drop_last() =~= Seq::<Command>::empty());
        assert(released_mems(plan) =~= seq![record.mem]);
        assert(reclaimed_blocks(plan) =~= seq![addr]);
    } else {
        assert(plan.drop_last() =~= Seq::<Command>::empty());
        assert(released_mems(plan) =~= seq![record.mem]);
    }
}

/// What the calls for the first `n` buffers release and take back.
pub proof fn lemma_released_of_buffers(buffers: Buffers, n: int)
    requires
        0 <= n <= buffers.order.len(),
    ensures
        released_mems(buffers_release(buffers, n)) == Seq::new(
            n as nat,
            |i: int| buffers.records[buffers.order[i]].mem,
        ),
        released_kernels(buffers_release(buffers, n)) == Seq::<usize>::empty(),
        reclaimed_blocks(buffers_release(buffers, n)) == device_owned(buffers, n),
    decreases n,
{
    if n == 0 {
        assert(released_mems(buffers_release(buffers, n)) =~= Seq::new(
            n as nat,
            |i: int| buffers.records[buffers.order[i]].mem,
        ));
    } else {
        let addr = buffers.order[n - 1];
        let record = buffers.records[addr];
        lemma_released_of_buffers(buffers, n - 1);
        lemma_released_of_buffer(addr, record);
        lemma_released_concat(buffers_release(buffers, n - 1), buffer_release(addr, record));
        assert(released_mems(buffers_release(buffers, n)) =~= Seq::new(
            n as nat,
            |i: int| buffers.records[buffers.order[i]].mem,
        ));
        assert(released_kernels(buffers_release(buffers, n)) =~= Seq::<usize>::empty());
        assert(reclaimed_blocks(buffers_release(buffers, n)) =~= device_owned(buffers, n));
    }
}

/// What the calls for the kernels release.
pub proof fn lemma_released_of_kernels(kernels: Seq<KernelView>)
    ensures
        released_mems(kernels_release(kernels)) == Seq::<usize>::empty(),
        released_kernels(kernels_release(kernels)) == Seq::new(
            kernels.len(),
            |i: int| kernels[i].handle,
        ),
        reclaimed_blocks(kernels_release(kernels)) == Seq::<usize>::empty(),
    decreases kernels.len(),
{
    let plan = kernels_release(kernels);
    if kernels.len() == 0 {
        assert(released_kernels(plan) =~= Seq::new(kernels.len(), |i: int| kernels[i].handle));
    } else {
        lemma_released_of_kernels(kernels.drop_last());
        assert(plan.drop_last() =~= kernels_release(kernels.drop_last()));
        assert(released_kernels(plan) =~= Seq::new(kernels.len(), |i: int| kernels[i].handle));
    }
}

/// Idempotent teardown. Tearing a context down releases the device
/// allocation of every registered buffer once, in the order of registration,
/// takes back the memory of exactly the buffers that the device still owns,
/// and releases every registered kernel once. The context that is left owns
/// nothing, and tearing it down again asks for no call at all, so nothing is
/// released twice.
pub proof fn law_teardown_once(v: AccelView)
    requires
        v.wf(),
        v.live,
    ensures
        released_mems(v.teardown_plan()) == Seq::new(
            v.buffers.order.len(),
            |i: int| v.buffers.records[v.buffers.order[i]].mem,
        ),
        reclaimed_blocks(v.teardown_plan()) == device_owned(
            v.buffers,
            v.buffers.order.len() as int,
        ),
        released_kernels(v.teardown_plan()) == Seq::new(
            v.kernels.len(),
            |i: int| v.kernels[i].handle,
        ),
        v.teardown_plan().len() >= 4,
        v.teardown_plan().subrange(v.teardown_plan().len() - 4, v.teardown_plan().len() as int)
            == seq![
            Command::ReleaseQueue { queue: v.queue },
            Command::ReleaseProgram { program: v.program },
            Command::ReleaseDevice { device: v.device },
            Command::ReleaseContext { context: v.context },
        ],
        v.torn_down().wf(),
        v.torn_down().teardown_plan() == Seq::<Command>::empty(),
        v.torn_down().torn_down() == v.torn_down(),
{
    let b = buffers_release(v.buffers, v.buffers.order.len() as int);
    let k = kernels_release(v.kernels);
    let c = seq![
        Command::ReleaseQueue { queue: v.queue },
        Command::ReleaseProgram { program: v.program },
        Command::ReleaseDevice { device: v.device },
        Command::ReleaseContext { context: v.context },
    ];
    lemma_released_of_buffers(v.buffers, v.buffers.order.len() as int);
    lemma_released_of_kernels(v.kernels);
    lemma_released_concat(b, k);
    lemma_released_concat(b + k, c);
    reveal_with_fuel(released_mems, 5);
    reveal_with_fuel(released_kernels, 5);
    reveal_with_fuel(reclaimed_blocks, 5);
    assert(c.drop_last().drop_last().drop_last().drop_last() =~= Seq::<Command>::empty());
    assert(released_mems(c) =~= Seq::<usize>::empty());
    assert(released_kernels(c) =~= Seq::<usize>::empty());
    assert(reclaimed_blocks(c) =~= Seq::<usize>::empty());
    assert(released_mems(v.teardown_plan()) =~= Seq::new(
        v.buffers.order.len(),
        |i: int| v.buffers.records[v.buffers.order[i]].mem,
    ));
    assert(reclaimed_blocks(v.teardown_plan()) =~= device_owned(
        v.buffers,
        v.buffers.order.len() as int,
    ));
    assert(released_kernels(v.teardown_plan()) =~= Seq::new(
        v.kernels.len(),
        |i: int| v.kernels[i].handle,
    ));
    assert(v.teardown_plan().subrange(
        v.teardown_plan().len() - 4,
        v.teardown_plan().len() as int,
    ) =~= c);
}

/// A call that is refused before the device is asked is refused after it
/// too, with the same error, and changes nothing: the answer of the device
/// cannot talk the registry into a step that it would not have asked for.
pub proof fn law_refusal_stands(
    v: AccelView,
    name: Seq<char>,
    id: BufferId,
    count: usize,
    stride: usize,
    index: usize,
    arg: KernelArg,
    handle: usize,
    at: usize,
    status: i32,
)
    requires
        v.wf(),
    ensures
        v.kernel_command(name) is Err ==> v.register_kernel(name, handle, status) == (
            v,
            Err::<(), Error>(v.kernel_command(name)->Err_0),
        ),
        v.buffer_command(id.addr, count, stride) is Err ==> v.register_buffer(
            id.addr,
            count,
            stride,
            handle,
            status,
        ) == (v, Err::<BufferId, Error>(v.buffer_command(id.addr, count, stride)->Err_0)),
        v.map_command(id) is Err ==> v.map_buffer(id, at, status) == (
            v,
            Err::<HostBlock, Error>(v.map_command(id)->Err_0),
        ),
        v.unmap_command(id.addr) is Err ==> v.unmap_buffer(id.addr, status) == (
            v,
            Err::<BufferId, Error>(v.unmap_command(id.addr)->Err_0),
        ),
        v.arg_command(name, index, arg) is Err ==> v.set_kernel_arg(name, index, arg, status) == (
            v,
            Err::<(), Error>(v.arg_command(name, index, arg)->Err_0),
        ),
{
}

/// A record stays until it is released: registering a kernel, registering
/// another buffer, mapping, unmapping and binding keep every registered
/// buffer registered, with its allocation, its element count and its element
/// size. An address that is registered cannot be registered again.
pub proof fn law_records_persist(
    v: AccelView,
    addr: usize,
    name: Seq<char>,
    other: BufferId,
    count: usize,
    stride: usize,
    index: usize,
    arg: KernelArg,
    handle: usize,
    at: usize,
    status: i32,
)
    requires
        v.wf(),
        v.buffers.has(addr),
    ensures
        ({
            let rec = v.buffers.records[addr];
            let same = |w: AccelView|
                w.buffers.has(addr) && w.buffers.records[addr].mem == rec.mem
                    && w.buffers.records[addr].count == rec.count
                    && w.buffers.records[addr].stride == rec.stride;
            &&& same(v.register_kernel(name, handle, status).0)
            &&& same(v.register_buffer(other.addr, count, stride, handle, status).0)
            &&& same(v.map_buffer(other, at, status).0)
            &&& same(v.unmap_buffer(other.addr, status).0)
            &&& same(v.set_kernel_arg(name, index, arg, status).0)
            &&& other.addr != addr ==> same(v.release_buffer(other, status).0)
            &&& v.register_buffer(addr, count, stride, handle, status) == (
                v,
                Err::<BufferId, Error>(
                    if v.live {
                        Error::BufferAlreadyRegistered
                    } else {
                        Error::DeviceUnavailable
                    },
                ),
            )
        }),
{
}

/// The length of a registered block is a whole number of elements and fits
/// the machine: the mapping call asks for exactly `count * stride` bytes.
pub proof fn law_whole_elements(v: AccelView, id: BufferId)
    requires
        v.wf(),
        v.map_command(id) is Ok,
    ensures
        ({
            let rec = v.buffers.records[id.addr];
            &&& v.map_command(id)->Ok_0 is MapBuffer
            &&& v.map_command(id)->Ok_0->MapBuffer_size == rec.count * rec.stride
            &&& rec.stride > 0 ==> (v.map_command(id)->Ok_0->MapBuffer_size as int) % (
            rec.stride as int) == 0
        }),
{
    let rec = v.buffers.records[id.addr];
    assert(v.buffers.records.contains_key(id.addr));
    assert(rec.wf());
    if rec.stride > 0 {
        assert((rec.count * rec.stride) % (rec.stride as int) == 0) by (nonlinear_arith)
            requires
                rec.stride > 0,
        ;
    }
}

/// The context after the first `n` of `args` have been bound to the slots
/// `0` to `n - 1` of the kernel `name`, one binding after the other, each
/// answered with success.
pub open spec fn bind_each(v: AccelView, name: Seq<char>, args: Seq<KernelArg>, n: int) -> AccelView
    decreases n,
{
    if n <= 0 {
        v
    } else {
        bind_each(v, name, args, n - 1).set_kernel_arg(
            name,
            (n - 1) as usize,
            args[n - 1],
            CL_SUCCESS,
        ).0
    }
}

/// Binding one argument after the other lays the values over the slots.
pub proof fn lemma_bind_each(v: AccelView, name: Seq<char>, args: Seq<KernelArg>, n: int)
    requires
        names_differ(v.kernels),
        has_kernel(v.kernels, name),
        0 <= n <= args.len() <= 0x1_0000_0000,
        forall|i: int| 0 <= i < args.len() ==> v.encode(#[trigger] args[i]) is Ok,
    ensures
        bind_each(v, name, args, n) == v.with_slots(
            name,
            overlay(v.slots_of(name), v.encode_all(args), n),
        ),
    decreases n,
{
    let slots = v.slots_of(name);
    let values = v.encode_all(args);
    if n == 0 {
        assert(overlay(slots, values, 0) =~= slots);
        assert(v.with_slots(name, slots).kernels =~= v.kernels);
    } else {
        lemma_bind_each(v, name, args, n - 1);
        let laid = overlay(slots, values, n - 1);
        let before = v.with_slots(name, laid);
        assert(bind_each(v, name, args, n - 1) == before);
        lemma_slots_after_update(v, name, laid);
        assert(v.encode(args[n - 1]) is Ok);
        assert(before.encode(args[n - 1]) == v.encode(args[n - 1]));
        lemma_binding_lays_value(before, name, (n - 1) as usize, args[n - 1]);
        lemma_overlay_step(slots, values, n - 1);
        assert(values[n - 1] == v.encode(args[n - 1])->Ok_0);
        assert(before.slots_of(name).insert((n - 1) as u32, values[n - 1]) == overlay(
            slots,
            values,
            n,
        ));
        assert(before.with_slots(name, overlay(slots, values, n)) == v.with_slots(
            name,
            overlay(slots, values, n),
        ));
    }
}

/// Every one of the first `n` bindings went through if every one of them was
/// answered with success.
pub proof fn lemma_bound_count_all(replies: Seq<i32>, n: int)
    requires
        0 <= n <= replies.len(),
        forall|i: int| 0 <= i < n ==> replies[i] == CL_SUCCESS,
    ensures
        bound_count(replies, n) == n,
    decreases n,
{
    if n > 0 {
        lemma_bound_count_all(replies, n - 1);
    }
}

/// What it means that nothing stands against binding `args` and
/// dispatching.
pub proof fn lemma_unrefused(
    v: AccelView,
    name: Seq<char>,
    global: usize,
    local: usize,
    args: Seq<KernelArg>,
)
    requires
        v.bind_all_refusal(name, global, local, args) is None,
    ensures
        has_kernel(v.kernels, name),
        valid_partition(global, local),
        args.len() <= 0x1_0000_0000,
        forall|i: int| 0 <= i < args.len() ==> v.encode(#[trigger] args[i]) is Ok,
        slots_fault(
            v.buffers,
            overlay(v.slots_of(name), v.encode_all(args), args.len() as int),
        ) is None,
{
    lemma_first_unencodable_is_first(v, args);
}

/// A kernel whose slots are in order, with work sizes that fit, is
/// dispatched where the device answers with success.
pub proof fn lemma_dispatch_after(
    v: AccelView,
    name: Seq<char>,
    slots: Map<u32, ArgValue>,
    global: usize,
    local: usize,
)
    requires
        names_differ(v.kernels),
        has_kernel(v.kernels, name),
        valid_partition(global, local),
        slots_fault(v.buffers, slots) is None,
    ensures
        v.with_slots(name, slots).run_kernel(name, global, local, CL_SUCCESS, CL_SUCCESS) == Ok::<
            (),
            Error,
        >(()),
{
    lemma_slots_after_update(v, name, slots);
}

/// Binding all and dispatching is binding each argument in turn, from slot
/// `0` on, and then dispatching: where nothing is refused and the device
/// answers every call with success, both ways leave the same context, and
/// the dispatch that follows the single bindings goes through as well.
pub proof fn law_bind_all_is_bind_each(
    v: AccelView,
    name: Seq<char>,
    global: usize,
    local: usize,
    args: Seq<KernelArg>,
    bound: Seq<i32>,
)
    requires
        v.wf(),
        v.bind_all_refusal(name, global, local, args) is None,
        bound.len() == args.len(),
        forall|i: int| 0 <= i < bound.len() ==> bound[i] == CL_SUCCESS,
    ensures
        v.bind_all_and_dispatch(name, global, local, args, bound, CL_SUCCESS, CL_SUCCESS) == (
            bind_each(v, name, args, args.len() as int),
            Ok::<(), Error>(()),
        ),
        bind_each(v, name, args, args.len() as int).run_kernel(
            name,
            global,
            local,
            CL_SUCCESS,
            CL_SUCCESS,
        ) == Ok::<(), Error>(()),
{
    let n = args.len() as int;
    let laid = overlay(v.slots_of(name), v.encode_all(args), n);
    assert(names_differ(v.kernels));
    lemma_unrefused(v, name, global, local, args);
    lemma_bound_count_all(bound, n);
    lemma_bind_each(v, name, args, n);
    lemma_dispatch_after(v, name, laid, global, local);
}

/// Laying values over finitely many slots leaves finitely many slots.
pub proof fn lemma_overlay_finite(slots: Map<u32, ArgValue>, values: Seq<ArgValue>, n: int)
    requires
        slots.dom().finite(),
        0 <= n <= values.len(),
        n <= 0x1_0000_0000,
    ensures
        overlay(slots, values, n).dom().finite(),
    decreases n,
{
    if n == 0 {
        assert(overlay(slots, values, 0) =~= slots);
    } else {
        lemma_overlay_finite(slots, values, n - 1);
        lemma_overlay_step(slots, values, n - 1);
    }
}

/// No more bindings count than were asked for.
pub proof fn lemma_bound_count_range(replies: Seq<i32>, n: int)
    requires
        0 <= n,
    ensures
        0 <= bound_count(replies, n) <= n,
    decreases n,
{
    if n > 0 {
        lemma_bound_count_range(replies, n - 1);
    }
}

/// Giving a kernel finitely many slots keeps the context well formed.
pub proof fn lemma_with_slots_wf(v: AccelView, name: Seq<char>, slots: Map<u32, ArgValue>)
    requires
        v.wf(),
        has_kernel(v.kernels, name),
        slots.dom().finite(),
    ensures
        v.with_slots(name, slots).wf(),
{
    let w = v.with_slots(name, slots);
    assert(names_differ(v.kernels));
    lemma_slots_after_update(v, name, slots);
    assert forall|i: int| 0 <= i < w.kernels.len() implies (#[trigger]
        w.kernels[i]).slots.dom().finite() by {
        if i != kernel_pos(v.kernels, name) {
            assert(w.kernels[i] == v.kernels[i]);
        }
    }
}

/// The invariants hold throughout: whatever is done to a well-formed
/// context, and whatever the device answers, the context that is left is
/// well formed. No two kernels share a name; the registered addresses are
/// listed once each; the length of every block is a whole number of elements
/// that fits the machine; and a context that was torn down owns nothing.
pub proof fn law_invariants_hold(
    v: AccelView,
    name: Seq<char>,
    id: BufferId,
    count: usize,
    stride: usize,
    index: usize,
    arg: KernelArg,
    args: Seq<KernelArg>,
    bound: Seq<i32>,
    global: usize,
    local: usize,
    handle: usize,
    at: usize,
    status: i32,
    status2: i32,
)
    requires
        v.wf(),
    ensures
        v.register_kernel(name, handle, status).0.wf(),
        v.register_buffer(id.addr, count, stride, handle, status).0.wf(),
        v.map_buffer(id, at, status).0.wf(),
        v.unmap_buffer(id.addr, status).0.wf(),
        v.release_buffer(id, status).0.wf(),
        v.set_kernel_arg(name, index, arg, status).0.wf(),
        v.bind_all_and_dispatch(name, global, local, args, bound, status, status2).0.wf(),
        v.torn_down().wf(),
{
    assert(v.register_kernel(name, handle, status).0.wf()) by {
        let w = v.register_kernel(name, handle, status).0;
        if w != v {
            assert forall|i: int, j: int|
                0 <= i < w.kernels.len() && 0 <= j < w.kernels.len() && i != j implies #[trigger]
                w.kernels[i].name != #[trigger] w.kernels[j].name by {
                if i == v.kernels.len() {
                    assert(v.kernels[j].name != name);
                } else if j == v.kernels.len() {
                    assert(v.kernels[i].name != name);
                }
            }
        }
    }
    assert(v.register_buffer(id.addr, count, stride, handle, status).0.wf()) by {
        if v.register_buffer(id.addr, count, stride, handle, status).1 is Ok {
            lemma_with_wf(
                v.buffers,
                id.addr,
                BufferRecord { mem: handle, count, stride, state: Ownership::DeviceOwned },
            );
        }
    }
    assert(v.map_buffer(id, at, status).0.wf()) by {
        if v.map_buffer(id, at, status).1 is Ok {
            lemma_with_state_wf(v.buffers, id.addr, Ownership::HostOwned);
        }
    }
    assert(v.unmap_buffer(id.addr, status).0.wf()) by {
        if v.unmap_buffer(id.addr, status).1 is Ok {
            lemma_with_state_wf(v.buffers, id.addr, Ownership::DeviceOwned);
        }
    }
    assert(v.release_buffer(id, status).0.wf()) by {
        if v.buffers.has(id.addr) {
            lemma_without_wf(v.buffers, id.addr);
        }
    }
    assert(v.set_kernel_arg(name, index, arg, status).0.wf()) by {
        if v.set_kernel_arg(name, index, arg, status).1 is Ok {
            lemma_with_slots_wf(
                v,
                name,
                v.slots_of(name).insert(index as u32, v.encode(arg)->Ok_0),
            );
        }
    }
    assert(v.bind_all_and_dispatch(name, global, local, args, bound, status, status2).0.wf()) by {
        if v.bind_all_refusal(name, global, local, args) is None {
            let done = bound_count(bound, args.len() as int);
            lemma_bound_count_range(bound, args.len() as int);
            lemma_overlay_finite(v.slots_of(name), v.encode_all(args), done);
            lemma_with_slots_wf(
                v,
                name,
                overlay(v.slots_of(name), v.encode_all(args), done),
            );
        }
    }
}

/// The progress of a startup after the first `n` of `replies`.
pub open spec fn progress_after(start: Progress, replies: Seq<Reply>, n: int) -> Progress
    decreases n,
{
    if n <= 0 {
        start
    } else {
        progress_after(start, replies, n - 1).advance(replies[n - 1]).0
    }
}

/// Whether the device answers a startup on platform `selector` well enough
/// for the startup to get as far as the compilation and its log: eleven
/// replies, all but the one to the compilation with the status of success,
/// with more platforms than `selector`, and a vendor name that is not empty.
pub open spec fn device_cooperates(selector: usize, replies: Seq<Reply>) -> bool {
    &&& replies.len() == 11
    &&& forall|i: int| 0 <= i < 11 && i != 8 ==> (#[trigger] replies[i]).status == CL_SUCCESS
    &&& selector < replies[0].value <= u32::MAX
    &&& selector < replies[1].handles@.len()
    &&& replies[2].value > 0
}

/// A startup that the device cooperates with asks for ten more calls and
/// ends with the last reply. If the compilation went through, it ends with a
/// fresh context over the context, the device, the program and the queue
/// that the device handed out. If not, it ends with `BuildFailure` and the
/// compiler's log, and with the calls that release all four. Either way
/// nothing follows: every later reply is answered with `DeviceUnavailable`
/// and no call.
pub proof fn law_startup(selector: usize, replies: Seq<Reply>, later: Reply)
    requires
        device_cooperates(selector, replies),
    ensures
        forall|n: int|
            0 <= n < 10 ==> (#[trigger] progress_after(
                Progress::initial(selector),
                replies,
                n,
            )).advance(replies[n]).1 is Issue,
        ({
            let last = progress_after(Progress::initial(selector), replies, 10);
            let end = last.advance(replies[10]);
            &&& last.stage == Stage::BuildLog
            &&& last.device == replies[4].value
            &&& last.context == replies[5].value
            &&& last.queue == replies[6].value
            &&& last.program == replies[7].value
            &&& end.0.stage == Stage::Done
            &&& replies[8].status == CL_SUCCESS ==> end.1 == (Outcome::Ready {
                dev: AccelView::fresh(last.context, last.device, last.program, last.queue),
                log: replies[10].text,
            })
            &&& replies[8].status != CL_SUCCESS ==> end.1 == (Outcome::Failed {
                error: Error::BuildFailure { log: replies[10].text },
                cleanup: seq![
                    Command::ReleaseQueue { queue: last.queue },
                    Command::ReleaseProgram { program: last.program },
                    Command::ReleaseDevice { device: last.device },
                    Command::ReleaseContext { context: last.context },
                ],
            })
            &&& end.0.advance(later) == (
                end.0,
                Outcome::Failed { error: Error::DeviceUnavailable, cleanup: Seq::empty() },
            )
        }),
{
    let start = Progress::initial(selector);
    let p0 = progress_after(start, replies, 0);
    let p1 = progress_after(start, replies, 1);
    let p2 = progress_after(start, replies, 2);
    let p3 = progress_after(start, replies, 3);
    let p4 = progress_after(start, replies, 4);
    let p5 = progress_after(start, replies, 5);
    let p6 = progress_after(start, replies, 6);
    let p7 = progress_after(start, replies, 7);
    let p8 = progress_after(start, replies, 8);
    let p9 = progress_after(start, replies, 9);
    let p10 = progress_after(start, replies, 10);
    assert(p0 == start);
    assert(replies[0].status == CL_SUCCESS);
    assert(p1.stage == Stage::ListPlatforms && p1.selector == selector);
    assert(replies[1].status == CL_SUCCESS);
    assert(p2.stage == Stage::VendorSize);
    assert(replies[2].status == CL_SUCCESS);
    assert(p3.stage == Stage::VendorName);
    assert(replies[3].status == CL_SUCCESS);
    assert(p4.stage == Stage::FindDevice);
    assert(replies[4].status == CL_SUCCESS);
    assert(p5.stage == Stage::CreateContext && p5.device == replies[4].value);
    assert(replies[5].status == CL_SUCCESS);
    assert(p6.stage == Stage::CreateQueue && p6.context == replies[5].value);
    assert(replies[6].status == CL_SUCCESS);
    assert(p7.stage == Stage::CreateProgram && p7.queue == replies[6].value);
    assert(replies[7].status == CL_SUCCESS);
    assert(p8.stage == Stage::BuildProgram && p8.program == replies[7].value);
    assert(p9.stage == Stage::BuildLogSize && p9.build_status == replies[8].status);
    assert(replies[9].status == CL_SUCCESS);
    assert(p10.stage == Stage::BuildLog && p10.build_status == replies[8].status);
    assert(replies[10].status == CL_SUCCESS);
    assert(p10.device == replies[4].value && p10.context == replies[5].value && p10.queue
        == replies[6].value && p10.program == replies[7].value);
    assert forall|n: int| 0 <= n < 10 implies (#[trigger] progress_after(
        start,
        replies,
        n,
    )).advance(replies[n]).1 is Issue by {
        if n == 0 {
        } else if n == 1 {
        } else if n == 2 {
        } else if n == 3 {
        } else if n == 4 {
        } else if n == 5 {
        } else if n == 6 {
        } else if n == 7 {
        } else if n == 8 {
        } else {
            assert(n == 9);
        }
    }
    let end = p10.advance(replies[10]);
    if replies[8].status != CL_SUCCESS {
        assert(p10.cleanup() =~= seq![
            Command::ReleaseQueue { queue: p10.queue },
            Command::ReleaseProgram { program: p10.program },
            Command::ReleaseDevice { device: p10.device },
            Command::ReleaseContext { context: p10.context },
        ]);
    }
    assert(end.0.cleanup() =~= Seq::<Command>::empty());
}

/// A startup ends with its first failure: whatever the state and the reply,
/// a reply that is a failure leaves the machine at its end, where every
/// further reply is answered with `DeviceUnavailable` and with no call, so
/// that nothing is released twice.
pub proof fn law_startup_fails_once(p: Progress, reply: Reply, later: Reply)
    requires
        p.failure(reply) is Some,
    ensures
        p.advance(reply).0.stage == Stage::Done,
        p.advance(reply).1 == (Outcome::Failed {
            error: p.failure(reply)->0,
            cleanup: p.cleanup(),
        }),
        p.advance(reply).0.advance(later) == (
            p.advance(reply).0,
            Outcome::Failed { error: Error::DeviceUnavailable, cleanup: Seq::empty() },
        ),
{
    assert(p.advance(reply).0.cleanup() =~= Seq::<Command>::empty());
}

/// Following the plan: where the calls of a binding and dispatch are made one
/// after the other, each only when it is due, the whole ends in success
/// exactly when every call of the plan was made and answered with success.
/// Otherwise it ends with the error of the last reply, which is the one call
/// that the device refused.
pub proof fn law_following_the_plan(
    v: AccelView,
    name: Seq<char>,
    global: usize,
    local: usize,
    args: Seq<KernelArg>,
    replies: Seq<i32>,
)
    requires
        v.wf(),
        v.bind_all_commands(name, global, local, args) is Ok,
        forall|k: int|
            0 <= k < replies.len() ==> due(
                v.bind_all_commands(name, global, local, args)->Ok_0,
                #[trigger] replies.take(k),
            ) is Some,
        due(v.bind_all_commands(name, global, local, args)->Ok_0, replies) is None,
    ensures
        ({
            let n = args.len() as int;
            let end = v.bind_all_and_dispatch(
                name,
                global,
                local,
                args,
                first_replies(replies, n),
                reply_at(replies, n),
                reply_at(replies, n + 1),
            ).1;
            let all_good = forall|i: int| 0 <= i < replies.len() ==> replies[i] == CL_SUCCESS;
            &&& replies.len() > 0
            &&& all_good ==> replies.len() == n + 2 && end == Ok::<(), Error>(())
            &&& !all_good ==> end == Err::<(), Error>(device_error(replies.last()))
        }),
{
    let n = args.len() as int;
    let plan = v.bind_all_commands(name, global, local, args)->Ok_0;
    let len = replies.len() as int;
    let bound = first_replies(replies, n);
    assert(plan.len() == n + 2);
    if len == 0 {
        assert(due(plan, replies) is Some);
    }
    assert(len <= n + 2) by {
        if len > n + 2 {
            assert(due(plan, replies.take(n + 2)) is Some);
        }
    }
    let last = len - 1;
    assert forall|i: int| 0 <= i < last implies replies[i] == CL_SUCCESS by {
        assert(due(plan, replies.take(last)) is Some);
        assert(replies.take(last)[i] == replies[i]);
    }
    if replies[last] == CL_SUCCESS {
        assert(len == n + 2);
        assert(bound == replies.take(n));
        lemma_bound_count_all(bound, n);
    } else {
        if last < n {
            assert(bound == replies);
            lemma_bound_count_all(bound, last);
            lemma_bound_count_stops(bound, last, n);
        } else {
            assert(bound == replies.take(n));
            lemma_bound_count_all(bound, n);
        }
    }
}

/// A submission that the device refuses ends the dispatch with that refusal:
/// no wait is due, and whatever is given as the reply to the wait, the
/// dispatch ends with the error of the submission. After a submission that
/// went through, the wait for the queue is due, and the dispatch ends as the
/// wait does.
pub proof fn law_wait_follows_submission(
    v: AccelView,
    name: Seq<char>,
    global: usize,
    local: usize,
    enqueued: i32,
    finished: i32,
)
    requires
        v.wf(),
        v.dispatch_command(name, global, local) is Ok,
    ensures
        enqueued != CL_SUCCESS ==> v.after_enqueue(enqueued) == Err::<Command, Error>(
            device_error(enqueued),
        ) && v.run_kernel(name, global, local, enqueued, finished) == Err::<(), Error>(
            device_error(enqueued),
        ),
        enqueued == CL_SUCCESS ==> v.after_enqueue(enqueued) == Ok::<Command, Error>(
            Command::Finish { queue: v.queue },
        ) && v.run_kernel(name, global, local, enqueued, finished) == (if finished == CL_SUCCESS {
            Ok::<(), Error>(())
        } else {
            Err::<(), Error>(device_error(finished))
        }),
{
}

} // verus!
