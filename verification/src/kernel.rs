//! The kernel registry: the compiled kernels by name, and what is bound to
//! the argument slots of each.
use vstd::prelude::*;
use vstd::std_specs::hash::*;
use vstd::set_lib::*;
use std::collections::HashMap;
use crate::buffer::{BufferRegistry, Buffers, Ownership};
use crate::command::ArgValue;
use crate::error::Error;

verus! {

broadcast use vstd::std_specs::hash::group_hash_axioms;

/// A registered kernel as a mathematical value.
pub struct KernelView {
    /// The name it was registered under.
    pub name: Seq<char>,
    /// The compiled kernel on the device.
    pub handle: usize,
    /// What has been bound, by slot index.
    pub slots: Map<u32, ArgValue>,
}

/// Whether a kernel named `name` is among `kernels`.
pub open spec fn has_kernel(kernels: Seq<KernelView>, name: Seq<char>) -> bool {
    exists|i: int| 0 <= i < kernels.len() && #[trigger] kernels[i].name == name
}

/// The position of the kernel named `name`, where there is one.
pub open spec fn kernel_pos(kernels: Seq<KernelView>, name: Seq<char>) -> int {
    choose|i: int| 0 <= i < kernels.len() && #[trigger] kernels[i].name == name
}

/// No two kernels share a name, and each has finitely many slots bound.
pub open spec fn kernels_wf(kernels: Seq<KernelView>) -> bool {
    &&& forall|i: int, j: int|
        0 <= i < kernels.len() && 0 <= j < kernels.len() && i != j ==> #[trigger] kernels[i].name
            != #[trigger] kernels[j].name
    &&& forall|i: int| 0 <= i < kernels.len() ==> (#[trigger] kernels[i]).slots.dom().finite()
}

/// What is wrong with a bound value, given the buffers as they are now.
///
/// A scalar is always in order. A device allocation must still be the one of
/// a registered buffer, and that buffer must be device-owned.
pub open spec fn value_fault(buffers: Buffers, value: ArgValue) -> Option<Error> {
    match value {
        ArgValue::Mem { id, handle } => {
            if !buffers.has(id) || buffers.records[id].mem != handle {
                Some(Error::UnknownBuffer)
            } else if buffers.records[id].state == Ownership::HostOwned {
                Some(Error::BufferStateViolation)
            } else {
                None
            }
        },
        _ => None,
    }
}

/// What is wrong with slot `i`: it was never bound although a later slot
/// was, or its value is out of order.
pub open spec fn slot_fault(buffers: Buffers, slots: Map<u32, ArgValue>, i: u32) -> Option<Error> {
    if slots.contains_key(i) {
        value_fault(buffers, slots[i])
    } else if exists|j: u32| i < j && slots.contains_key(j) {
        Some(Error::UnboundArgument)
    } else {
        None
    }
}

/// What stands against a dispatch with these slots: the fault of the lowest
/// slot that has one, or nothing.
pub open spec fn slots_fault(buffers: Buffers, slots: Map<u32, ArgValue>) -> Option<Error> {
    if exists|i: u32| slot_fault(buffers, slots, i) is Some {
        let i = choose|i: u32|
            slot_fault(buffers, slots, i) is Some && forall|j: u32|
                j < i ==> slot_fault(buffers, slots, j) is None;
        slot_fault(buffers, slots, i)
    } else {
        None
    }
}

/// The slots of a kernel after `values[0]` to `values[n - 1]` have been laid
/// into the slots `0` to `n - 1`, over what was there.
pub open spec fn overlay(slots: Map<u32, ArgValue>, values: Seq<ArgValue>, n: int) -> Map<
    u32,
    ArgValue,
> {
    Map::new(
        |i: u32| (i as int) < n || slots.contains_key(i),
        |i: u32|
            if (i as int) < n {
                values[i as int]
            } else {
                slots[i]
            },
    )
}

/// Laying no value leaves the slots as they are, and laying one more value
/// is one more insertion.
pub proof fn lemma_overlay_step(slots: Map<u32, ArgValue>, values: Seq<ArgValue>, n: int)
    requires
        0 <= n < values.len(),
        n < 0x1_0000_0000,
    ensures
        overlay(slots, values, 0) == slots,
        overlay(slots, values, n + 1) == overlay(slots, values, n).insert(n as u32, values[n]),
{
    assert(overlay(slots, values, 0) =~= slots);
    assert(overlay(slots, values, n + 1) =~= overlay(slots, values, n).insert(
        n as u32,
        values[n],
    ));
}

/// The slot indices below `n`.
pub open spec fn below(n: nat) -> Set<u32> {
    Set::new(|j: u32| (j as nat) < n)
}

/// There are `n` indices below `n`.
pub proof fn lemma_below_len(n: nat)
    requires
        n <= 0x1_0000_0000,
    ensures
        below(n).finite(),
        below(n).len() == n,
    decreases n,
{
    if n == 0 {
        assert(below(n) =~= Set::empty());
    } else {
        lemma_below_len((n - 1) as nat);
        assert(below(n) =~= below((n - 1) as nat).insert((n - 1) as u32));
    }
}

/// A finite set of slot indices has at most as many members as there are
/// indices.
pub proof fn lemma_indices_bounded(dom: Set<u32>)
    requires
        dom.finite(),
    ensures
        dom.len() <= 0x1_0000_0000,
{
    lemma_below_len(0x1_0000_0000);
    assert(dom.subset_of(below(0x1_0000_0000)));
    lemma_len_subset(dom, below(0x1_0000_0000));
}

/// A finite set of indices that holds every index below `n` has at least `n`
/// members; with exactly `n` it holds nothing else, with more it holds one
/// that is not below `n`.
pub proof fn lemma_prefix_members(dom: Set<u32>, n: nat)
    requires
        dom.finite(),
        n <= 0x1_0000_0000,
        forall|j: u32| (j as nat) < n ==> dom.contains(j),
    ensures
        dom.len() >= n,
        dom.len() == n ==> forall|j: u32| dom.contains(j) ==> (j as nat) < n,
        dom.len() > n ==> exists|j: u32| dom.contains(j) && (j as nat) >= n,
{
    lemma_below_len(n);
    assert(below(n).subset_of(dom));
    lemma_len_subset(below(n), dom);
    if dom.len() == n {
        lemma_subset_equality(below(n), dom);
        assert forall|j: u32| dom.contains(j) implies (j as nat) < n by {
            assert(below(n).contains(j));
        }
    } else {
        if forall|j: u32| dom.contains(j) ==> (j as nat) < n {
            assert(dom.subset_of(below(n)));
            lemma_len_subset(dom, below(n));
        }
    }
}

/// One registered kernel.
#[derive(Debug)]
pub struct KernelRecord {
    name: String,
    handle: usize,
    slots: HashMap<u32, ArgValue>,
}

impl View for KernelRecord {
    type V = KernelView;

    closed spec fn view(&self) -> KernelView {
        KernelView { name: self.name@, handle: self.handle, slots: self.slots@ }
    }
}

/// The registry of kernels of one device context, in the order in which they
/// were registered.
#[derive(Debug)]
pub struct KernelRegistry {
    list: Vec<KernelRecord>,
}

impl View for KernelRegistry {
    type V = Seq<KernelView>;

    closed spec fn view(&self) -> Seq<KernelView> {
        Seq::new(self.list@.len(), |i: int| self.list@[i]@)
    }
}

impl KernelRegistry {
    /// The invariant of the registry.
    pub open spec fn wf(&self) -> bool {
        kernels_wf(self@)
    }

    /// A registry with no kernel.
    pub fn new() -> (r: KernelRegistry)
        ensures
            r@ == Seq::<KernelView>::empty(),
            r.wf(),
    {
        let r = KernelRegistry { list: Vec::new() };
        assert(r@ =~= Seq::<KernelView>::empty());
        r
    }

    /// The number of registered kernels.
    pub fn len(&self) -> (n: usize)
        ensures
            n == self@.len(),
    {
        self.list.len()
    }

    /// The position of the kernel named `name`, if it is registered.
    pub fn find(&self, name: &String) -> (r: Option<usize>)
        requires
            self.wf(),
        ensures
            r is Some <==> has_kernel(self@, name@),
            r is Some ==> r->0 == kernel_pos(self@, name@) && r->0 < self@.len()
                && self@[r->0 as int].name == name@,
    {
        let mut i: usize = 0;
        while i < self.list.len()
            invariant
                self.wf(),
                i <= self.list@.len(),
                forall|j: int| 0 <= j < i ==> (#[trigger] self@[j]).name != name@,
            decreases self.list@.len() - i,
        {
            if self.list[i].name == *name {
                proof {
                    assert(self@[i as int].name == name@);
                    let c = kernel_pos(self@, name@);
                    assert(0 <= c < self@.len() && self@[c].name == name@);
                    assert(c == i);
                }
                return Some(i);
            }
            i = i + 1;
        }
        None
    }

    /// The device handle of the kernel at position `k`.
    pub(crate) fn handle_at(&self, k: usize) -> (h: usize)
        requires
            k < self@.len(),
        ensures
            h == self@[k as int].handle,
    {
        self.list[k].handle
    }

    /// Enters a kernel under a name that is not yet there, with no slot bound.
    pub(crate) fn push(&mut self, name: String, handle: usize)
        requires
            old(self).wf(),
            !has_kernel(old(self)@, name@),
        ensures
            final(self)@ == old(self)@.push(
                KernelView { name: name@, handle, slots: Map::empty() },
            ),
            final(self).wf(),
    {
        self.list.push(KernelRecord { name, handle, slots: HashMap::new() });
        assert(self@ =~= old(self)@.push(KernelView { name: name@, handle, slots: Map::empty() }));
    }

    /// Records `value` in slot `index` of the kernel at position `k`,
    /// in place of what was there.
    pub(crate) fn bind(&mut self, k: usize, index: u32, value: ArgValue)
        requires
            old(self).wf(),
            k < old(self)@.len(),
        ensures
            final(self)@ == old(self)@.update(
                k as int,
                KernelView {
                    slots: old(self)@[k as int].slots.insert(index, value),
                    ..old(self)@[k as int]
                },
            ),
            final(self).wf(),
    {
        self.list[k].slots.insert(index, value);
        assert(self@ =~= old(self)@.update(
            k as int,
            KernelView {
                slots: old(self)@[k as int].slots.insert(index, value),
                ..old(self)@[k as int]
            },
        ));
        assert forall|i: int, j: int|
            0 <= i < self@.len() && 0 <= j < self@.len() && i != j implies #[trigger] self@[i].name
            != #[trigger] self@[j].name by {
            assert(self@[i].name == old(self)@[i].name);
            assert(self@[j].name == old(self)@[j].name);
        }
    }

    /// Tells what stands against a dispatch of the kernel at position `k`.
    pub(crate) fn check_slots(&self, k: usize, buffers: &BufferRegistry) -> (r: Option<Error>)
        requires
            self.wf(),
            k < self@.len(),
        ensures
            r == slots_fault(buffers@, self@[k as int].slots),
    {
        check_slot_map(&self.list[k].slots, buffers)
    }

    /// Tells what would stand against a dispatch of the kernel at position
    /// `k` once `values` were laid into its first slots.
    pub(crate) fn check_overlay(
        &self,
        k: usize,
        values: &Vec<ArgValue>,
        buffers: &BufferRegistry,
    ) -> (r: Option<Error>)
        requires
            self.wf(),
            k < self@.len(),
            values@.len() <= 0x1_0000_0000,
        ensures
            r == slots_fault(
                buffers@,
                overlay(self@[k as int].slots, values@, values@.len() as int),
            ),
    {
        let ghost orig = self@[k as int].slots;
        let mut slots = self.list[k].slots.clone();
        let n: usize = values.len();
        let mut i: usize = 0;
        proof {
            assert(overlay(orig, values@, 0) =~= orig);
        }
        while i < n
            invariant
                n == values@.len(),
                n <= 0x1_0000_0000,
                i <= n,
                slots@ == overlay(orig, values@, i as int),
            decreases n - i,
        {
            proof {
                lemma_overlay_step(orig, values@, i as int);
            }
            slots.insert(i as u32, values[i]);
            i = i + 1;
        }
        check_slot_map(&slots, buffers)
    }

    /// Tells what is wrong with one bound value.
    pub fn check_value(value: &ArgValue, buffers: &BufferRegistry) -> (r: Option<Error>)
        ensures
            r == value_fault(buffers@, *value),
    {
        match value {
            ArgValue::Mem { id, handle } => {
                match buffers.get(*id) {
                    None => Some(Error::UnknownBuffer),
                    Some(rec) => {
                        if rec.mem != *handle {
                            Some(Error::UnknownBuffer)
                        } else {
                            match rec.state {
                                Ownership::HostOwned => Some(Error::BufferStateViolation),
                                Ownership::DeviceOwned => None,
                            }
                        }
                    },
                }
            },
            _ => None,
        }
    }
}

/// Tells what stands against a dispatch with these slots.
pub fn check_slot_map(slots: &HashMap<u32, ArgValue>, buffers: &BufferRegistry) -> (r: Option<
    Error,
>)
    ensures
        r == slots_fault(buffers@, slots@),
{
    let ghost b = buffers@;
    let ghost m = slots@;
    assert(m.dom().finite());
    proof {
        lemma_indices_bounded(m.dom());
    }
    let n: usize = slots.len();
    let mut i: usize = 0;
    while i < n
        invariant
            m == slots@,
            m.dom().finite(),
            n == m.dom().len(),
            n <= 0x1_0000_0000,
            b == buffers@,
            i <= n,
            forall|j: u32| (j as nat) < i ==> m.contains_key(j) && value_fault(b, m[j]) is None,
        decreases n - i,
    {
        let idx: u32 = i as u32;
        proof {
            lemma_prefix_members(m.dom(), i as nat);
        }
        let fault: Option<Error> = match slots.get(&idx) {
            None => {
                proof {
                    let j = choose|j: u32| m.dom().contains(j) && (j as nat) >= i;
                    assert(idx < j && m.contains_key(j));
                }
                Some(Error::UnboundArgument)
            },
            Some(value) => {
                assert(m.contains_key(idx) && m[idx] == *value);
                KernelRegistry::check_value(value, buffers)
            },
        };
        assert(slot_fault(b, m, idx) == fault);
        if fault.is_some() {
            proof {
                assert forall|j: u32| j < idx implies slot_fault(b, m, j) is None by {
                    assert((j as nat) < i);
                }
                let c = choose|c: u32|
                    slot_fault(b, m, c) is Some && forall|j: u32|
                        j < c ==> slot_fault(b, m, j) is None;
                assert(c == idx) by {
                    if c < idx {
                        assert(slot_fault(b, m, c) is None);
                    } else if c > idx {
                        assert(slot_fault(b, m, idx) is None);
                    }
                }
            }
            return fault;
        }
        assert forall|j: u32| (j as nat) < i + 1 implies m.contains_key(j) && value_fault(
            b,
            m[j],
        ) is None by {
            if (j as nat) == i {
                assert(j == idx);
            }
        }
        i = i + 1;
    }
    proof {
        lemma_prefix_members(m.dom(), n as nat);
        assert forall|j: u32| slot_fault(b, m, j) is None by {
            if (j as nat) < n {
            } else {
                assert(!m.contains_key(j));
                assert forall|h: u32| j < h implies !m.contains_key(h) by {
                    if m.dom().contains(h) {
                        assert((h as nat) < n);
                    }
                }
            }
        }
    }
    None
}

} // verus!
