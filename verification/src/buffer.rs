//! The buffer registry: which memory blocks are registered, and who owns each.
use vstd::prelude::*;
use vstd::std_specs::hash::*;
use std::collections::HashMap;

verus! {

broadcast use vstd::std_specs::hash::group_hash_axioms;

/// Which side may touch the memory of a buffer.
#[derive(Clone, Copy, Debug, PartialEq, Eq, Structural)]
pub enum Ownership {
    /// The device may read and write the memory; the host must not touch it.
    DeviceOwned,
    /// The host may read and write the memory; no kernel may refer to it.
    HostOwned,
}

/// The identity of a registered buffer: the address of the host block that it
/// was registered with.
#[derive(Clone, Copy, Debug, PartialEq, Eq, Structural, Hash)]
pub struct BufferId {
    pub addr: usize,
}

/// What the registry knows of one buffer.
#[derive(Clone, Copy, Debug, PartialEq, Eq, Structural)]
pub struct BufferRecord {
    /// The device allocation.
    pub mem: usize,
    /// The number of elements.
    pub count: usize,
    /// The size of one element in bytes.
    pub stride: usize,
    /// Who owns the memory now.
    pub state: Ownership,
}

impl BufferRecord {
    /// The length of the block in bytes: always a whole number of elements.
    pub open spec fn byte_len(self) -> int {
        self.count * self.stride
    }

    /// The length fits the machine.
    pub open spec fn wf(self) -> bool {
        self.byte_len() <= usize::MAX
    }

    /// The length of the block in bytes.
    pub fn len_bytes(&self) -> (n: usize)
        requires
            self.wf(),
        ensures
            n == self.byte_len(),
    {
        self.count * self.stride
    }
}

/// A block of host memory that the host owns again: `count` elements of
/// `stride` bytes at `addr`, the address the block was registered with.
#[derive(Clone, Copy, Debug, PartialEq, Eq, Structural)]
pub struct HostBlock {
    pub addr: usize,
    pub count: usize,
    pub stride: usize,
}

/// The registry as a mathematical value: the records by address, and the
/// addresses in the order in which they were registered.
pub struct Buffers {
    pub records: Map<usize, BufferRecord>,
    pub order: Seq<usize>,
}

impl Buffers {
    /// The registry with nothing in it.
    pub open spec fn empty() -> Buffers {
        Buffers { records: Map::empty(), order: Seq::empty() }
    }

    /// `order` lists exactly the registered addresses, each once, and every
    /// record has a length that fits the machine.
    pub open spec fn wf(self) -> bool {
        &&& self.order.no_duplicates()
        &&& forall|a: usize| #[trigger] self.records.contains_key(a) <==> self.order.contains(a)
        &&& forall|a: usize| #[trigger]
            self.records.contains_key(a) ==> self.records[a].wf()
    }

    pub open spec fn has(self, addr: usize) -> bool {
        self.records.contains_key(addr)
    }

    /// The state of the buffer at `addr`, if there is one.
    pub open spec fn state_of(self, addr: usize) -> Option<Ownership> {
        if self.has(addr) {
            Some(self.records[addr].state)
        } else {
            None
        }
    }

    /// The registry with one more buffer, registered last.
    pub open spec fn with(self, addr: usize, record: BufferRecord) -> Buffers {
        Buffers { records: self.records.insert(addr, record), order: self.order.push(addr) }
    }

    /// The registry with the buffer at `addr` in another state.
    pub open spec fn with_state(self, addr: usize, state: Ownership) -> Buffers {
        Buffers {
            records: self.records.insert(addr, BufferRecord { state, ..self.records[addr] }),
            order: self.order,
        }
    }

    /// The registry without the buffer at `addr`.
    pub open spec fn without(self, addr: usize) -> Buffers {
        Buffers {
            records: self.records.remove(addr),
            order: self.order.remove(self.order.index_of(addr)),
        }
    }
}

/// Registering a new address keeps the registry well formed.
pub proof fn lemma_with_wf(b: Buffers, addr: usize, record: BufferRecord)
    requires
        b.wf(),
        !b.has(addr),
        record.wf(),
    ensures
        b.with(addr, record).wf(),
{
    let n = b.with(addr, record);
    assert(n.order.no_duplicates()) by {
        assert forall|i: int, j: int| 0 <= i < n.order.len() && 0 <= j < n.order.len() && i != j
            implies n.order[i] != n.order[j] by {
            if i == b.order.len() {
                assert(b.order.contains(n.order[j]));
            } else if j == b.order.len() {
                assert(b.order.contains(n.order[i]));
            }
        }
    }
    assert forall|a: usize| #[trigger] n.records.contains_key(a) <==> n.order.contains(a) by {
        if n.order.contains(a) {
            let i = choose|i: int| 0 <= i < n.order.len() && n.order[i] == a;
            if i < b.order.len() {
                assert(b.order[i] == a);
                assert(b.order.contains(a));
            }
        }
        if n.records.contains_key(a) {
            if a == addr {
                assert(n.order[b.order.len() as int] == a);
            } else {
                assert(b.order.contains(a));
                let i = choose|i: int| 0 <= i < b.order.len() && b.order[i] == a;
                assert(n.order[i] == a);
            }
        }
    }
}

/// Changing the state of a registered buffer keeps the registry well formed.
pub proof fn lemma_with_state_wf(b: Buffers, addr: usize, state: Ownership)
    requires
        b.wf(),
        b.has(addr),
    ensures
        b.with_state(addr, state).wf(),
{
    let n = b.with_state(addr, state);
    assert forall|a: usize| #[trigger] n.records.contains_key(a) <==> n.order.contains(a) by {
        assert(b.records.contains_key(a) <==> b.order.contains(a));
    }
    assert forall|a: usize| #[trigger] n.records.contains_key(a) implies n.records[a].wf() by {
        assert(b.records.contains_key(a));
    }
}

/// Dropping a registered buffer keeps the registry well formed.
pub proof fn lemma_without_wf(b: Buffers, addr: usize)
    requires
        b.wf(),
        b.has(addr),
    ensures
        b.without(addr).wf(),
        !b.without(addr).has(addr),
        b.without(addr).order.len() == b.order.len() - 1,
{
    let n = b.without(addr);
    assert(b.order.contains(addr));
    let k = b.order.index_of(addr);
    assert(0 <= k < b.order.len() && b.order[k] == addr);
    assert forall|i: int| 0 <= i < n.order.len() implies n.order[i] == (if i < k {
        b.order[i]
    } else {
        b.order[i + 1]
    }) by {}
    assert(n.order.no_duplicates());
    assert forall|a: usize| #[trigger] n.records.contains_key(a) <==> n.order.contains(a) by {
        if n.order.contains(a) {
            let i = choose|i: int| 0 <= i < n.order.len() && n.order[i] == a;
            if i < k {
                assert(b.order[i] == a);
            } else {
                assert(b.order[i + 1] == a);
            }
            assert(b.order.contains(a));
            assert(a != addr);
        }
        if n.records.contains_key(a) {
            assert(b.order.contains(a));
            let i = choose|i: int| 0 <= i < b.order.len() && b.order[i] == a;
            if i < k {
                assert(n.order[i] == a);
            } else {
                assert(n.order[i - 1] == a);
            }
        }
    }
    assert forall|a: usize| #[trigger] n.records.contains_key(a) implies n.records[a].wf() by {
        assert(b.records.contains_key(a));
    }
}

/// The registry of buffers of one device context.
#[derive(Debug)]
pub struct BufferRegistry {
    records: HashMap<usize, BufferRecord>,
    order: Vec<usize>,
}

impl View for BufferRegistry {
    type V = Buffers;

    closed spec fn view(&self) -> Buffers {
        Buffers { records: self.records@, order: self.order@ }
    }
}

impl BufferRegistry {
    /// The invariant of the registry.
    pub open spec fn wf(&self) -> bool {
        self@.wf()
    }

    /// A registry with no buffer.
    pub fn new() -> (r: BufferRegistry)
        ensures
            r@ == Buffers::empty(),
            r.wf(),
    {
        BufferRegistry { records: HashMap::new(), order: Vec::new() }
    }

    /// The number of registered buffers.
    pub fn len(&self) -> (n: usize)
        ensures
            n == self@.order.len(),
    {
        self.order.len()
    }

    /// The address of the buffer registered `i`-th among those still there.
    pub(crate) fn addr_at(&self, i: usize) -> (addr: usize)
        requires
            i < self@.order.len(),
        ensures
            addr == self@.order[i as int],
    {
        self.order[i]
    }

    /// The record of the buffer at `addr`, if one is registered there.
    pub fn get(&self, addr: usize) -> (r: Option<BufferRecord>)
        ensures
            r == (if self@.has(addr) {
                Some(self@.records[addr])
            } else {
                None
            }),
    {
        match self.records.get(&addr) {
            Some(rec) => Some(*rec),
            None => None,
        }
    }

    /// Enters a buffer that is not yet there.
    pub(crate) fn insert(&mut self, addr: usize, record: BufferRecord)
        requires
            old(self).wf(),
            !old(self)@.has(addr),
            record.wf(),
        ensures
            final(self)@ == old(self)@.with(addr, record),
            final(self).wf(),
    {
        proof {
            lemma_with_wf(self@, addr, record);
        }
        self.records.insert(addr, record);
        self.order.push(addr);
    }

    /// Sets the state of a registered buffer.
    pub(crate) fn set_state(&mut self, addr: usize, state: Ownership)
        requires
            old(self).wf(),
            old(self)@.has(addr),
        ensures
            final(self)@ == old(self)@.with_state(addr, state),
            final(self).wf(),
    {
        proof {
            lemma_with_state_wf(self@, addr, state);
        }
        let rec = self.get(addr).unwrap();
        self.records.insert(
            addr,
            BufferRecord { mem: rec.mem, count: rec.count, stride: rec.stride, state },
        );
    }

    /// Takes a registered buffer out.
    pub(crate) fn remove(&mut self, addr: usize) -> (r: BufferRecord)
        requires
            old(self).wf(),
            old(self)@.has(addr),
        ensures
            r == old(self)@.records[addr],
            final(self)@ == old(self)@.without(addr),
            final(self).wf(),
    {
        proof {
            lemma_without_wf(self@, addr);
        }
        let rec = self.get(addr).unwrap();
        self.records.remove(&addr);
        let n: usize = self.order.len();
        let mut i: usize = 0;
        assert(self.order@.contains(addr));
        while self.order[i] != addr
            invariant
                n == self.order@.len(),
                self.order@ == old(self)@.order,
                self.order@.contains(addr),
                i < self.order@.len(),
                forall|j: int| 0 <= j < i ==> self.order@[j] != addr,
            decreases self.order@.len() - i,
        {
            i = i + 1;
            proof {
                let k = choose|k: int| 0 <= k < self.order@.len() && self.order@[k] == addr;
                assert(k >= i);
            }
        }
        proof {
            let k = old(self)@.order.index_of(addr);
            assert(0 <= k < self.order@.len() && self.order@[k] == addr);
            assert(k == i);
        }
        self.order.remove(i);
        rec
    }
}

} // verus!
