//! Giving up everything a context owns, once and in a fixed order.
use vstd::prelude::*;
use crate::accel::{push_buffer_release, Accel};
use crate::buffer::BufferRegistry;
use crate::command::Command;
use crate::kernel::{KernelRegistry, KernelView};
use crate::model::{buffers_release, kernels_release};
use crate::status::CL_SUCCESS;

verus! {

broadcast use crate::accel::lemma_accel_view;

/// A call of the teardown that the device answered with a status other than
/// success.
#[derive(Clone, Copy, Debug, PartialEq, Eq, Structural)]
pub struct ReleaseFailure {
    /// The call that failed.
    pub command: Command,
    /// The status it was answered with.
    pub code: i32,
}

/// The failures among the first `n` calls of `plan`, in the order of the
/// plan: every call that has an answer other than success. A call without an
/// answer is not counted.
pub open spec fn release_failures(plan: Seq<Command>, statuses: Seq<i32>, n: int) -> Seq<
    ReleaseFailure,
>
    decreases n,
{
    if n <= 0 {
        Seq::empty()
    } else {
        let before = release_failures(plan, statuses, n - 1);
        if n - 1 < plan.len() && n - 1 < statuses.len() && statuses[n - 1] != CL_SUCCESS {
            before.push(ReleaseFailure { command: plan[n - 1], code: statuses[n - 1] })
        } else {
            before
        }
    }
}

impl Accel {
    /// Tears the context down: gives the calls that release everything it
    /// owns, and forgets all of it.
    ///
    /// The calls are to be made in the order given, every one of them, also
    /// after one of them has failed. A second teardown gives no call at all,
    /// so that nothing is released twice.
    pub fn teardown(&mut self) -> (plan: Vec<Command>)
        requires
            old(self).wf(),
        ensures
            final(self).wf(),
            plan@ == old(self)@.teardown_plan(),
            final(self)@ == old(self)@.torn_down(),
    {
        let mut plan: Vec<Command> = Vec::new();
        if !self.live {
            proof {
                assert(self@.kernels =~= Seq::<KernelView>::empty());
            }
            return plan;
        }
        let ghost before = self@;
        let nb: usize = self.buffers.len();
        let mut i: usize = 0;
        while i < nb
            invariant
                self.wf(),
                self@ == before,
                nb == before.buffers.order.len(),
                i <= nb,
                plan@ == buffers_release(before.buffers, i as int),
            decreases nb - i,
        {
            let addr = self.buffers.addr_at(i);
            assert(before.buffers.order.contains(addr));
            let rec = self.buffers.get(addr).unwrap();
            push_buffer_release(&mut plan, addr, &rec);
            i = i + 1;
        }
        let ghost base = plan@;
        let nk: usize = self.kernels.len();
        let mut j: usize = 0;
        while j < nk
            invariant
                self.wf(),
                self@ == before,
                nk == before.kernels.len(),
                j <= nk,
                plan@ == base + Seq::new(
                    j as nat,
                    |h: int| Command::ReleaseKernel { kernel: before.kernels[h].handle },
                ),
            decreases nk - j,
        {
            plan.push(Command::ReleaseKernel { kernel: self.kernels.handle_at(j) });
            j = j + 1;
            proof {
                assert(plan@ =~= base + Seq::new(
                    j as nat,
                    |h: int| Command::ReleaseKernel { kernel: before.kernels[h].handle },
                ));
            }
        }
        proof {
            assert(Seq::new(
                nk as nat,
                |h: int| Command::ReleaseKernel { kernel: before.kernels[h].handle },
            ) =~= kernels_release(before.kernels));
        }
        plan.push(Command::ReleaseQueue { queue: self.queue });
        plan.push(Command::ReleaseProgram { program: self.program });
        plan.push(Command::ReleaseDevice { device: self.device });
        plan.push(Command::ReleaseContext { context: self.context });
        proof {
            assert(plan@ =~= before.teardown_plan());
        }
        self.kernels = KernelRegistry::new();
        self.buffers = BufferRegistry::new();
        self.live = false;
        plan
    }
}

/// Collects the calls of a teardown that failed: `statuses[i]` is the device's
/// answer to `plan[i]`.
///
/// A failure stops nothing: the report is read when every call has been made.
pub fn teardown_report(plan: &Vec<Command>, statuses: &Vec<i32>) -> (failures: Vec<
    ReleaseFailure,
>)
    ensures
        failures@ == release_failures(plan@, statuses@, plan@.len() as int),
{
    let mut failures: Vec<ReleaseFailure> = Vec::new();
    let n: usize = plan.len();
    let mut i: usize = 0;
    while i < n
        invariant
            n == plan@.len(),
            i <= n,
            failures@ == release_failures(plan@, statuses@, i as int),
        decreases n - i,
    {
        if i < statuses.len() && statuses[i] != CL_SUCCESS {
            failures.push(ReleaseFailure { command: plan[i], code: statuses[i] });
        }
        i = i + 1;
    }
    failures
}

} // verus!
