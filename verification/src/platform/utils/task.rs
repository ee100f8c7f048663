use vstd::prelude::*;

use std::collections::BTreeMap;

use crate::error::Error;
use crate::kit::allocator::IndexAllocatorView;
use crate::kit::config::{DEFAULT_PARENT_EP, PAGE_SIZE};
use crate::kit::allocator::{frame_alloc_step, frame_allocator_inv, frame_dealloc_step, VirtFrameAllocatorView};
use crate::kit::mem::MemCap;
use crate::kit::obj::{slot_number, ROOT_CNODE_SELF_INDEX};
use crate::platform::utils::obj::{recycle_step, CapSet, IndexAllocator};

verus! {

/// Radix of a task's CNode: 4096 slots.
pub const CNODE_RADIX_BITS: usize = 12;
/// First CNode index of the root CSpace handed to tasks.
pub const TASK_CNODE_FIRST: usize = 1;
/// Bound (exclusive) of the CNode indices handed to tasks.
pub const TASK_CNODE_LIMIT: usize = 4095;
/// Scheduling priority of tasks created on request.
pub const TASK_PRIORITY: usize = 100;
/// Bytes reserved at the top of a task's stack for its TLS block when the
/// task brings no TLS area of its own.
pub const TLS_RESERVE: usize = 0x100;
/// Slot of a task's TCB in its own CNode.
pub const TASK_TCB_INDEX: usize = 1;

/// First root-CSpace slot of the per-CPU TCB copies of the CPU threads.
pub const CPU_TCB_SLOT_BASE: usize = 0x80;
/// First root-CSpace slot of the per-CPU CNode copies.
pub const CPU_CNODE_SLOT_BASE: usize = 0x90;
/// Base of the task ids given to the per-CPU initial threads.
pub const INIT_TASK_TID_BASE: usize = 0xF000;
/// Scheduling priority (and maximum controlled priority) of a CPU's initial thread.
pub const INIT_TASK_PRIORITY: usize = 255;
/// Size in bits of the untyped a CPU's initial thread builds its objects from.
pub const INIT_TASK_UNTYPED_BITS: usize = 19;
/// Size in bits of the untyped handed to a CPU's initial thread.
pub const INIT_TASK_CHILD_UNTYPED_BITS: usize = 22;
/// Slot of that untyped in the initial thread's CSpace.
pub const INIT_TASK_CHILD_UNTYPED_SLOT: usize = 23;

/// The `j`-th CPU of `0..cpu_num` other than `except`.
pub open spec fn cpu_except_entry(except: usize, j: int) -> int {
    if j < except { j } else { j + 1 }
}

/// The CPUs of `0..cpu_num` other than `except`, in increasing order.
pub fn cpus_except(cpu_num: usize, except: usize) -> (r: Vec<usize>)
    ensures
        except < cpu_num ==> r@.len() == cpu_num - 1,
        except >= cpu_num ==> r@.len() == cpu_num,
        forall|j: int| 0 <= j < r@.len() ==> #[trigger] r@[j] == cpu_except_entry(except, j),
{
    let mut cpus: Vec<usize> = Vec::new();
    let mut i: usize = 0;
    while i < cpu_num
        invariant
            i <= cpu_num,
            cpus@.len() == (if i <= except { i as int } else { i - 1 }),
            forall|j: int| 0 <= j < cpus@.len() ==> cpus@[j] == cpu_except_entry(except, j),
        decreases cpu_num - i,
    {
        if i != except {
            cpus.push(i);
        }
        i += 1;
    }
    cpus
}

/// The root-CSpace slot holding CPU `cpu_id`'s copy of the root CNode.
pub fn cpu_cnode_slot(cpu_id: usize) -> (r: usize)
    requires
        cpu_id + CPU_CNODE_SLOT_BASE <= usize::MAX,
    ensures
        r == cpu_id + CPU_CNODE_SLOT_BASE,
{
    CPU_CNODE_SLOT_BASE + cpu_id
}

/// The root-CSpace slot holding CPU `cpu_id`'s initial thread TCB.
pub fn cpu_tcb_slot(cpu_id: usize) -> (r: usize)
    requires
        cpu_id + CPU_TCB_SLOT_BASE <= usize::MAX,
    ensures
        r == cpu_id + CPU_TCB_SLOT_BASE,
{
    CPU_TCB_SLOT_BASE + cpu_id
}

/// The initial register values of a new thread: it starts at `pc` with stack
/// pointer `sp`, its CPU id in `x0` and its IPC buffer address in `x8`.
#[derive(Clone, Copy, Debug, PartialEq, Eq, Structural)]
pub struct TaskRegisters {
    pub pc: usize,
    pub sp: usize,
    pub x0: usize,
    pub x8: usize,
}

/// The initial registers of a thread running `entry` on CPU `cpu_id`.
pub fn initial_registers(entry: usize, sp: usize, ipc_buffer: usize, cpu_id: usize) -> (r: TaskRegisters)
    ensures
        r == (TaskRegisters { pc: entry, sp, x0: cpu_id, x8: ipc_buffer }),
{
    TaskRegisters { pc: entry, sp, x0: cpu_id, x8: ipc_buffer }
}

/// How a CPU's initial thread is laid out.
#[derive(Clone, Copy, Debug, PartialEq, Eq, Structural)]
pub struct InitTaskLayout {
    /// Badge of the thread's parent endpoint.
    pub tid: usize,
    /// Root-CSpace slot that receives a copy of the thread's CNode.
    pub cnode_slot: usize,
    /// Root-CSpace slot that receives a copy of the thread's TCB.
    pub tcb_slot: usize,
    /// Initial stack pointer, below the TLS block.
    pub sp: usize,
    /// TLS base: the top of the stack.
    pub tls_base: usize,
    pub priority: usize,
    /// Guard bits of the thread's two-level CSpace.
    pub cspace_guard_bits: usize,
}

/// The layout of CPU `affinity`'s initial thread with its stack top at `stack`.
pub fn init_task_layout(stack: usize, affinity: usize) -> (r: InitTaskLayout)
    requires
        stack >= TLS_RESERVE,
        affinity + INIT_TASK_TID_BASE <= usize::MAX,
    ensures
        r == (InitTaskLayout {
            tid: (INIT_TASK_TID_BASE + affinity) as usize,
            cnode_slot: (CPU_CNODE_SLOT_BASE + affinity) as usize,
            tcb_slot: (CPU_TCB_SLOT_BASE + affinity) as usize,
            sp: (stack - TLS_RESERVE) as usize,
            tls_base: stack,
            priority: INIT_TASK_PRIORITY,
            cspace_guard_bits: (2 * CNODE_RADIX_BITS) as usize,
        }),
{
    InitTaskLayout {
        tid: INIT_TASK_TID_BASE + affinity,
        cnode_slot: cpu_cnode_slot(affinity),
        tcb_slot: cpu_tcb_slot(affinity),
        sp: stack - TLS_RESERVE,
        tls_base: stack,
        priority: INIT_TASK_PRIORITY,
        cspace_guard_bits: 2 * CNODE_RADIX_BITS,
    }
}

/// Basic unit representing a task in seL4.
pub struct NormalTask {
    pub entry: usize,
    pub stack: usize,
    pub capset: CapSet,
    pub untyped: u64,
    pub ipc_buffer_addr: usize,
    pub tid: usize,
    pub affinity: usize,
    pub cnode_index: usize,
    pub migrate: bool,
}

/// Where a new task's stack pointer starts, and where its TLS base points:
/// a task that brings a TLS area keeps its stack and uses that area; else
/// the top of the stack is set aside for the TLS block.
pub open spec fn stack_layout_spec(stack: usize, tls: usize) -> (usize, usize) {
    if tls > 0 {
        (stack, tls)
    } else {
        ((stack - TLS_RESERVE) as usize, stack)
    }
}

/// Computes a new task's initial stack pointer and TLS base.
pub fn stack_layout(stack: usize, tls: usize) -> (r: (usize, usize))
    requires
        tls == 0 ==> stack >= TLS_RESERVE,
    ensures
        r == stack_layout_spec(stack, tls),
{
    if tls > 0 {
        (stack, tls)
    } else {
        (stack - TLS_RESERVE, stack)
    }
}

/// The CNode-relative work left to do when a migrated task starts again on
/// its new CPU: re-mint the parent endpoint with the task's badge into
/// `parent_ep_slot`, point the per-CPU register at `affinity`'s area, and
/// move the TCB to `affinity`.
#[derive(Clone, Copy, Debug, PartialEq, Eq, Structural)]
pub struct MigrationFixup {
    pub parent_ep_slot: u64,
    pub badge: usize,
    pub affinity: usize,
}

/// What starting a task takes: an optional migration fix-up, then resuming
/// the TCB in `tcb_slot`.
#[derive(Clone, Copy, Debug, PartialEq, Eq, Structural)]
pub struct StartPlan {
    pub fixup: Option<MigrationFixup>,
    pub tcb_slot: usize,
}

/// The global slot of a task's TCB.
pub open spec fn tcb_slot_spec(cnode_index: usize) -> int {
    (cnode_index << CNODE_RADIX_BITS) as int + TASK_TCB_INDEX
}

/// The global slot of the parent endpoint in a task's CNode.
pub open spec fn parent_ep_slot_spec(cnode_index: usize) -> int {
    ((cnode_index << 12usize) as u64) as int + DEFAULT_PARENT_EP
}

/// What starting task `t` returns.
pub open spec fn start_plan_spec(t: NormalTask) -> StartPlan {
    StartPlan {
        fixup: if t.migrate {
            Some(MigrationFixup {
                parent_ep_slot: parent_ep_slot_spec(t.cnode_index) as u64,
                badge: t.tid,
                affinity: t.affinity,
            })
        } else {
            None
        },
        tcb_slot: tcb_slot_spec(t.cnode_index) as usize,
    }
}

proof fn lemma_task_slots_fit(cnode_index: usize)
    requires
        cnode_index < TASK_CNODE_LIMIT,
    ensures
        tcb_slot_spec(cnode_index) < 0x100_0000,
        parent_ep_slot_spec(cnode_index) < 0x100_0000,
{
    assert((cnode_index << 12usize) < 0xff_f000usize) by (bit_vector)
        requires cnode_index < 4095usize;
}

/// A task's TCB sits in slot 1 of its own 4096-slot CNode, and its parent
/// endpoint in slot 18: as global slot numbers, `c * 4096 + 1` and
/// `c * 4096 + 18` for CNode index `c`. Distinct tasks' TCB slots differ.
pub proof fn lemma_task_slot_numbers(c: usize, d: usize)
    requires
        c < TASK_CNODE_LIMIT,
        d < TASK_CNODE_LIMIT,
    ensures
        tcb_slot_spec(c) == c * 4096 + 1,
        parent_ep_slot_spec(c) == c * 4096 + 18,
        c != d ==> tcb_slot_spec(c) != tcb_slot_spec(d),
{
    assert((c << 12usize) == c * 4096) by (bit_vector)
        requires c < 4095usize;
    assert((d << 12usize) == d * 4096) by (bit_vector)
        requires d < 4095usize;
    assert(((c << 12usize) as u64) as int == (c << 12usize) as int);
}

impl NormalTask {
    /// The task's invariant: its CNode index is one handed to tasks, its IPC
    /// buffer starts a page, and its capability set can name its own CNode.
    pub open spec fn wf(&self) -> bool {
        &&& TASK_CNODE_FIRST <= self.cnode_index < TASK_CNODE_LIMIT
        &&& self.ipc_buffer_addr % PAGE_SIZE == 0
        &&& self.capset.wf()
        &&& slot_number(self.capset@.root_cnode.bits, self.capset@.root_cnode_bits, ROOT_CNODE_SELF_INDEX)
            <= usize::MAX
    }

    /// Records a task whose TCB, CNode and IPC buffer were just set up: it
    /// runs `entry` on CPU `cpu_id`, with the stack pointer that
    /// [`stack_layout`] gives for `stack` and `tls`.
    pub fn new(
        tid: usize,
        entry: usize,
        stack: usize,
        tls: usize,
        cpu_id: usize,
        cnode_index: usize,
        capset: CapSet,
        untyped: u64,
        ipc_buffer_addr: usize,
    ) -> (r: Self)
        requires
            tls == 0 ==> stack >= TLS_RESERVE,
            TASK_CNODE_FIRST <= cnode_index < TASK_CNODE_LIMIT,
            ipc_buffer_addr % PAGE_SIZE == 0,
        ensures
            capset.wf() && slot_number(capset@.root_cnode.bits, capset@.root_cnode_bits, ROOT_CNODE_SELF_INDEX)
                <= usize::MAX ==> r.wf(),
            r == (NormalTask {
                entry,
                stack: stack_layout_spec(stack, tls).0,
                capset,
                untyped,
                ipc_buffer_addr,
                tid,
                affinity: cpu_id,
                cnode_index,
                migrate: false,
            }),
    {
        let (sp, _tls_base) = stack_layout(stack, tls);
        NormalTask {
            entry,
            stack: sp,
            capset,
            untyped,
            ipc_buffer_addr,
            tid,
            affinity: cpu_id,
            cnode_index,
            migrate: false,
        }
    }

    /// Whether the task satisfies its invariant.
    pub fn is_well_formed(&self) -> (r: bool)
        ensures
            r == self.wf(),
    {
        TASK_CNODE_FIRST <= self.cnode_index && self.cnode_index < TASK_CNODE_LIMIT
            && self.ipc_buffer_addr % PAGE_SIZE == 0 && self.capset.is_well_formed()
            && self.capset.slot_fits(ROOT_CNODE_SELF_INDEX)
    }

    /// Moves the task to CPU `target`; the move takes effect at its next
    /// start. Moving a task to the CPU it is on changes nothing.
    pub fn migrate(&mut self, target: usize) -> (r: Result<(), Error>)
        ensures
            r is Ok,
            old(self).affinity == target ==> *final(self) == *old(self),
            old(self).affinity != target ==> *final(self) == (NormalTask { affinity: target, migrate: true, ..*old(self) }),
    {
        if self.affinity == target {
            return Ok(());
        }
        self.affinity = target;
        self.migrate = true;
        Ok(())
    }

    /// The global slot of the task's TCB.
    pub fn tcb_slot(&self) -> (r: usize)
        requires
            self.wf(),
        ensures
            r == tcb_slot_spec(self.cnode_index),
    {
        proof {
            lemma_task_slots_fit(self.cnode_index);
        }
        (self.cnode_index << CNODE_RADIX_BITS) + TASK_TCB_INDEX
    }

    /// What starting the task takes: the fix-up a pending migration needs
    /// and the TCB to resume. The migration stays pending until
    /// [`NormalTask::finish_migration`] records that the fix-up was done.
    pub fn start(&self) -> (r: StartPlan)
        requires
            self.wf(),
        ensures
            r == start_plan_spec(*self),
    {
        proof {
            lemma_task_slots_fit(self.cnode_index);
        }
        let fixup = if self.migrate {
            let parent_ep_slot = (self.cnode_index << 12usize) as u64 + DEFAULT_PARENT_EP;
            Some(MigrationFixup { parent_ep_slot, badge: self.tid, affinity: self.affinity })
        } else {
            None
        };
        StartPlan { fixup, tcb_slot: self.tcb_slot() }
    }

    /// Records that the migration fix-up was carried out: no migration is
    /// pending any more.
    pub fn finish_migration(&mut self)
        ensures
            *final(self) == (NormalTask { migrate: false, ..*old(self) }),
    {
        self.migrate = false;
    }

    /// The TCB slot to suspend.
    pub fn suspend(&self) -> (r: usize)
        requires
            self.wf(),
        ensures
            r == tcb_slot_spec(self.cnode_index),
    {
        self.tcb_slot()
    }

    /// Releases the task's resources: its untyped unit goes back to
    /// `untyped_pool`, its IPC buffer page back to `mem`, its CNode index back
    /// to `cspace`. Returns the slot indices of its objects, to be revoked and
    /// deleted through the CNode slot that comes with them.
    pub fn exit(&self, untyped_pool: &mut Vec<u64>, cspace: &mut IndexAllocator, mem: &mut MemCap) -> (r: (Vec<usize>, usize))
        requires
            self.wf(),
            old(cspace).wf(),
            old(mem).wf(),
        ensures
            r.0@ == self.capset@.caps,
            r.1 == slot_number(self.capset@.root_cnode.bits, self.capset@.root_cnode_bits, ROOT_CNODE_SELF_INDEX),
            final(untyped_pool)@ == old(untyped_pool)@.push(self.capset@.untyped),
            final(cspace).wf(),
            final(cspace)@ == recycle_step(old(cspace)@, self.cnode_index),
            final(mem).wf(),
            final(mem)@.v2p == old(mem)@.v2p,
            final(mem)@.p2v == old(mem)@.p2v,
            final(mem)@.frames == frame_dealloc_step(old(mem)@.frames, self.ipc_buffer_addr / PAGE_SIZE),
    {
        let caps = self.capset.exit(untyped_pool);
        mem.dealloc_ipc_buffer(self.ipc_buffer_addr);
        cspace.recycle(self.cnode_index);
        (caps, self.capset.root_cnode())
    }
}

/// Abstract state of a [`TaskManager`].
pub struct TaskManagerView {
    pub cspace: IndexAllocatorView,
    pub tasks: Map<usize, NormalTask>,
    pub untyped_pool: Seq<u64>,
    /// The ids of the registered tasks that have not exited.
    pub live: Set<usize>,
}

/// The registry of tasks created on request: the CNode indices available to
/// them, the tasks by id, and the pool of untyped units to reuse. Exited
/// tasks stay registered; which ones are still live is tracked in proofs.
pub struct TaskManager {
    cspace: IndexAllocator,
    tasks: BTreeMap<usize, NormalTask>,
    untyped_pool: Vec<u64>,
    live: Ghost<Set<usize>>,
}

impl View for TaskManager {
    type V = TaskManagerView;

    closed spec fn view(&self) -> TaskManagerView {
        TaskManagerView {
            cspace: self.cspace@,
            tasks: self.tasks@,
            untyped_pool: self.untyped_pool@,
            live: self.live@,
        }
    }
}

/// The registry's invariant: CNode indices handed out or waiting for reuse
/// stay within the range handed to tasks, and every registered task is well
/// formed.
pub open spec fn task_manager_inv(s: TaskManagerView) -> bool {
    &&& TASK_CNODE_FIRST <= s.cspace.next <= s.cspace.max
    &&& s.cspace.max == TASK_CNODE_LIMIT
    &&& forall|i: int| 0 <= i < s.cspace.recycled.len()
        ==> TASK_CNODE_FIRST <= #[trigger] s.cspace.recycled[i] < TASK_CNODE_LIMIT
    &&& forall|tid: usize| s.tasks.contains_key(tid) ==> #[trigger] s.tasks[tid].wf()
}

/// No live task holds CNode index `i`.
pub open spec fn index_free(s: TaskManagerView, i: usize) -> bool {
    forall|t: usize| s.live.contains(t) ==> #[trigger] s.tasks[t].cnode_index != i
}

/// CNode index ownership: every live task is registered and holds an index
/// that was handed out and is not waiting for reuse, indices waiting for
/// reuse were handed out once and wait only once, and no two live tasks hold
/// the same index.
pub open spec fn indices_owned(s: TaskManagerView) -> bool {
    &&& forall|t: usize| s.live.contains(t) ==> s.tasks.contains_key(t)
    &&& s.cspace.recycled.no_duplicates()
    &&& forall|i: int| 0 <= i < s.cspace.recycled.len() ==> #[trigger] s.cspace.recycled[i] < s.cspace.next
    &&& forall|t: usize| #[trigger] s.live.contains(t) ==> {
        &&& s.tasks[t].cnode_index < s.cspace.next
        &&& !s.cspace.recycled.contains(s.tasks[t].cnode_index as u64)
    }
    &&& forall|t1: usize, t2: usize| #[trigger] s.live.contains(t1) && #[trigger] s.live.contains(t2) && t1 != t2
        ==> s.tasks[t1].cnode_index != s.tasks[t2].cnode_index
}

impl TaskManager {
    pub open spec fn wf(&self) -> bool {
        task_manager_inv(self@)
    }

    /// An empty registry handing out CNode indices `1..4095`.
    pub fn new() -> (r: Self)
        ensures
            r.wf(),
            r@.cspace == (IndexAllocatorView { next: TASK_CNODE_FIRST, max: TASK_CNODE_LIMIT, recycled: Seq::empty() }),
            r@.tasks == Map::<usize, NormalTask>::empty(),
            r@.untyped_pool == Seq::<u64>::empty(),
            r@.live == Set::<usize>::empty(),
            indices_owned(r@),
    {
        TaskManager {
            cspace: IndexAllocator::new(TASK_CNODE_FIRST, TASK_CNODE_LIMIT),
            tasks: BTreeMap::new(),
            untyped_pool: Vec::new(),
            live: Ghost(Set::empty()),
        }
    }

    /// Takes a CNode index for a new task, or `None` when all are in use.
    pub fn reserve_cnode_index(&mut self) -> (r: Option<usize>)
        requires
            old(self).wf(),
        ensures
            final(self).wf(),
            (final(self)@.cspace, r) == crate::platform::utils::obj::recycled_first_alloc_step(old(self)@.cspace),
            final(self)@.tasks == old(self)@.tasks,
            final(self)@.untyped_pool == old(self)@.untyped_pool,
            final(self)@.live == old(self)@.live,
            r matches Some(i) ==> TASK_CNODE_FIRST <= i < TASK_CNODE_LIMIT,
            indices_owned(old(self)@) ==> indices_owned(final(self)@),
            indices_owned(old(self)@) ==> (r matches Some(i) ==> {
                &&& i < final(self)@.cspace.next
                &&& !final(self)@.cspace.recycled.contains(i as u64)
                &&& index_free(final(self)@, i)
            }),
    {
        let r = self.cspace.allocate();
        assert(self@.tasks == old(self)@.tasks);
        proof {
            let s = old(self)@.cspace;
            let o = old(self)@;
            let f = self@;
            if s.recycled.len() > 0 {
                let v = s.recycled.last();
                let d = s.recycled.drop_last();
                assert(s.recycled[s.recycled.len() - 1] == v);
                assert(TASK_CNODE_FIRST <= v < TASK_CNODE_LIMIT);
                assert forall|i: int| 0 <= i < d.len()
                    implies TASK_CNODE_FIRST <= #[trigger] d[i] < TASK_CNODE_LIMIT by {
                    assert(d[i] == s.recycled[i]);
                }
                if indices_owned(o) {
                    assert forall|i: int, j: int| 0 <= i < j < d.len() implies d[i] != d[j] by {
                        assert(d[i] == s.recycled[i] && d[j] == s.recycled[j]);
                    }
                    assert forall|i: int| 0 <= i < d.len() implies #[trigger] d[i] < f.cspace.next by {
                        assert(d[i] == s.recycled[i]);
                    }
                    assert(v < s.next);
                    assert forall|t: usize| #[trigger] f.live.contains(t) implies {
                        &&& f.tasks[t].cnode_index < f.cspace.next
                        &&& !f.cspace.recycled.contains(f.tasks[t].cnode_index as u64)
                    } by {
                        assert(o.live.contains(t));
                        if d.contains(f.tasks[t].cnode_index as u64) {
                            let k = choose|k: int| 0 <= k < d.len() && d[k] == f.tasks[t].cnode_index as u64;
                            assert(s.recycled[k] == d[k]);
                        }
                    }
                    if d.contains(v) {
                        let k = choose|k: int| 0 <= k < d.len() && d[k] == v;
                        assert(s.recycled[k] == d[k]);
                    }
                    assert forall|t: usize| f.live.contains(t) implies #[trigger] f.tasks[t].cnode_index != (v as usize) by {
                        assert(o.live.contains(t));
                        assert(!s.recycled.contains(o.tasks[t].cnode_index as u64));
                        if f.tasks[t].cnode_index == (v as usize) {
                            assert(s.recycled.contains(v));
                        }
                    }
                }
            } else if indices_owned(o) {
                assert forall|t: usize| f.live.contains(t) implies #[trigger] f.tasks[t].cnode_index != s.next by {
                    assert(o.live.contains(t));
                }
                assert forall|t: usize| #[trigger] f.live.contains(t) implies {
                    &&& f.tasks[t].cnode_index < f.cspace.next
                    &&& !f.cspace.recycled.contains(f.tasks[t].cnode_index as u64)
                } by {
                    assert(o.live.contains(t));
                }
            }
            if indices_owned(o) {
                assert(forall|t: usize| f.live.contains(t) ==> f.tasks.contains_key(t));
                assert(f.cspace.recycled.no_duplicates());
                assert(forall|i: int| 0 <= i < f.cspace.recycled.len() ==> #[trigger] f.cspace.recycled[i] < f.cspace.next);
                assert forall|t1: usize, t2: usize| #[trigger] f.live.contains(t1) && #[trigger] f.live.contains(t2) && t1 != t2
                    implies f.tasks[t1].cnode_index != f.tasks[t2].cnode_index by {
                    assert(o.live.contains(t1) && o.live.contains(t2));
                }
            }
        }
        r
    }

    /// Takes an untyped unit for a new task (see
    /// [`crate::platform::utils::obj::alloc_untyped_unit`]).
    pub fn alloc_untyped_unit(&mut self) -> (r: (Option<u64>, usize))
        requires
            old(self).wf(),
        ensures
            final(self).wf(),
            final(self)@.cspace == old(self)@.cspace,
            final(self)@.tasks == old(self)@.tasks,
            final(self)@.live == old(self)@.live,
            r.1 == (1usize << crate::platform::utils::obj::ALLOC_SIZE_BITS),
            old(self)@.untyped_pool.len() == 0 ==> r.0 is None && final(self)@.untyped_pool == old(self)@.untyped_pool,
            old(self)@.untyped_pool.len() > 0 ==> r.0 == Some(old(self)@.untyped_pool.last())
                && final(self)@.untyped_pool == old(self)@.untyped_pool.drop_last(),
    {
        let r = crate::platform::utils::obj::alloc_untyped_unit(&mut self.untyped_pool);
        assert(self@.tasks == old(self)@.tasks);
        assert(self@.cspace == old(self)@.cspace);
        r
    }
}

/// Registers `task` under its id, replacing any task of that id, and
/// returns the id. A task given an index just reserved and held by no live
/// task keeps CNode index ownership intact.
pub fn create_sel4_task(manager: &mut TaskManager, task: NormalTask) -> (r: usize)
    requires
        old(manager).wf(),
        task.wf(),
    ensures
        final(manager).wf(),
        r == task.tid,
        final(manager)@ == (TaskManagerView {
            tasks: old(manager)@.tasks.insert(task.tid, task),
            live: old(manager)@.live.insert(task.tid),
            ..old(manager)@
        }),
        indices_owned(old(manager)@) && index_free(old(manager)@, task.cnode_index)
            && task.cnode_index < old(manager)@.cspace.next
            && !old(manager)@.cspace.recycled.contains(task.cnode_index as u64)
            ==> indices_owned(final(manager)@),
{
    let tid = task.tid;
    let ghost idx = task.cnode_index;
    manager.tasks.insert(tid, task);
    manager.live = Ghost(manager.live@.insert(tid));
    proof {
        let o = old(manager)@;
        let f = manager@;
        if indices_owned(o) && index_free(o, idx) && idx < o.cspace.next && !o.cspace.recycled.contains(idx as u64) {
            assert forall|t: usize| #[trigger] f.live.contains(t) implies {
                &&& f.tasks[t].cnode_index < f.cspace.next
                &&& !f.cspace.recycled.contains(f.tasks[t].cnode_index as u64)
            } by {
                if t != tid {
                    assert(o.live.contains(t));
                }
            }
            assert forall|t1: usize, t2: usize| #[trigger] f.live.contains(t1) && #[trigger] f.live.contains(t2) && t1 != t2
                implies f.tasks[t1].cnode_index != f.tasks[t2].cnode_index by {
                if t1 == tid {
                    assert(o.live.contains(t2));
                } else if t2 == tid {
                    assert(o.live.contains(t1));
                } else {
                    assert(o.live.contains(t1) && o.live.contains(t2));
                }
            }
        }
    }
    tid
}

/// Releases the resources of task `tid`, if registered, and returns the slot
/// indices of its objects, the slot of its CNode (through which they are
/// deleted) and its CNode index. The task stays registered.
pub fn exit_sel4_task(manager: &mut TaskManager, mem: &mut MemCap, tid: usize) -> (r: Option<(Vec<usize>, usize, usize)>)
    requires
        old(manager).wf(),
        old(mem).wf(),
    ensures
        final(manager).wf(),
        final(mem).wf(),
        final(manager)@.tasks == old(manager)@.tasks,
        final(manager)@.live == old(manager)@.live.remove(tid),
        indices_owned(old(manager)@) && (old(manager)@.tasks.contains_key(tid) ==> old(manager)@.live.contains(tid))
            ==> indices_owned(final(manager)@),
        !old(manager)@.tasks.contains_key(tid) ==> r is None && final(manager)@.cspace == old(manager)@.cspace
            && final(manager)@.untyped_pool == old(manager)@.untyped_pool && final(mem)@ == old(mem)@,
        old(manager)@.tasks.contains_key(tid) ==> {
            let t = old(manager)@.tasks[tid];
            &&& r matches Some((caps, root_slot, cnode_index))
            &&& caps@ == t.capset@.caps
            &&& root_slot == slot_number(t.capset@.root_cnode.bits, t.capset@.root_cnode_bits, ROOT_CNODE_SELF_INDEX)
            &&& cnode_index == t.cnode_index
            &&& final(manager)@.cspace == recycle_step(old(manager)@.cspace, t.cnode_index)
            &&& final(manager)@.untyped_pool == old(manager)@.untyped_pool.push(t.capset@.untyped)
            &&& final(mem)@.frames == frame_dealloc_step(old(mem)@.frames, t.ipc_buffer_addr / PAGE_SIZE)
            &&& final(mem)@.v2p == old(mem)@.v2p
            &&& final(mem)@.p2v == old(mem)@.p2v
        },
{
    let r = match manager.tasks.get(&tid) {
        Some(t) => {
            assert(manager@.tasks[tid].wf());
            let (caps, root_slot) = t.exit(&mut manager.untyped_pool, &mut manager.cspace, mem);
            Some((caps, root_slot, t.cnode_index))
        },
        None => None,
    };
    manager.live = Ghost(manager.live@.remove(tid));
    proof {
        let o = old(manager)@;
        let f = manager@;
        if indices_owned(o) && (o.tasks.contains_key(tid) ==> o.live.contains(tid)) {
            if o.tasks.contains_key(tid) {
                let idx = o.tasks[tid].cnode_index;
                let rs = o.cspace.recycled;
                assert(f.cspace.recycled == rs.push(idx as u64));
                assert forall|i: int, j: int| 0 <= i < j < f.cspace.recycled.len()
                    implies f.cspace.recycled[i] != f.cspace.recycled[j] by {
                    if j == rs.len() {
                        assert(f.cspace.recycled[i] == rs[i]);
                    }
                }
                assert forall|i: int| 0 <= i < f.cspace.recycled.len()
                    implies #[trigger] f.cspace.recycled[i] < f.cspace.next by {
                    if i < rs.len() {
                        assert(f.cspace.recycled[i] == rs[i]);
                    }
                }
                assert forall|t: usize| #[trigger] f.live.contains(t) implies {
                    &&& f.tasks[t].cnode_index < f.cspace.next
                    &&& !f.cspace.recycled.contains(f.tasks[t].cnode_index as u64)
                } by {
                    assert(o.live.contains(t));
                    assert(o.tasks[t].cnode_index != idx);
                    if f.cspace.recycled.contains(f.tasks[t].cnode_index as u64) {
                        let k = choose|k: int| 0 <= k < f.cspace.recycled.len()
                            && f.cspace.recycled[k] == f.tasks[t].cnode_index as u64;
                        if k < rs.len() {
                            assert(rs[k] == f.cspace.recycled[k]);
                        }
                    }
                }
            }
            assert forall|t1: usize, t2: usize| #[trigger] f.live.contains(t1) && #[trigger] f.live.contains(t2) && t1 != t2
                implies f.tasks[t1].cnode_index != f.tasks[t2].cnode_index by {
                assert(o.live.contains(t1) && o.live.contains(t2));
            }
        }
    }
    r
}

/// Moves task `tid`, if registered, to CPU `target`.
pub fn migrate_sel4_task(manager: &mut TaskManager, tid: usize, target: usize)
    requires
        old(manager).wf(),
    ensures
        final(manager).wf(),
        final(manager)@.cspace == old(manager)@.cspace,
        final(manager)@.untyped_pool == old(manager)@.untyped_pool,
        final(manager)@.live == old(manager)@.live,
        indices_owned(old(manager)@) ==> indices_owned(final(manager)@),
        !old(manager)@.tasks.contains_key(tid) ==> final(manager)@.tasks == old(manager)@.tasks,
        old(manager)@.tasks.contains_key(tid) ==> {
            let t = old(manager)@.tasks[tid];
            final(manager)@.tasks == old(manager)@.tasks.insert(
                tid,
                if t.affinity == target { t } else { NormalTask { affinity: target, migrate: true, ..t } },
            )
        },
{
    if let Some(mut t) = manager.tasks.remove(&tid) {
        assert(old(manager)@.tasks[tid].wf());
        let _ = t.migrate(target);
        manager.tasks.insert(tid, t);
        proof {
            assert(manager@.tasks =~= old(manager)@.tasks.insert(tid, t));
        }
    } else {
        assert(manager@.tasks =~= old(manager)@.tasks);
    }
    proof {
        lemma_same_indices_keep_ownership(old(manager)@, manager@);
    }
}

/// What starting task `tid` takes, if it is registered (see
/// [`NormalTask::start`]).
pub fn start_sel4_task(manager: &TaskManager, tid: usize) -> (r: Option<StartPlan>)
    requires
        manager.wf(),
    ensures
        r == (if manager@.tasks.contains_key(tid) { Some(start_plan_spec(manager@.tasks[tid])) } else { None }),
{
    match manager.tasks.get(&tid) {
        Some(t) => {
            assert(manager@.tasks[tid].wf());
            Some(t.start())
        },
        None => None,
    }
}

/// Records that the migration fix-up of task `tid` was carried out, if the
/// task is registered.
pub fn migration_done(manager: &mut TaskManager, tid: usize)
    requires
        old(manager).wf(),
    ensures
        final(manager).wf(),
        final(manager)@.cspace == old(manager)@.cspace,
        final(manager)@.untyped_pool == old(manager)@.untyped_pool,
        final(manager)@.live == old(manager)@.live,
        indices_owned(old(manager)@) ==> indices_owned(final(manager)@),
        final(manager)@.tasks == (if old(manager)@.tasks.contains_key(tid) {
            old(manager)@.tasks.insert(tid, NormalTask { migrate: false, ..old(manager)@.tasks[tid] })
        } else {
            old(manager)@.tasks
        }),
{
    if let Some(mut t) = manager.tasks.remove(&tid) {
        assert(old(manager)@.tasks[tid].wf());
        t.finish_migration();
        assert(t.wf());
        manager.tasks.insert(tid, t);
        proof {
            assert(manager@.tasks =~= old(manager)@.tasks.insert(tid, t));
        }
    } else {
        assert(manager@.tasks =~= old(manager)@.tasks);
    }
    assert forall|k: usize| manager@.tasks.contains_key(k) implies #[trigger] manager@.tasks[k].wf() by {
        if k != tid {
            assert(old(manager)@.tasks[k].wf());
        }
    }
    proof {
        lemma_same_indices_keep_ownership(old(manager)@, manager@);
    }
}

/// A change that keeps the allocator, the live tasks, the registered ids
/// and every task's CNode index keeps CNode index ownership.
proof fn lemma_same_indices_keep_ownership(o: TaskManagerView, f: TaskManagerView)
    requires
        f.cspace == o.cspace,
        f.live == o.live,
        forall|t: usize| o.tasks.contains_key(t) == f.tasks.contains_key(t),
        forall|t: usize| o.tasks.contains_key(t) ==> #[trigger] f.tasks[t].cnode_index == o.tasks[t].cnode_index,
    ensures
        indices_owned(o) ==> indices_owned(f),
{
    if indices_owned(o) {
        assert forall|t: usize| #[trigger] f.live.contains(t) implies {
            &&& f.tasks[t].cnode_index < f.cspace.next
            &&& !f.cspace.recycled.contains(f.tasks[t].cnode_index as u64)
        } by {
            assert(o.live.contains(t));
            assert(o.tasks.contains_key(t));
        }
        assert forall|t1: usize, t2: usize| #[trigger] f.live.contains(t1) && #[trigger] f.live.contains(t2) && t1 != t2
            implies f.tasks[t1].cnode_index != f.tasks[t2].cnode_index by {
            assert(o.live.contains(t1) && o.live.contains(t2));
            assert(o.tasks.contains_key(t1) && o.tasks.contains_key(t2));
        }
    }
}

/// The TCB slot to suspend for task `tid`, if registered.
pub fn suspend_sel4_task(manager: &TaskManager, tid: usize) -> (r: Option<usize>)
    requires
        manager.wf(),
    ensures
        r == (if manager@.tasks.contains_key(tid) {
            Some(tcb_slot_spec(manager@.tasks[tid].cnode_index) as usize)
        } else {
            None
        }),
{
    match manager.tasks.get(&tid) {
        Some(t) => {
            assert(manager@.tasks[tid].wf());
            Some(t.suspend())
        },
        None => None,
    }
}

/// Switches from task `prev_tid` to task `next_tid`: the TCB to suspend for
/// the first and the plan to start the second, each if registered.
pub fn switch_sel4_task(manager: &TaskManager, prev_tid: usize, next_tid: usize) -> (r: (Option<usize>, Option<StartPlan>))
    requires
        manager.wf(),
    ensures
        r.0 == (if manager@.tasks.contains_key(prev_tid) {
            Some(tcb_slot_spec(manager@.tasks[prev_tid].cnode_index) as usize)
        } else {
            None
        }),
        r.1 == (if manager@.tasks.contains_key(next_tid) {
            Some(start_plan_spec(manager@.tasks[next_tid]))
        } else {
            None
        }),
{
    let suspended = suspend_sel4_task(manager, prev_tid);
    let started = start_sel4_task(manager, next_tid);
    (suspended, started)
}

/// Moves task `task` to CPU `cpu_id`. The root task (`init_task`) does it
/// itself and answers `Some(0)`; any other task answers `None` and forwards
/// the request to the root task.
pub fn migrate_task(manager: &mut TaskManager, init_task: bool, task: usize, cpu_id: usize) -> (r: Option<usize>)
    requires
        old(manager).wf(),
    ensures
        final(manager).wf(),
        !init_task ==> r is None && final(manager)@ == old(manager)@,
        init_task ==> r == Some(0usize),
        init_task ==> final(manager)@.cspace == old(manager)@.cspace,
        init_task ==> final(manager)@.untyped_pool == old(manager)@.untyped_pool,
        final(manager)@.live == old(manager)@.live,
        indices_owned(old(manager)@) ==> indices_owned(final(manager)@),
        init_task && old(manager)@.tasks.contains_key(task) ==> {
            let t = old(manager)@.tasks[task];
            final(manager)@.tasks == old(manager)@.tasks.insert(
                task,
                if t.affinity == cpu_id { t } else { NormalTask { affinity: cpu_id, migrate: true, ..t } },
            )
        },
        init_task && !old(manager)@.tasks.contains_key(task) ==> final(manager)@.tasks == old(manager)@.tasks,
{
    if init_task {
        migrate_sel4_task(manager, task, cpu_id);
        Some(0)
    } else {
        None
    }
}

/// After a task exits, the next IPC buffer handed out once the window is used
/// up is the task's own: its page was handed out and is free again.
pub proof fn lemma_exit_frees_ipc_page(frames: VirtFrameAllocatorView, t: NormalTask)
    requires
        frame_allocator_inv(frames),
        t.wf(),
        frames.current == frames.end,
        t.ipc_buffer_addr / PAGE_SIZE < frames.current,
        !frames.recycled.contains(t.ipc_buffer_addr / PAGE_SIZE),
    ensures
        frame_alloc_step(frame_dealloc_step(frames, t.ipc_buffer_addr / PAGE_SIZE)).1
            == Some((t.ipc_buffer_addr / PAGE_SIZE) as usize),
        (t.ipc_buffer_addr / PAGE_SIZE) * PAGE_SIZE == t.ipc_buffer_addr,
{
    crate::kit::allocator::lemma_frame_dealloc_then_alloc(frames, t.ipc_buffer_addr / PAGE_SIZE);
    let a = t.ipc_buffer_addr as int;
    assert((a / 0x1000) * 0x1000 == a) by (nonlinear_arith)
        requires a % 0x1000 == 0, a >= 0;
}

/// A task moved to another CPU starts there with the migration fix-up for
/// that CPU, and once the fix-up is recorded a second start needs none.
pub proof fn lemma_migrate_then_start(t: NormalTask, target: usize)
    requires
        t.wf(),
        t.affinity != target,
    ensures
        ({
            let moved = NormalTask { affinity: target, migrate: true, ..t };
            let plan = start_plan_spec(moved);
            let after = NormalTask { migrate: false, ..moved };
            &&& plan.fixup matches Some(f) && f.affinity == target && f.badge == t.tid
            &&& start_plan_spec(after).fixup is None
            &&& start_plan_spec(after).tcb_slot == plan.tcb_slot
        }),
{
}

/// Moving a task to the CPU it is already on leaves no migration pending.
pub proof fn lemma_migrate_to_same_cpu(t: NormalTask)
    requires
        !t.migrate,
    ensures
        start_plan_spec(t).fixup is None,
{
}

} // verus!
