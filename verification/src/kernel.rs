//! The kernel core: one value owning the scheduler, the physical memory
//! manager and the page-table mapper model, exposing the three entry
//! points the trap and boot paths call — `spawn`, `on_timer_tick` and
//! `on_page_fault` — together with the active page-table root and a
//! counter of root switches.

use vstd::prelude::*;

verus! {

use crate::addr::{PAGE_SIZE, spec_page_base};
use crate::context::{TaskContext, INITIAL_RFLAGS};
use crate::frame_alloc::{PhysicalMemoryManager, first_fit};
use crate::paging::{PageMapper, MappingEntry, translation_of};
use crate::scheduler::{Scheduler, tick_transition, is_kernel_task};
use crate::task::{Task, TaskId, TASK_STACK_SIZE};
use crate::vma::{VMA_Error, find_spec};

/// Outcome of a page fault, as reported to the trap entry point.
#[derive(Clone, Copy, PartialEq, Eq, Structural, Debug)]
pub enum FaultOutcome {
    /// The fault was resolved by demand paging; the faulting instruction
    /// can be re-executed.
    Resolved,
    /// The fault cannot be resolved; the reason says why.
    Fatal(VMA_Error),
}

/// The shape of a task created by `spawn`: fresh id, the given entry
/// address and page-table root, a pristine context, no areas yet, and a
/// dedicated stack.
pub open spec fn spawned_task(t: Task, id: TaskId, entry: u64, root: u64) -> bool {
    &&& t.wf()
    &&& t.id == id
    &&& t.cr3_phys_addr == root
    &&& t.context.r15 == entry
    &&& t.context.rflags == INITIAL_RFLAGS
    &&& t.context.rbx == 0 && t.context.rbp == 0 && t.context.r12 == 0 && t.context.r13 == 0
        && t.context.r14 == 0
    &&& t.vma_manager@.len() == 0
    &&& t.stack@.len() == TASK_STACK_SIZE
}

/// 🧠 The kernel core, created once at boot and handed to the interrupt
/// entry points.
pub struct Kernel {
    pub scheduler: Scheduler,
    pub pmm: PhysicalMemoryManager,
    pub mapper: PageMapper,
    /// The page-table root currently loaded in the hardware.
    pub active_root: u64,
    /// How often a tick actually switched the root (for the optimization's
    /// sake this is not once per tick).
    pub root_switches: u64,
    /// The id the next spawned task receives.
    pub next_task_id: u64,
}

impl Kernel {
    pub open spec fn wf(&self) -> bool {
        &&& self.scheduler.wf()
        &&& self.pmm.wf()
        &&& self.mapper.wf()
        &&& self.next_task_id >= 1
    }

    /// 🏭 Creates the kernel core. `boot_root` is the page-table root the
    /// boot path left active.
    pub fn new(boot_root: u64) -> (k: Kernel)
        ensures
            k.wf(),
            k.scheduler.task_queue@.len() == 0,
            k.scheduler.current_task.is_none(),
            k.pmm.spec_regions().len() == 0,
            k.pmm.cursor() == 0,
            k.mapper@.len() == 0,
            k.active_root == boot_root,
            k.root_switches == 0,
            k.next_task_id == 1,
    {
        Kernel {
            scheduler: Scheduler::new(),
            pmm: PhysicalMemoryManager::new(),
            mapper: PageMapper::new(),
            active_root: boot_root,
            root_switches: 0,
            next_task_id: 1,
        }
    }

    /// 🚀 Registers a new task with the scheduler: it gets a fresh id, a
    /// dedicated stack, an initial context resuming at `entry_address`,
    /// and `page_table_root` as its private top-level page table. The
    /// task joins the tail of the ready queue.
    pub fn spawn(&mut self, entry_address: u64, page_table_root: u64) -> (id: TaskId)
        requires
            old(self).wf(),
            old(self).next_task_id < u64::MAX,
        ensures
            final(self).wf(),
            id == TaskId(old(self).next_task_id),
            final(self).next_task_id == old(self).next_task_id + 1,
            exists|t: Task|
                spawned_task(t, id, entry_address, page_table_root)
                    && final(self).scheduler.task_queue@ == old(
                    self,
                ).scheduler.task_queue@.push(t),
            final(self).scheduler.current_task == old(self).scheduler.current_task,
            final(self).pmm == old(self).pmm,
            final(self).mapper == old(self).mapper,
            final(self).active_root == old(self).active_root,
            final(self).root_switches == old(self).root_switches,
    {
        let id = TaskId(self.next_task_id);
        self.next_task_id = self.next_task_id + 1;
        let task = Task::new(id, entry_address, page_table_root);
        let ghost spawned = task;
        self.scheduler.add_task(task);
        proof {
            assert(spawned_task(spawned, id, entry_address, page_table_root));
            assert(self.scheduler.task_queue@ == old(self).scheduler.task_queue@.push(spawned));
        }
        id
    }

    /// ⏰ The timer-tick entry point: runs one round-robin preemption step
    /// against the active root, mutating `interrupted_context` in place
    /// into the context to restore. When the selected task's root differs
    /// from the active one, the active root changes to it and the switch
    /// counter advances — and only then.
    pub fn on_timer_tick(&mut self, interrupted_context: &mut TaskContext)
        requires
            old(self).wf(),
        ensures
            final(self).wf(),
            final(self).pmm == old(self).pmm,
            final(self).mapper == old(self).mapper,
            final(self).next_task_id == old(self).next_task_id,
            final(self).scheduler.current_task.is_some(),
            final(self).active_root == final(self).scheduler.current_task->0.cr3_phys_addr,
            final(self).root_switches == (if final(self).active_root != old(self).active_root
                && old(self).root_switches < u64::MAX {
                old(self).root_switches + 1
            } else {
                old(self).root_switches as int
            }),
            (final(self).active_root == old(self).active_root) || old(self).root_switches
                == u64::MAX || final(self).root_switches == old(self).root_switches + 1,
            match old(self).scheduler.current_task {
                Option::Some(c) => exists|sw: Option<u64>|
                    #[trigger] tick_transition(
                        old(self).scheduler.task_queue@,
                        c,
                        *old(interrupted_context),
                        final(self).scheduler.task_queue@,
                        final(self).scheduler.current_task,
                        *final(interrupted_context),
                        old(self).active_root,
                        sw,
                    ),
                Option::None => exists|k: Task, sw: Option<u64>|
                    is_kernel_task(k, *old(interrupted_context), old(self).active_root)
                        && #[trigger] tick_transition(
                        old(self).scheduler.task_queue@,
                        k,
                        *old(interrupted_context),
                        final(self).scheduler.task_queue@,
                        final(self).scheduler.current_task,
                        *final(interrupted_context),
                        old(self).active_root,
                        sw,
                    ),
            },
    {
        let switch = self.scheduler.schedule_next(interrupted_context, self.active_root);
        match switch {
            Some(root) => {
                self.active_root = root;
                if self.root_switches < u64::MAX {
                    self.root_switches = self.root_switches + 1;
                }
            },
            None => {},
        }
    }

    /// 🛑 The page-fault entry point: resolves the fault through the
    /// current task's memory map by demand paging. `NoAreaFound` (an
    /// illegal access, also reported when no task is current yet) and
    /// `OOM` are fatal to this design; a fatal fault changes nothing.
    /// The access flags of the trap do not influence the outcome.
    pub fn on_page_fault(&mut self, fault_address: u64, _access_flags: u64) -> (r: FaultOutcome)
        requires
            old(self).wf(),
        ensures
            final(self).wf(),
            final(self).scheduler == old(self).scheduler,
            final(self).active_root == old(self).active_root,
            final(self).root_switches == old(self).root_switches,
            final(self).next_task_id == old(self).next_task_id,
            final(self).pmm.spec_regions() == old(self).pmm.spec_regions(),
            match old(self).scheduler.current_task {
                Option::None => {
                    &&& r == FaultOutcome::Fatal(VMA_Error::NoAreaFound)
                    &&& final(self).pmm == old(self).pmm
                    &&& final(self).mapper == old(self).mapper
                },
                Option::Some(t) => match find_spec(t.vma_manager@, fault_address as int) {
                    Option::None => {
                        &&& r == FaultOutcome::Fatal(VMA_Error::NoAreaFound)
                        &&& final(self).pmm.cursor() == old(self).pmm.cursor()
                        &&& final(self).mapper@ == old(self).mapper@
                    },
                    Option::Some(area) => match first_fit(
                        old(self).pmm.spec_regions(),
                        old(self).pmm.cursor(),
                    ) {
                        Option::None => {
                            &&& r == FaultOutcome::Fatal(VMA_Error::OOM)
                            &&& final(self).pmm.cursor() == old(self).pmm.cursor()
                            &&& final(self).mapper@ == old(self).mapper@
                        },
                        Option::Some(f) => {
                            &&& r == FaultOutcome::Resolved
                            &&& final(self).pmm.cursor() == f + PAGE_SIZE
                            &&& translation_of(
                                final(self).mapper@,
                                spec_page_base(fault_address as int) as u64,
                            ) == Option::<MappingEntry>::Some(
                                MappingEntry {
                                    page: spec_page_base(fault_address as int) as u64,
                                    frame: f as u64,
                                    flags: area.flags,
                                },
                            )
                            &&& (forall|q: u64|
                                q != spec_page_base(fault_address as int) as u64
                                    ==> translation_of(final(self).mapper@, q) == translation_of(
                                    old(self).mapper@,
                                    q,
                                ))
                        },
                    },
                },
            },
    {
        match &self.scheduler.current_task {
            None => FaultOutcome::Fatal(VMA_Error::NoAreaFound),
            Some(t) => {
                match t.vma_manager.map_vma_page(fault_address, &mut self.pmm, &mut self.mapper) {
                    Ok(()) => FaultOutcome::Resolved,
                    Err(e) => FaultOutcome::Fatal(e),
                }
            },
        }
    }
}

} // verus!
