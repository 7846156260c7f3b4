//! The round-robin scheduler: a FIFO ready queue plus at most one current
//! task. Each timer tick saves the interrupted context into the current
//! task, requeues it at the tail, makes the head of the queue current, and
//! reports the page-table root the caller must load when it differs from
//! the active one.

use vstd::prelude::*;
use std::collections::VecDeque;

verus! {

use crate::context::TaskContext;
use crate::task::{Task, TaskId};
use crate::vma::VMA_Manager;

/// The task as it is saved on preemption: the same task with the
/// interrupted context written into its snapshot.
pub open spec fn saved_task(t: Task, ctx: TaskContext) -> Task {
    Task {
        id: t.id,
        context: ctx,
        cr3_phys_addr: t.cr3_phys_addr,
        vma_manager: t.vma_manager,
        stack: t.stack,
    }
}

/// The kernel task (id 0) synthesized from the live interrupted context at
/// the first tick: it owns no areas and no separate stack, and its
/// page-table root is the one active at that moment.
pub open spec fn is_kernel_task(t: Task, ctx: TaskContext, active_root: u64) -> bool {
    &&& t.id == TaskId(0)
    &&& t.context == ctx
    &&& t.cr3_phys_addr == active_root
    &&& t.vma_manager@.len() == 0
    &&& t.stack@.len() == 0
}

/// One preemption step. `outgoing` is the task that was running; with the
/// interrupted context saved into it, it goes to the tail of the queue.
/// The head of the queue becomes current, its saved context becomes the
/// live one, and a root switch is requested exactly when its page-table
/// root differs from the active one.
pub open spec fn tick_transition(
    pre_queue: Seq<Task>,
    outgoing: Task,
    pre_ctx: TaskContext,
    post_queue: Seq<Task>,
    post_current: Option<Task>,
    post_ctx: TaskContext,
    active_root: u64,
    switch: Option<u64>,
) -> bool {
    let combined = pre_queue.push(saved_task(outgoing, pre_ctx));
    &&& post_current == Option::Some(combined[0])
    &&& post_queue == combined.drop_first()
    &&& post_ctx == combined[0].context
    &&& switch == (if combined[0].cr3_phys_addr != active_root {
        Option::Some(combined[0].cr3_phys_addr)
    } else {
        Option::<u64>::None
    })
}

/// 🔄 The round-robin task scheduler.
pub struct Scheduler {
    /// Tasks ready to run, in arrival order.
    pub task_queue: VecDeque<Task>,
    /// The task currently running, absent only before the first tick.
    pub current_task: Option<Task>,
}

impl Scheduler {
    pub open spec fn wf(&self) -> bool {
        &&& forall|i: int| 0 <= i < self.task_queue@.len() ==> (#[trigger] self.task_queue@[i]).wf()
        &&& match self.current_task {
            Option::Some(t) => t.wf(),
            Option::None => true,
        }
    }

    /// 🏭 Creates a scheduler with an empty ready queue and no current task.
    pub fn new() -> (s: Self)
        ensures
            s.wf(),
            s.task_queue@ == Seq::<Task>::empty(),
            s.current_task.is_none(),
    {
        Scheduler { task_queue: VecDeque::new(), current_task: None }
    }

    /// ➕ Appends a task to the tail of the ready queue.
    pub fn add_task(&mut self, task: Task)
        requires
            old(self).wf(),
            task.wf(),
        ensures
            final(self).wf(),
            final(self).task_queue@ == old(self).task_queue@.push(task),
            final(self).current_task == old(self).current_task,
    {
        self.task_queue.push_back(task);
    }

    /// 🔄 The preemption step, run on every timer tick with the live
    /// interrupted context. If no task was current yet, the kernel task
    /// (id 0) is synthesized from that context first. The interrupted
    /// context is saved into the outgoing task, which goes to the tail of
    /// the queue; the head of the queue becomes current and its saved
    /// context replaces the live one. Returns the page-table root to load
    /// exactly when the selected task's root differs from `active_root`.
    pub fn schedule_next(&mut self, current_context: &mut TaskContext, active_root: u64) -> (switch:
        Option<u64>)
        requires
            old(self).wf(),
        ensures
            final(self).wf(),
            final(self).current_task.is_some(),
            match old(self).current_task {
                Option::Some(c) => tick_transition(
                    old(self).task_queue@,
                    c,
                    *old(current_context),
                    final(self).task_queue@,
                    final(self).current_task,
                    *final(current_context),
                    active_root,
                    switch,
                ),
                Option::None => exists|k: Task|
                    is_kernel_task(k, *old(current_context), active_root)
                        && #[trigger] tick_transition(
                        old(self).task_queue@,
                        k,
                        *old(current_context),
                        final(self).task_queue@,
                        final(self).current_task,
                        *final(current_context),
                        active_root,
                        switch,
                    ),
            },
    {
        let ghost had_current = self.current_task.is_some();
        if self.current_task.is_none() {
            let kernel_task = Task {
                id: TaskId(0),
                context: *current_context,
                cr3_phys_addr: active_root,
                vma_manager: VMA_Manager::new(),
                stack: Vec::new(),
            };
            self.current_task = Some(kernel_task);
        }
        let ghost outgoing = self.current_task->0;
        let mut prev = self.current_task.take().unwrap();
        prev.context = *current_context;
        self.task_queue.push_back(prev);
        let ghost combined = self.task_queue@;
        let next = self.task_queue.pop_front().unwrap();
        let switch = if next.cr3_phys_addr != active_root {
            Some(next.cr3_phys_addr)
        } else {
            None
        };
        *current_context = next.context;
        self.current_task = Some(next);
        proof {
            assert(combined =~= old(self).task_queue@.push(saved_task(outgoing, *old(
                current_context,
            ))));
            assert(self.task_queue@ =~= combined.drop_first());
            if !had_current {
                assert(is_kernel_task(outgoing, *old(current_context), active_root));
                assert(saved_task(outgoing, *old(current_context)) == outgoing);
                assert(tick_transition(
                    old(self).task_queue@,
                    outgoing,
                    *old(current_context),
                    self.task_queue@,
                    self.current_task,
                    next.context,
                    active_root,
                    switch,
                ));
            }
        }
        switch
    }
}

/// The round-robin order: the current task's id followed by the ids of
/// the queued tasks, front to back.
pub open spec fn id_order(current: Task, queue: Seq<Task>) -> Seq<u64> {
    seq![current.id.0] + queue.map_values(|t: Task| t.id.0)
}

/// One position of left rotation: the head moves to the tail.
pub open spec fn rotate_left(s: Seq<u64>) -> Seq<u64> {
    s.drop_first().push(s[0])
}

/// `n` positions of left rotation.
pub open spec fn rotate_left_n(s: Seq<u64>, n: nat) -> Seq<u64>
    decreases n,
{
    if n == 0 {
        s
    } else {
        rotate_left_n(rotate_left(s), (n - 1) as nat)
    }
}

/// A preemption step rotates the round-robin order one position to the
/// left: the outgoing task's id moves from the head to the tail.
pub proof fn lemma_tick_rotates(
    pre_queue: Seq<Task>,
    outgoing: Task,
    pre_ctx: TaskContext,
    post_queue: Seq<Task>,
    post_current: Option<Task>,
    post_ctx: TaskContext,
    active_root: u64,
    switch: Option<u64>,
)
    requires
        tick_transition(
            pre_queue,
            outgoing,
            pre_ctx,
            post_queue,
            post_current,
            post_ctx,
            active_root,
            switch,
        ),
    ensures
        post_current.is_some(),
        id_order(post_current->0, post_queue) == rotate_left(id_order(outgoing, pre_queue)),
{
    assert(id_order(post_current->0, post_queue) =~= rotate_left(id_order(outgoing, pre_queue)));
}

/// Law (bounded fairness): after `k` preemption steps the order is the
/// original order rotated by `k`, so the task `k` positions in is the one
/// then current — over one full cycle every task in the order is current
/// exactly once, in queue order.
pub proof fn lemma_round_robin_each_once(s: Seq<u64>, k: nat)
    requires
        0 < s.len(),
        k <= s.len(),
    ensures
        rotate_left_n(s, k) == s.skip(k as int) + s.take(k as int),
        k < s.len() ==> rotate_left_n(s, k)[0] == s[k as int],
    decreases k,
{
    if k == 0 {
        assert(rotate_left_n(s, 0) =~= s.skip(0) + s.take(0));
    } else {
        let r = rotate_left(s);
        assert(r.len() == s.len());
        lemma_round_robin_each_once(r, (k - 1) as nat);
        assert(r.skip(k as int - 1) + r.take(k as int - 1) =~= s.skip(k as int) + s.take(k as int));
    }
}

/// Law (round-robin closure): after exactly as many preemption steps as
/// there are tasks in the order, the order — current task and queue, in
/// their relative order — is back where it started.
pub proof fn lemma_round_robin_closure(s: Seq<u64>)
    requires
        0 < s.len(),
    ensures
        rotate_left_n(s, s.len()) == s,
{
    lemma_round_robin_each_once(s, s.len());
    assert(s.skip(s.len() as int) + s.take(s.len() as int) =~= s);
}

/// One rotation step only reorders the ids.
proof fn lemma_rotate_left_multiset(s: Seq<u64>)
    requires
        0 < s.len(),
    ensures
        rotate_left(s).to_multiset() == s.to_multiset(),
{
    broadcast use vstd::seq_lib::group_to_multiset_ensures;

    assert(s.drop_first() =~= s.remove(0));
    assert(s.remove(0).to_multiset() =~= s.to_multiset().remove(s[0]));
    assert(rotate_left(s).to_multiset() =~= s.drop_first().to_multiset().insert(s[0]));
    assert(s.contains(s[0]));
    assert(s.to_multiset().count(s[0]) > 0);
    assert(s.to_multiset().remove(s[0]).insert(s[0]) =~= s.to_multiset());
}

/// Law (task conservation): preemption steps only reorder — after any
/// number of them the tasks in the round-robin order are exactly the
/// tasks before, so no task is lost or duplicated by scheduling.
pub proof fn lemma_rotation_preserves_tasks(s: Seq<u64>, n: nat)
    requires
        0 < s.len(),
    ensures
        rotate_left_n(s, n).to_multiset() == s.to_multiset(),
    decreases n,
{
    if n > 0 {
        lemma_rotate_left_multiset(s);
        lemma_rotation_preserves_tasks(rotate_left(s), (n - 1) as nat);
    }
}

/// Law (root-switch minimality): a preemption step requests a root switch
/// exactly when the selected task's page-table root differs from the
/// active one, and then requests exactly that root. Consecutive ticks
/// across tasks sharing one root never switch.
pub proof fn lemma_root_switch_minimality(
    pre_queue: Seq<Task>,
    outgoing: Task,
    pre_ctx: TaskContext,
    post_queue: Seq<Task>,
    post_current: Option<Task>,
    post_ctx: TaskContext,
    active_root: u64,
    switch: Option<u64>,
)
    requires
        tick_transition(
            pre_queue,
            outgoing,
            pre_ctx,
            post_queue,
            post_current,
            post_ctx,
            active_root,
            switch,
        ),
    ensures
        post_current.is_some(),
        switch.is_some() <==> post_current->0.cr3_phys_addr != active_root,
        switch.is_some() ==> switch->0 == post_current->0.cr3_phys_addr,
        post_current->0.cr3_phys_addr == active_root ==> switch.is_none(),
{
}

} // verus!
