use lightos_core::context::TaskContext;
use lightos_core::scheduler::Scheduler;
use lightos_core::task::{Task, TaskId};

#[test]
fn first_tick_synthesizes_kernel_task_and_stays_idle() {
    let mut s = Scheduler::new();
    let mut ctx = TaskContext::default();
    let before = ctx;
    // No task was ever spawned: the kernel task is synthesized, requeued
    // and immediately selected again; the live context is unchanged and
    // the root is already the active one.
    let switch = s.schedule_next(&mut ctx, 0x1000);
    assert_eq!(switch, None);
    assert_eq!(ctx, before);
    let current = s.current_task.as_ref().unwrap();
    assert_eq!(current.id, TaskId(0));
    assert_eq!(current.cr3_phys_addr, 0x1000);
    assert_eq!(s.task_queue.len(), 0);
}

#[test]
fn tick_saves_interrupted_context_into_outgoing_task() {
    let mut s = Scheduler::new();
    s.add_task(Task::new(TaskId(1), 0xA000, 0x2000));
    let mut ctx = TaskContext::default();
    ctx.rbx = 0xBEE;
    let switch = s.schedule_next(&mut ctx, 0x1000);
    // Task 1 was selected; its pristine context became live.
    assert_eq!(switch, Some(0x2000));
    assert_eq!(s.current_task.as_ref().unwrap().id, TaskId(1));
    assert_eq!(ctx.r15, 0xA000);
    assert_eq!(ctx.rflags, 0x202);
    // The kernel task went to the queue carrying the interrupted context.
    assert_eq!(s.task_queue.len(), 1);
    let saved = s.task_queue.front().unwrap();
    assert_eq!(saved.id, TaskId(0));
    assert_eq!(saved.context.rbx, 0xBEE);
}

#[test]
fn round_robin_cycles_all_tasks_in_order() {
    // Three spawned tasks sharing the boot root: over the first three
    // ticks each is current exactly once, in arrival order, and the
    // rotation then repeats with period four (kernel task included).
    let mut s = Scheduler::new();
    for id in 1..=3u64 {
        s.add_task(Task::new(TaskId(id), 0xA000 + id, 0x1000));
    }
    let mut ctx = TaskContext::default();
    let mut seen = Vec::new();
    for _ in 0..8 {
        let switch = s.schedule_next(&mut ctx, 0x1000);
        assert_eq!(switch, None, "same root must never switch");
        seen.push(s.current_task.as_ref().unwrap().id.0);
    }
    assert_eq!(seen, vec![1, 2, 3, 0, 1, 2, 3, 0]);
}

#[test]
fn queue_keeps_relative_order_across_a_full_cycle() {
    let mut s = Scheduler::new();
    for id in 1..=3u64 {
        s.add_task(Task::new(TaskId(id), 0xB000, 0x1000));
    }
    let mut ctx = TaskContext::default();
    // Four ticks: one full cycle of the four participants (kernel task 0
    // joins at the first tick). The queue is back to 1, 2, 3 front to
    // back with task 0 current.
    for _ in 0..4 {
        s.schedule_next(&mut ctx, 0x1000);
    }
    assert_eq!(s.current_task.as_ref().unwrap().id, TaskId(0));
    let ids: Vec<u64> = s.task_queue.iter().map(|t| t.id.0).collect();
    assert_eq!(ids, vec![1, 2, 3]);
}
