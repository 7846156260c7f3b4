use lightos_core::context::TaskContext;
use lightos_core::kernel::{FaultOutcome, Kernel};
use lightos_core::task::{Task, TaskId};
use lightos_core::vma::{VMA_Error, VMA_Type, VirtualMemoryArea};

#[test]
fn spawn_hands_out_sequential_ids() {
    let mut k = Kernel::new(0x1000);
    assert_eq!(k.spawn(0xA000, 0x2000), TaskId(1));
    assert_eq!(k.spawn(0xB000, 0x3000), TaskId(2));
    assert_eq!(k.scheduler.task_queue.len(), 2);
}

#[test]
fn two_tasks_root_switching_scenario() {
    // Tasks A (root Ra) and B (root Rb) spawned in that order, boot root
    // R0. The first tick synthesizes kernel task 0 as current and
    // schedules A with a switch to Ra; the second requeues A and
    // schedules B with a switch to Rb; the third requeues B and — FIFO
    // over all participants, the requeued kernel task included —
    // schedules task 0 with a switch back to R0; the fourth schedules A
    // again with a switch back to Ra.
    let r0 = 0x1000;
    let ra = 0x2000;
    let rb = 0x3000;
    let mut k = Kernel::new(r0);
    let a = k.spawn(0xA000, ra);
    let b = k.spawn(0xB000, rb);
    let mut ctx = TaskContext::default();

    k.on_timer_tick(&mut ctx);
    assert_eq!(k.scheduler.current_task.as_ref().unwrap().id, a);
    assert_eq!(k.active_root, ra);
    assert_eq!(k.root_switches, 1);
    assert_eq!(ctx.r15, 0xA000);

    k.on_timer_tick(&mut ctx);
    assert_eq!(k.scheduler.current_task.as_ref().unwrap().id, b);
    assert_eq!(k.active_root, rb);
    assert_eq!(k.root_switches, 2);

    k.on_timer_tick(&mut ctx);
    assert_eq!(k.scheduler.current_task.as_ref().unwrap().id, TaskId(0));
    assert_eq!(k.active_root, r0);
    assert_eq!(k.root_switches, 3);

    k.on_timer_tick(&mut ctx);
    assert_eq!(k.scheduler.current_task.as_ref().unwrap().id, a);
    assert_eq!(k.active_root, ra);
    assert_eq!(k.root_switches, 4);
}

#[test]
fn root_switch_skipped_for_shared_root() {
    // Two tasks sharing the boot root: no tick ever invokes the switch.
    let mut k = Kernel::new(0x1000);
    k.spawn(0xA000, 0x1000);
    k.spawn(0xB000, 0x1000);
    let mut ctx = TaskContext::default();
    for _ in 0..6 {
        k.on_timer_tick(&mut ctx);
    }
    assert_eq!(k.root_switches, 0);
    assert_eq!(k.active_root, 0x1000);
}

#[test]
fn page_fault_resolved_by_demand_paging() {
    // A task with one Data area [0x2000, 0x3000) faults at 0x2500: one
    // frame is allocated, one mapping is installed for the containing
    // page, and the fault is classified Resolved.
    let mut k = Kernel::new(0x1000);
    k.pmm.add_available_region(0x10_0000, 0x2000);
    let mut task = Task::new(TaskId(1), 0xA000, 0x2000);
    task.vma_manager
        .add_area(VirtualMemoryArea::new(0x2000, 0x1000, VMA_Type::Data))
        .unwrap();
    k.scheduler.add_task(task);
    let mut ctx = TaskContext::default();
    k.on_timer_tick(&mut ctx);

    assert_eq!(k.on_page_fault(0x2500, 0), FaultOutcome::Resolved);
    assert_eq!(k.mapper.len(), 1);
    let entry = k.mapper.translation(0x2000).unwrap();
    assert_eq!(entry.page, 0x2000);
    assert_eq!(entry.frame, 0x10_0000);
    // Exactly one frame was taken: the next allocation hands out the
    // second and last frame of the region.
    assert_eq!(k.pmm.allocate_frame(), Ok(0x10_1000));
}

#[test]
fn page_fault_with_no_matching_area_is_fatal() {
    let mut k = Kernel::new(0x1000);
    k.pmm.add_available_region(0x10_0000, 0x2000);
    let mut task = Task::new(TaskId(1), 0xA000, 0x2000);
    task.vma_manager
        .add_area(VirtualMemoryArea::new(0x2000, 0x1000, VMA_Type::Data))
        .unwrap();
    k.scheduler.add_task(task);
    let mut ctx = TaskContext::default();
    k.on_timer_tick(&mut ctx);

    assert_eq!(
        k.on_page_fault(0x9000, 0),
        FaultOutcome::Fatal(VMA_Error::NoAreaFound)
    );
    assert_eq!(k.mapper.len(), 0);
}

#[test]
fn page_fault_before_first_tick_is_fatal() {
    let mut k = Kernel::new(0x1000);
    assert_eq!(
        k.on_page_fault(0x2500, 0),
        FaultOutcome::Fatal(VMA_Error::NoAreaFound)
    );
}

#[test]
fn page_fault_without_free_frames_is_fatal_oom() {
    let mut k = Kernel::new(0x1000);
    let mut task = Task::new(TaskId(1), 0xA000, 0x2000);
    task.vma_manager
        .add_area(VirtualMemoryArea::new(0x2000, 0x1000, VMA_Type::Data))
        .unwrap();
    k.scheduler.add_task(task);
    let mut ctx = TaskContext::default();
    k.on_timer_tick(&mut ctx);

    assert_eq!(
        k.on_page_fault(0x2500, 0),
        FaultOutcome::Fatal(VMA_Error::OOM)
    );
}
