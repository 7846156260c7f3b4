use lightos_core::context::TaskContext;
use lightos_core::heap_alloc::{check_heap_config, HeapError};
use lightos_core::interrupts::{eoi_needs_secondary, InterruptIndex};
use lightos_core::syscall::{SyscallId, SYSCALL_ERROR_RETURN};
use lightos_core::task::{Task, TaskId};

#[test]
fn interrupt_vectors_after_remapping() {
    assert_eq!(InterruptIndex::Timer.as_u8(), 32);
    assert_eq!(InterruptIndex::Keyboard.as_u8(), 33);
    assert_eq!(InterruptIndex::Serial2.as_u8(), 35);
    assert_eq!(InterruptIndex::ATA_Primary.as_u8(), 46);
    assert_eq!(InterruptIndex::Syscall.as_u8(), 0x80);
}

#[test]
fn eoi_routing_by_vector() {
    assert!(!eoi_needs_secondary(32));
    assert!(!eoi_needs_secondary(39));
    assert!(eoi_needs_secondary(40));
    assert!(eoi_needs_secondary(46));
}

#[test]
fn syscall_classification() {
    assert_eq!(SyscallId::from_u64(1), SyscallId::PrintString);
    assert_eq!(SyscallId::from_u64(2), SyscallId::Exit);
    assert_eq!(SyscallId::from_u64(3), SyscallId::SpawnTask);
    assert_eq!(SyscallId::from_u64(100), SyscallId::TrustyCall);
    assert_eq!(SyscallId::from_u64(0), SyscallId::Invalid);
    assert_eq!(SyscallId::from_u64(4), SyscallId::Invalid);
    assert_eq!(SyscallId::from_u64(999), SyscallId::Invalid);
    assert_eq!(SYSCALL_ERROR_RETURN, u64::MAX);
}

#[test]
fn heap_configuration_floor() {
    assert_eq!(check_heap_config(1023), Err(HeapError::InsufficientSize));
    assert!(check_heap_config(1024).is_ok());
    assert!(check_heap_config(2 * 1024 * 1024).is_ok());
}

#[test]
fn initial_task_context_shape() {
    let c = TaskContext::new(0xFFFF_8000_0010_0000, 0xA000);
    assert_eq!(c.rsp, 0xFFFF_8000_0010_0000);
    assert_eq!(c.r15, 0xA000);
    assert_eq!(c.rflags, 0x202);
    assert_eq!((c.rbx, c.rbp, c.r12, c.r13, c.r14), (0, 0, 0, 0, 0));
    assert_eq!(TaskContext::default().rflags, 0);
}

#[test]
fn spawned_task_owns_its_stack_and_entry() {
    let t = Task::new(TaskId(5), 0xC000, 0x7000);
    assert_eq!(t.id, TaskId(5));
    assert_eq!(t.cr3_phys_addr, 0x7000);
    assert_eq!(t.context.r15, 0xC000);
    assert_eq!(t.stack.len(), 16384);
    // The initial stack pointer points one past the end of the stack.
    assert_eq!(t.context.rsp, t.stack.as_ptr_range().end as u64);
}
