//! Core of a small monolithic kernel: physical frame allocation, per-task
//! virtual memory areas with demand paging, a round-robin scheduler with
//! page-table-root switching, and the message-passing and driver state
//! machines around them. Hardware access (MMIO, control registers, port
//! I/O) stays outside; this crate holds the decisions and proves them.

pub mod addr;
pub mod frame_alloc;
pub mod paging;
pub mod vma;
pub mod context;
pub mod task;
pub mod scheduler;
pub mod kernel;
pub mod ipc;
pub mod interrupts;
pub mod syscall;
pub mod heap_alloc;
pub mod drivers;
