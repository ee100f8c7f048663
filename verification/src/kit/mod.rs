//! The seL4 resource kit: allocators, memory capability bookkeeping and IRQ state.
pub mod addr;
pub mod allocator;
pub mod config;
pub mod ipc;
pub mod irq;
pub mod mem;
pub mod obj;
