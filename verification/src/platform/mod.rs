//! The AArch64 seL4 platform: object bookkeeping, tasks, IRQs and the event loop.
pub mod handler;
pub mod irq;
pub mod mem;
pub mod obj;
pub mod utils;
