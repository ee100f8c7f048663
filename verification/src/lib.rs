//! Verified core of an seL4-hosted ArceOS platform layer: capability-slot and
//! frame allocators, address translation tables, IRQ bookkeeping, the task
//! registry, and the decision logic of the root-task event loop.
pub mod error;
pub mod hal;
pub mod kit;
pub mod platform;
pub mod runtime;
