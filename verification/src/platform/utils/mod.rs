//! Capability sets and task bookkeeping of the platform.
pub mod obj;
pub mod task;
