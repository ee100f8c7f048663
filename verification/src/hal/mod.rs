//! The hardware-abstraction entry points of the `aarch64_sel4` platform. On
//! seL4 the kernel owns timers, interrupts and CPUs, so most of them are
//! inert.
pub mod irq;
pub mod mem;
pub mod mp;
pub mod time;
pub mod init;
