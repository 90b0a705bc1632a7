//! The privileged core of a small x86-64 kernel: address arithmetic, the
//! physical frame allocator, page-table translation, the system-call
//! dispatcher, the layout of the interrupt vector table and the semaphore
//! that the scheduler blocks processes on.
//!
//! Everything here is plain computation on plain values. Touching the
//! hardware (control registers, the interrupt table the processor reads, the
//! system-call entry sequence) is left to the kernel binary built on top.

pub mod interrupts;
pub mod memory;
pub mod sync;
