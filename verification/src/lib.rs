//! Privileged core of a small RISC-V kernel: task control blocks, the
//! environment-call layer that talks to the firmware beneath the kernel,
//! and the last-resort fatal path.
//!
//! The virtual-memory subsystem, the trap dispatcher and the firmware are
//! collaborators of this core; they appear here as explicit models (an
//! address space as its set of mapped areas, the firmware as the state the
//! kernel can observe through environment calls), so that the logic that
//! drives them is verified against exact contracts.

pub mod config;
pub mod fatal;
pub mod mm;
pub mod sbi;
pub mod task;
pub mod trap;
