//! RustixOS kernel logic: page tables, exception decoding, interrupt
//! controller programming, timers, an in-memory filesystem, a process
//! manager and the system-call dispatcher, each with its contract.

pub mod arch;
pub mod bits;
pub mod boot;
pub mod bootloader;
pub mod filesystem;
pub mod keyboard;
pub mod memory;
pub mod process;
pub mod qemu;
pub mod shell;
pub mod syscalls;
pub mod textutil;
