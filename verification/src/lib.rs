//! Decisions behind a launcher that boots a UEFI executable under QEMU.
//!
//! The crate holds what the launcher decides and leaves what it does to its
//! caller: which firmware image to use, which arguments QEMU is started with,
//! where the executable is staged inside the boot partition, and how the
//! running emulator is supervised until it has exited or has been killed.

pub mod error;
pub mod esp;
pub mod firmware;
pub mod launch;
pub mod supervisor;
pub mod text;
