//! Boot handoff and fault diagnostics of a shim running inside a memory-encrypted
//! virtual machine.
//!
//! - [`addr`]: conversions between the shim's virtual addresses and the encrypted and
//!   unencrypted physical aliases of its memory.
//! - [`trust`]: the process-wide trust state and the single-shot bootstrap sequence.
//! - [`unwind`]: the bounded frame-pointer walk behind the fault report.

pub mod addr;
pub mod unwind;
pub mod trust;
