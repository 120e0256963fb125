//! Early-boot trampoline of an Sv39 RISC-V kernel: the page-table entry model,
//! the temporary boot mapping, and the platform-neutral decisions of each boot
//! stage, expressed as operations for a platform shim to carry out.
use vstd::prelude::*;

pub mod boot;
pub mod fault;
pub mod page;
pub mod uart;
