//! Constants of the Xen interface.
use vstd::prelude::*;

verus! {

/// Size in bytes of the page that holds the event ring (`XC_PAGE_SIZE`).
pub const PAGE_SIZE: u32 = 4096;

/// `XC_ERROR_NONE`: the last call recorded no error.
pub const XC_ERROR_NONE: u32 = 0;

/// `XC_INTERNAL_ERROR`: the error reported when the interface cannot be opened.
pub const XC_INTERNAL_ERROR: u32 = 1;

/// `XENMEM_access_n`: no access.
pub const XENMEM_ACCESS_N: u32 = 0;

/// `XENMEM_access_r`: read.
pub const XENMEM_ACCESS_R: u32 = 1;

/// `XENMEM_access_w`: write.
pub const XENMEM_ACCESS_W: u32 = 2;

/// `XENMEM_access_rw`: read and write.
pub const XENMEM_ACCESS_RW: u32 = 3;

/// `XENMEM_access_x`: execute.
pub const XENMEM_ACCESS_X: u32 = 4;

/// `XENMEM_access_rx`: read and execute.
pub const XENMEM_ACCESS_RX: u32 = 5;

/// `XENMEM_access_wx`: write and execute.
pub const XENMEM_ACCESS_WX: u32 = 6;

/// `XENMEM_access_rwx`: read, write and execute.
pub const XENMEM_ACCESS_RWX: u32 = 7;

/// `VM_EVENT_REASON_MEM_ACCESS`: a page was accessed against its permissions.
pub const VM_EVENT_REASON_MEM_ACCESS: u32 = 1;

/// `VM_EVENT_REASON_WRITE_CTRLREG`: a control register was written.
pub const VM_EVENT_REASON_WRITE_CTRLREG: u32 = 4;

/// `VM_EVENT_REASON_MOV_TO_MSR`: a model specific register was written.
pub const VM_EVENT_REASON_MOV_TO_MSR: u32 = 5;

/// `VM_EVENT_REASON_SOFTWARE_BREAKPOINT`: a breakpoint instruction was executed.
pub const VM_EVENT_REASON_SOFTWARE_BREAKPOINT: u32 = 6;

/// `VM_EVENT_REASON_SINGLESTEP`: one instruction was executed in single step mode.
pub const VM_EVENT_REASON_SINGLESTEP: u32 = 7;

/// `VM_EVENT_X86_CR0`.
pub const VM_EVENT_X86_CR0: u32 = 0;

/// `VM_EVENT_X86_CR3`.
pub const VM_EVENT_X86_CR3: u32 = 1;

/// `VM_EVENT_X86_CR4`.
pub const VM_EVENT_X86_CR4: u32 = 2;

} // verus!
