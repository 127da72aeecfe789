//! What a guest event says: from the request that the hypervisor put on the ring to the event
//! that a monitor handles.
use vstd::prelude::*;

use crate::consts::{
    VM_EVENT_REASON_MEM_ACCESS, VM_EVENT_REASON_MOV_TO_MSR, VM_EVENT_REASON_SINGLESTEP,
    VM_EVENT_REASON_SOFTWARE_BREAKPOINT, VM_EVENT_REASON_WRITE_CTRLREG, VM_EVENT_X86_CR0,
    VM_EVENT_X86_CR3, VM_EVENT_X86_CR4,
};

verus! {

/// A control register that can be monitored.
#[derive(Debug, Copy, Clone, PartialEq, Eq, Structural)]
pub enum XenCr {
    Cr0,
    Cr3,
    Cr4,
}

impl XenCr {
    /// The number of the register in the event interface.
    pub open spec fn number(self) -> u32 {
        match self {
            XenCr::Cr0 => VM_EVENT_X86_CR0,
            XenCr::Cr3 => VM_EVENT_X86_CR3,
            XenCr::Cr4 => VM_EVENT_X86_CR4,
        }
    }

    /// The register whose number is `n`, if there is one.
    pub open spec fn of_number(n: int) -> Option<XenCr> {
        if n == VM_EVENT_X86_CR0 {
            Some(XenCr::Cr0)
        } else if n == VM_EVENT_X86_CR3 {
            Some(XenCr::Cr3)
        } else if n == VM_EVENT_X86_CR4 {
            Some(XenCr::Cr4)
        } else {
            None
        }
    }

    /// The register whose number is `n`; `None` for every other number.
    pub fn from_i32(n: i32) -> (register: Option<XenCr>)
        ensures
            register == XenCr::of_number(n as int),
    {
        if n < 0 {
            return None;
        }
        match n as u32 {
            VM_EVENT_X86_CR0 => Some(XenCr::Cr0),
            VM_EVENT_X86_CR3 => Some(XenCr::Cr3),
            VM_EVENT_X86_CR4 => Some(XenCr::Cr4),
            _ => None,
        }
    }

    /// The number of the register, in the width that the monitor interface takes.
    pub fn index(self) -> (index: u16)
        ensures
            index == self.number(),
    {
        match self {
            XenCr::Cr0 => VM_EVENT_X86_CR0 as u16,
            XenCr::Cr3 => VM_EVENT_X86_CR3 as u16,
            XenCr::Cr4 => VM_EVENT_X86_CR4 as u16,
        }
    }
}

/// A register survives the way to its number and back.
pub proof fn law_register_round_trip(register: XenCr)
    ensures
        XenCr::of_number(register.number() as int) == Some(register),
{
}

/// A number that names a register is the number of that register.
pub proof fn law_register_number_round_trip(n: int)
    ensures
        XenCr::of_number(n) matches Some(register) ==> register.number() == n,
{
}

/// An event of a guest.
#[derive(Debug, Copy, Clone, PartialEq, Eq, Structural)]
pub enum XenEventType {
    /// A control register was written.
    Cr { cr_type: XenCr, new: u64, old: u64 },
    /// A model specific register was written.
    Msr { msr_type: u32, value: u64 },
    /// A breakpoint instruction was executed. The guest physical address is not available.
    Breakpoint { gfn: u64, gpa: u64, insn_len: u8 },
    /// A page was accessed against its permissions. The guest physical address is not available.
    Pagefault { gva: u64, gpa: u64, access: u32, view: u16 },
    /// One instruction was executed in single step mode.
    Singlestep { gfn: u64 },
}

/// The payload of a request for a written control register.
#[derive(Debug, Copy, Clone, PartialEq, Eq, Structural)]
pub struct WriteCtrlreg {
    pub index: u32,
    pub new_value: u64,
    pub old_value: u64,
}

/// The payload of a request for a written model specific register.
#[derive(Debug, Copy, Clone, PartialEq, Eq, Structural)]
pub struct MovToMsr {
    pub msr: u64,
    pub new_value: u64,
}

/// The payload of a request for an executed breakpoint instruction.
#[derive(Debug, Copy, Clone, PartialEq, Eq, Structural)]
pub struct SoftwareBreakpoint {
    pub gfn: u64,
    pub insn_length: u32,
}

/// The payload of a request for a page access.
#[derive(Debug, Copy, Clone, PartialEq, Eq, Structural)]
pub struct MemAccess {
    pub gla: u64,
    pub flags: u32,
}

/// The payload of a request for a single step.
#[derive(Debug, Copy, Clone, PartialEq, Eq, Structural)]
pub struct Singlestep {
    pub gfn: u64,
}

/// A request as the hypervisor puts it on the ring: the reason for the event, and each reading
/// of the payload that the reason selects from.
#[derive(Debug, Copy, Clone, PartialEq, Eq, Structural)]
pub struct VmEventRequest {
    pub reason: u32,
    pub write_ctrlreg: WriteCtrlreg,
    pub mov_to_msr: MovToMsr,
    pub software_breakpoint: SoftwareBreakpoint,
    pub mem_access: MemAccess,
    pub singlestep: Singlestep,
}

impl VmEventRequest {
    /// The event that the request stands for. There is none when the reason is unknown, when
    /// the control register is not one of [`XenCr`], or when a payload value is wider than the
    /// event's field for it.
    pub open spec fn event(self) -> Option<XenEventType> {
        if self.reason == VM_EVENT_REASON_WRITE_CTRLREG {
            match XenCr::of_number(self.write_ctrlreg.index as int) {
                Some(cr_type) => Some(
                    XenEventType::Cr {
                        cr_type,
                        new: self.write_ctrlreg.new_value,
                        old: self.write_ctrlreg.old_value,
                    },
                ),
                None => None,
            }
        } else if self.reason == VM_EVENT_REASON_MOV_TO_MSR {
            if self.mov_to_msr.msr <= u32::MAX {
                Some(
                    XenEventType::Msr {
                        msr_type: self.mov_to_msr.msr as u32,
                        value: self.mov_to_msr.new_value,
                    },
                )
            } else {
                None
            }
        } else if self.reason == VM_EVENT_REASON_SOFTWARE_BREAKPOINT {
            if self.software_breakpoint.insn_length <= u8::MAX {
                Some(
                    XenEventType::Breakpoint {
                        gfn: self.software_breakpoint.gfn,
                        gpa: 0,
                        insn_len: self.software_breakpoint.insn_length as u8,
                    },
                )
            } else {
                None
            }
        } else if self.reason == VM_EVENT_REASON_MEM_ACCESS {
            Some(
                XenEventType::Pagefault {
                    gva: self.mem_access.gla,
                    gpa: 0,
                    access: self.mem_access.flags,
                    view: 0,
                },
            )
        } else if self.reason == VM_EVENT_REASON_SINGLESTEP {
            Some(XenEventType::Singlestep { gfn: self.singlestep.gfn })
        } else {
            None
        }
    }

    /// The event that the request stands for, if it stands for one.
    pub fn event_type(&self) -> (event: Option<XenEventType>)
        ensures
            event == self.event(),
    {
        match self.reason {
            VM_EVENT_REASON_WRITE_CTRLREG => {
                let index: u32 = self.write_ctrlreg.index;
                if index > i32::MAX as u32 {
                    return None;
                }
                match XenCr::from_i32(index as i32) {
                    Some(cr_type) => Some(
                        XenEventType::Cr {
                            cr_type,
                            new: self.write_ctrlreg.new_value,
                            old: self.write_ctrlreg.old_value,
                        },
                    ),
                    None => None,
                }
            },
            VM_EVENT_REASON_MOV_TO_MSR => {
                let msr: u64 = self.mov_to_msr.msr;
                if msr > u32::MAX as u64 {
                    return None;
                }
                Some(
                    XenEventType::Msr { msr_type: msr as u32, value: self.mov_to_msr.new_value },
                )
            },
            VM_EVENT_REASON_SOFTWARE_BREAKPOINT => {
                let insn_length: u32 = self.software_breakpoint.insn_length;
                if insn_length > u8::MAX as u32 {
                    return None;
                }
                Some(
                    XenEventType::Breakpoint {
                        gfn: self.software_breakpoint.gfn,
                        gpa: 0,
                        insn_len: insn_length as u8,
                    },
                )
            },
            VM_EVENT_REASON_MEM_ACCESS => Some(
                XenEventType::Pagefault {
                    gva: self.mem_access.gla,
                    gpa: 0,
                    access: self.mem_access.flags,
                    view: 0,
                },
            ),
            VM_EVENT_REASON_SINGLESTEP => Some(
                XenEventType::Singlestep { gfn: self.singlestep.gfn },
            ),
            _ => None,
        }
    }
}

/// The kind of an event follows from the reason alone: requests with one reason never give
/// events of two kinds.
pub proof fn law_reason_selects_kind(request: VmEventRequest)
    requires
        request.event() is Some,
    ensures
        request.event()->0 is Cr <==> request.reason == VM_EVENT_REASON_WRITE_CTRLREG,
        request.event()->0 is Msr <==> request.reason == VM_EVENT_REASON_MOV_TO_MSR,
        request.event()->0 is Breakpoint <==> request.reason == VM_EVENT_REASON_SOFTWARE_BREAKPOINT,
        request.event()->0 is Pagefault <==> request.reason == VM_EVENT_REASON_MEM_ACCESS,
        request.event()->0 is Singlestep <==> request.reason == VM_EVENT_REASON_SINGLESTEP,
{
}

/// Only the reading of the payload that the reason selects matters.
pub proof fn law_payload_selected(a: VmEventRequest, b: VmEventRequest)
    requires
        a.reason == b.reason,
        a.reason == VM_EVENT_REASON_WRITE_CTRLREG ==> a.write_ctrlreg == b.write_ctrlreg,
        a.reason == VM_EVENT_REASON_MOV_TO_MSR ==> a.mov_to_msr == b.mov_to_msr,
        a.reason == VM_EVENT_REASON_SOFTWARE_BREAKPOINT ==> a.software_breakpoint
            == b.software_breakpoint,
        a.reason == VM_EVENT_REASON_MEM_ACCESS ==> a.mem_access == b.mem_access,
        a.reason == VM_EVENT_REASON_SINGLESTEP ==> a.singlestep == b.singlestep,
    ensures
        a.event() == b.event(),
{
}

/// A request stands for an event if and only if its reason is one of the five and its payload can
/// be told: a written control register is one that has a name, the number of a model specific
/// register and the length of a breakpoint instruction fit their fields.
pub proof fn law_event_exists(request: VmEventRequest)
    ensures
        request.reason == VM_EVENT_REASON_WRITE_CTRLREG ==> (request.event() is Some <==> exists|
            register: XenCr,
        | #[trigger] register.number() == request.write_ctrlreg.index),
        request.reason == VM_EVENT_REASON_MOV_TO_MSR ==> (request.event() is Some
            <==> request.mov_to_msr.msr <= u32::MAX),
        request.reason == VM_EVENT_REASON_SOFTWARE_BREAKPOINT ==> (request.event() is Some
            <==> request.software_breakpoint.insn_length <= u8::MAX),
        request.reason == VM_EVENT_REASON_MEM_ACCESS ==> request.event() is Some,
        request.reason == VM_EVENT_REASON_SINGLESTEP ==> request.event() is Some,
        request.event() is Some ==> {
            ||| request.reason == VM_EVENT_REASON_WRITE_CTRLREG
            ||| request.reason == VM_EVENT_REASON_MOV_TO_MSR
            ||| request.reason == VM_EVENT_REASON_SOFTWARE_BREAKPOINT
            ||| request.reason == VM_EVENT_REASON_MEM_ACCESS
            ||| request.reason == VM_EVENT_REASON_SINGLESTEP
        },
{
    if let Some(register) = XenCr::of_number(request.write_ctrlreg.index as int) {
        assert(register.number() == request.write_ctrlreg.index);
    }
}

/// An event carries the payload of its request unchanged, and 0 for what the request does not
/// tell.
pub proof fn law_event_carries_payload(request: VmEventRequest)
    ensures
        match request.event() {
            Some(XenEventType::Cr { cr_type, new, old }) => {
                &&& cr_type.number() == request.write_ctrlreg.index
                &&& new == request.write_ctrlreg.new_value
                &&& old == request.write_ctrlreg.old_value
            },
            Some(XenEventType::Msr { msr_type, value }) => {
                &&& msr_type == request.mov_to_msr.msr
                &&& value == request.mov_to_msr.new_value
            },
            Some(XenEventType::Breakpoint { gfn, gpa, insn_len }) => {
                &&& gfn == request.software_breakpoint.gfn
                &&& gpa == 0
                &&& insn_len == request.software_breakpoint.insn_length
            },
            Some(XenEventType::Pagefault { gva, gpa, access, view }) => {
                &&& gva == request.mem_access.gla
                &&& gpa == 0
                &&& access == request.mem_access.flags
                &&& view == 0
            },
            Some(XenEventType::Singlestep { gfn }) => gfn == request.singlestep.gfn,
            None => true,
        },
{
}

/// Nothing of a payload is lost: requests that stand for one event have one reason, and the same
/// payload for that reason.
pub proof fn law_event_tells_payload(a: VmEventRequest, b: VmEventRequest)
    requires
        a.event() is Some,
        a.event() == b.event(),
    ensures
        a.reason == b.reason,
        a.reason == VM_EVENT_REASON_WRITE_CTRLREG ==> a.write_ctrlreg == b.write_ctrlreg,
        a.reason == VM_EVENT_REASON_MOV_TO_MSR ==> a.mov_to_msr == b.mov_to_msr,
        a.reason == VM_EVENT_REASON_SOFTWARE_BREAKPOINT ==> a.software_breakpoint
            == b.software_breakpoint,
        a.reason == VM_EVENT_REASON_MEM_ACCESS ==> a.mem_access == b.mem_access,
        a.reason == VM_EVENT_REASON_SINGLESTEP ==> a.singlestep == b.singlestep,
{
}

} // verus!
