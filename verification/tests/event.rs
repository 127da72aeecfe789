use xenctrl::event::{MemAccess, MovToMsr, Singlestep, SoftwareBreakpoint, WriteCtrlreg};
use xenctrl::{VmEventRequest, XenCr, XenEventType};

fn request(reason: u32) -> VmEventRequest {
    VmEventRequest {
        reason,
        write_ctrlreg: WriteCtrlreg { index: 1, new_value: 0x11, old_value: 0x22 },
        mov_to_msr: MovToMsr { msr: 0xc000_0080, new_value: 0x33 },
        software_breakpoint: SoftwareBreakpoint { gfn: 0x44, insn_length: 1 },
        mem_access: MemAccess { gla: 0x55, flags: 0x6 },
        singlestep: Singlestep { gfn: 0x77 },
    }
}

#[test]
fn control_register_from_number() {
    assert_eq!(XenCr::from_i32(0), Some(XenCr::Cr0));
    assert_eq!(XenCr::from_i32(1), Some(XenCr::Cr3));
    assert_eq!(XenCr::from_i32(2), Some(XenCr::Cr4));
    for n in [3, 4, -1, i32::MIN, i32::MAX] {
        assert_eq!(XenCr::from_i32(n), None);
    }
}

#[test]
fn control_register_round_trip() {
    for register in [XenCr::Cr0, XenCr::Cr3, XenCr::Cr4] {
        assert_eq!(XenCr::from_i32(i32::from(register.index())), Some(register));
    }
    assert_eq!(XenCr::Cr4.index(), 2);
}

#[test]
fn event_of_control_register() {
    assert_eq!(
        request(4).event_type(),
        Some(XenEventType::Cr { cr_type: XenCr::Cr3, new: 0x11, old: 0x22 })
    );
}

#[test]
fn event_of_unknown_control_register() {
    for index in [3, 0x7fff_ffff, 0x8000_0000, u32::MAX] {
        let mut req = request(4);
        req.write_ctrlreg.index = index;
        assert_eq!(req.event_type(), None);
    }
}

#[test]
fn event_of_msr() {
    assert_eq!(
        request(5).event_type(),
        Some(XenEventType::Msr { msr_type: 0xc000_0080, value: 0x33 })
    );
}

#[test]
fn event_of_wide_msr() {
    let mut req = request(5);
    req.mov_to_msr.msr = 0xffff_ffff;
    assert_eq!(
        req.event_type(),
        Some(XenEventType::Msr { msr_type: 0xffff_ffff, value: 0x33 })
    );
    req.mov_to_msr.msr = 0x1_0000_0000;
    assert_eq!(req.event_type(), None);
}

#[test]
fn event_of_breakpoint() {
    assert_eq!(
        request(6).event_type(),
        Some(XenEventType::Breakpoint { gfn: 0x44, gpa: 0, insn_len: 1 })
    );
}

#[test]
fn event_of_long_breakpoint() {
    let mut req = request(6);
    req.software_breakpoint.insn_length = 255;
    assert_eq!(
        req.event_type(),
        Some(XenEventType::Breakpoint { gfn: 0x44, gpa: 0, insn_len: 255 })
    );
    req.software_breakpoint.insn_length = 256;
    assert_eq!(req.event_type(), None);
}

#[test]
fn event_of_page_fault() {
    assert_eq!(
        request(1).event_type(),
        Some(XenEventType::Pagefault { gva: 0x55, gpa: 0, access: 6, view: 0 })
    );
}

#[test]
fn event_of_single_step() {
    assert_eq!(request(7).event_type(), Some(XenEventType::Singlestep { gfn: 0x77 }));
}

#[test]
fn event_of_unknown_reason() {
    for reason in [0, 2, 3, 8, 9, 14, u32::MAX] {
        assert_eq!(request(reason).event_type(), None);
    }
}

#[test]
fn event_ignores_other_payloads() {
    let mut req = request(7);
    req.write_ctrlreg.index = 99;
    req.mov_to_msr.msr = u64::MAX;
    req.software_breakpoint.insn_length = u32::MAX;
    assert_eq!(req.event_type(), request(7).event_type());
}
