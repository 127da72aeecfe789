use xenctrl::event::{MemAccess, MovToMsr, Singlestep, SoftwareBreakpoint, WriteCtrlreg};
use xenctrl::ring::RingHeader;
use xenctrl::{
    BackRing, Call, Layout, Operation, Outcome, Reply, RingLayout, VmEventRequest, XcError,
    XenControl, XenCr, XenEventType, XenPageAccess,
};

const LAYOUT: Layout = Layout {
    cpu_typecode: 2,
    cpu_size: 4,
    ring: RingLayout { header: 64, entry: 376 },
};

fn control() -> XenControl<u64> {
    XenControl { handle: 77, layout: LAYOUT }
}

/// Checks that `op` asks for exactly the calls of `dialogue`, and gives its result.
fn run(
    op: Operation<u64>,
    dialogue: Vec<(Call<u64>, Reply<u64>)>,
) -> Result<Outcome<u64>, XcError> {
    let mut op = op;
    for (call, reply) in dialogue {
        assert_eq!(op.call(), Some(call));
        assert!(op.accepts(&reply));
        op = op.resume(reply);
    }
    assert_eq!(op.call(), None);
    op.finish()
}

/// Checks that `op` makes `request`, which gives `reply`, and that the last error decides.
fn checked(
    start: fn(&XenControl<u64>) -> Operation<u64>,
    request: Call<u64>,
    reply: fn() -> Reply<u64>,
    outcome: Outcome<u64>,
) {
    let control = control();
    assert_eq!(start(&control).handle(), Some(77));
    let result = run(
        start(&control),
        vec![
            (Call::ClearLastError, Reply::Done),
            (request, reply()),
            (Call::GetLastError, Reply::LastError(0)),
        ],
    );
    assert_eq!(result, Ok(outcome));
    let result = run(
        start(&control),
        vec![
            (Call::ClearLastError, Reply::Done),
            (request, reply()),
            (Call::GetLastError, Reply::LastError(3)),
            (
                Call::ErrorCodeToDesc { code: 3 },
                Reply::Description("Invalid parameter".to_string()),
            ),
        ],
    );
    assert_eq!(result.unwrap_err().desc(), "Invalid parameter");
}

fn done() -> Reply<u64> {
    Reply::Done
}

fn record() -> Reply<u64> {
    Reply::Record(0xfeed)
}

#[test]
fn domain_getinfo() {
    checked(
        |c| c.domain_getinfo(5),
        Call::DomainGetinfo { first_domid: 5, max_doms: 1 },
        record,
        Outcome::Record(0xfeed),
    );
}

#[test]
fn domain_debug_control() {
    checked(
        |c| c.domain_debug_control(5, 11, 1),
        Call::DomainDebugControl { domid: 5, op: 11, vcpu: 1 },
        done,
        Outcome::Done,
    );
}

#[test]
fn domain_hvm_getcontext_partial() {
    checked(
        |c| c.domain_hvm_getcontext_partial(5, 1),
        Call::DomainHvmGetcontextPartial { domid: 5, typecode: 2, instance: 1, size: 4 },
        record,
        Outcome::Record(0xfeed),
    );
}

#[test]
fn domain_hvm_setcontext() {
    checked(
        |c| c.domain_hvm_setcontext(5, 0xb0f, 4096),
        Call::DomainHvmSetcontext { domid: 5, buffer: 0xb0f, size: 4096 },
        done,
        Outcome::Done,
    );
}

#[test]
fn monitor_disable() {
    checked(|c| c.monitor_disable(5), Call::MonitorDisable { domid: 5 }, done, Outcome::Done);
}

#[test]
fn domain_pause() {
    checked(|c| c.domain_pause(5), Call::DomainPause { domid: 5 }, done, Outcome::Done);
}

#[test]
fn domain_unpause() {
    checked(|c| c.domain_unpause(5), Call::DomainUnpause { domid: 5 }, done, Outcome::Done);
}

#[test]
fn monitor_software_breakpoint() {
    checked(
        |c| c.monitor_software_breakpoint(5, true),
        Call::MonitorSoftwareBreakpoint { domid: 5, enable: true },
        done,
        Outcome::Done,
    );
}

#[test]
fn monitor_mov_to_msr() {
    checked(
        |c| c.monitor_mov_to_msr(5, 0xc000_0080, false),
        Call::MonitorMovToMsr { domid: 5, msr: 0xc000_0080, enable: false },
        done,
        Outcome::Done,
    );
}

#[test]
fn monitor_singlestep() {
    checked(
        |c| c.monitor_singlestep(5, true),
        Call::MonitorSinglestep { domid: 5, enable: true },
        done,
        Outcome::Done,
    );
}

#[test]
fn monitor_write_ctrlreg() {
    checked(
        |c| c.monitor_write_ctrlreg(5, XenCr::Cr4, true, false, true),
        Call::MonitorWriteCtrlreg {
            domid: 5,
            index: 2,
            enable: true,
            sync: false,
            onchangeonly: true,
        },
        done,
        Outcome::Done,
    );
}

#[test]
fn set_mem_access() {
    checked(
        |c| c.set_mem_access(5, XenPageAccess::RX, 0x1000, 3),
        Call::SetMemAccess { domid: 5, access: 5, first_pfn: 0x1000, nr: 3 },
        done,
        Outcome::Done,
    );
}

#[test]
fn get_mem_access() {
    checked(
        |c| c.get_mem_access(5, 0x1000),
        Call::GetMemAccess { domid: 5, pfn: 0x1000 },
        || Reply::Access(7),
        Outcome::Access(XenPageAccess::RWX),
    );
}

#[test]
fn get_mem_access_of_unknown_number() {
    let op = control().get_mem_access(5, 0x1000).resume(Reply::Done).resume(Reply::Access(9));
    assert!(!op.accepts(&Reply::LastError(0)));
    assert!(op.accepts(&Reply::LastError(1)));
    let op = op.resume(Reply::LastError(1));
    let result = run(
        op,
        vec![(Call::ErrorCodeToDesc { code: 1 }, Reply::Description("Internal error".to_string()))],
    );
    assert_eq!(result.unwrap_err().desc(), "Internal error");
}

#[test]
fn access_is_set_and_fetched() {
    for access in [XenPageAccess::NIL, XenPageAccess::W, XenPageAccess::WX, XenPageAccess::RWX] {
        let mut pages = [1u32; 8];
        let set = control().set_mem_access(5, access, 2, 3).resume(Reply::Done);
        match set.call() {
            Some(Call::SetMemAccess { domid: 5, access, first_pfn, nr }) => {
                for pfn in first_pfn..first_pfn + u64::from(nr) {
                    pages[pfn as usize] = access;
                }
            }
            _ => panic!("unexpected call"),
        }
        for pfn in 0..8u64 {
            let expected = if (2..5).contains(&pfn) { access } else { XenPageAccess::R };
            let fetch = control().get_mem_access(5, pfn).resume(Reply::Done);
            assert_eq!(fetch.call(), Some(Call::GetMemAccess { domid: 5, pfn }));
            let fetch =
                fetch.resume(Reply::Access(pages[pfn as usize])).resume(Reply::LastError(0));
            assert_eq!(fetch.finish(), Ok(Outcome::Access(expected)));
        }
    }
}

#[test]
fn new_ring_is_usable() {
    let op = control()
        .monitor_enable(5)
        .resume(Reply::Done)
        .resume(Reply::RingPage { page: Some(0x7000), port: 12 })
        .resume(Reply::Done)
        .resume(Reply::LastError(0));
    let mut back_ring = match op.finish() {
        Ok(Outcome::Ring { back_ring, .. }) => back_ring,
        _ => panic!("no ring"),
    };
    let taken = control().get_request(&mut back_ring);
    assert_eq!(taken.call(), Some(Call::ReadRequest { page: 0x7000, slot: 0 }));
    let put = control().put_response(1, &mut back_ring);
    assert_eq!(put.call(), Some(Call::WriteResponse { page: 0x7000, slot: 0, response: 1 }));
    assert_eq!(back_ring, ring(1, 1));
}

#[test]
fn domain_maximum_gpfn() {
    checked(
        |c| c.domain_maximum_gpfn(5),
        Call::DomainMaximumGpfn { domid: 5 },
        || Reply::MaximumGpfn(0xf_ffff),
        Outcome::MaximumGpfn(0xf_ffff),
    );
}

#[test]
fn close() {
    checked(
        |c| XenControl { handle: c.handle, layout: c.layout }.close(),
        Call::InterfaceClose,
        done,
        Outcome::Done,
    );
}

#[test]
fn open() {
    let op = XenControl::new(LAYOUT, Some(1u64), None, 2);
    assert_eq!(op.handle(), None);
    let result = run(
        op,
        vec![
            (Call::LoadLibrary, Reply::Loaded),
            (
                Call::InterfaceOpen { logger: Some(1), dombuild_logger: None, open_flags: 2 },
                Reply::Handle(Some(77)),
            ),
        ],
    );
    assert_eq!(result, Ok(Outcome::Opened(control())));
}

#[test]
fn open_with_defaults() {
    let result = run(
        XenControl::default(LAYOUT),
        vec![
            (Call::LoadLibrary, Reply::Loaded),
            (
                Call::InterfaceOpen { logger: None, dombuild_logger: None, open_flags: 0 },
                Reply::Handle(Some(77)),
            ),
        ],
    );
    assert_eq!(result, Ok(Outcome::Opened(control())));
}

#[test]
fn open_without_library() {
    let result = run(
        XenControl::default(LAYOUT),
        vec![(Call::LoadLibrary, Reply::LoadFailed("no such file".to_string()))],
    );
    assert_eq!(result.unwrap_err().desc(), "no such file");
}

#[test]
fn open_without_handle() {
    let result = run(
        XenControl::default(LAYOUT),
        vec![
            (Call::LoadLibrary, Reply::Loaded),
            (
                Call::InterfaceOpen { logger: None, dombuild_logger: None, open_flags: 0 },
                Reply::Handle(None),
            ),
            (Call::ErrorCodeToDesc { code: 1 }, Reply::Description("Internal error".to_string())),
        ],
    );
    assert_eq!(result.unwrap_err().desc(), "Internal error");
}

fn context() -> Vec<u8> {
    vec![
        1, 0, 0, 0, 2, 0, 0, 0, 0xaa, 0xbb, // a record of another type
        2, 0, 0, 0, 4, 0, 0, 0, 1, 2, 3, 4, // the first CPU
        2, 0, 1, 0, 4, 0, 0, 0, 5, 6, 7, 8, // the second CPU
    ]
}

/// The operation that fetches the context, up to the look at the last error.
fn fetch(vcpu: u16) -> Operation<u64> {
    let op = control().domain_hvm_getcontext(5, vcpu);
    let script = vec![
        (Call::ClearLastError, Reply::Done),
        (Call::DomainHvmGetcontextSize { domid: 5 }, Reply::ContextSize(34)),
        (Call::ClearLastError, Reply::Done),
        (Call::DomainHvmGetcontext { domid: 5, size: 34 }, Reply::Context(context())),
    ];
    let mut op = op;
    for (call, reply) in script {
        assert_eq!(op.call(), Some(call));
        assert!(op.accepts(&reply));
        op = op.resume(reply);
    }
    assert_eq!(op.call(), Some(Call::GetLastError));
    op
}

#[test]
fn domain_hvm_getcontext() {
    for (vcpu, cpu) in [(0, 18), (1, 30)] {
        let result = run(fetch(vcpu), vec![(Call::GetLastError, Reply::LastError(0))]);
        assert_eq!(result, Ok(Outcome::Context { buffer: context(), cpu, size: 34 }));
    }
}

#[test]
fn domain_hvm_getcontext_without_cpu() {
    let op = fetch(2);
    assert!(!op.accepts(&Reply::LastError(0)));
    assert!(op.accepts(&Reply::LastError(1)));
    let result = run(
        op,
        vec![
            (Call::GetLastError, Reply::LastError(1)),
            (Call::ErrorCodeToDesc { code: 1 }, Reply::Description("Internal error".to_string())),
        ],
    );
    assert_eq!(result.unwrap_err().desc(), "Internal error");
}

#[test]
fn domain_hvm_getcontext_with_cut_off_cpu() {
    let op = control()
        .domain_hvm_getcontext(5, 0)
        .resume(Reply::Done)
        .resume(Reply::ContextSize(11))
        .resume(Reply::Done)
        .resume(Reply::Context(vec![2, 0, 0, 0, 4, 0, 0, 0, 1, 2, 3]));
    assert!(!op.accepts(&Reply::LastError(0)));
}

#[test]
fn domain_hvm_getcontext_failure() {
    let result = run(
        fetch(1),
        vec![
            (Call::GetLastError, Reply::LastError(4)),
            (Call::ErrorCodeToDesc { code: 4 }, Reply::Description("Out of memory".to_string())),
        ],
    );
    assert_eq!(result.unwrap_err().desc(), "Out of memory");
}

#[test]
fn domain_hvm_getcontext_replies() {
    let op = control().domain_hvm_getcontext(5, 0).resume(Reply::Done);
    assert!(!op.accepts(&Reply::ContextSize(-1)));
    let op = op.resume(Reply::ContextSize(34)).resume(Reply::Done);
    assert!(!op.accepts(&Reply::Context(vec![0; 33])));
    assert!(op.accepts(&Reply::Context(vec![0; 34])));
}

#[test]
fn monitor_enable() {
    let mut xc = control();
    let result = run(
        xc.monitor_enable(5),
        vec![
            (Call::ClearLastError, Reply::Done),
            (Call::MonitorEnable { domid: 5 }, Reply::RingPage { page: Some(0x7000), port: 12 }),
            (
                Call::InitRing {
                    page: 0x7000,
                    header: RingHeader {
                        req_prod: 0,
                        req_event: 1,
                        rsp_prod: 0,
                        rsp_event: 1,
                        pvt_pad: [0; 4],
                        pad: [0; 44],
                    },
                },
                Reply::Done,
            ),
            (Call::GetLastError, Reply::LastError(0)),
        ],
    );
    assert_eq!(
        result,
        Ok(Outcome::Ring {
            page: 0x7000,
            back_ring: BackRing { rsp_prod_pvt: 0, req_cons: 0, nr_ents: 8, sring: 0x7000 },
            remote_port: 12,
        })
    );
    assert_eq!(xc, control());
}

#[test]
fn monitor_enable_without_page() {
    let result = run(
        control().monitor_enable(5),
        vec![
            (Call::ClearLastError, Reply::Done),
            (Call::MonitorEnable { domid: 5 }, Reply::RingPage { page: None, port: 0 }),
        ],
    );
    assert_eq!(
        result.unwrap_err().desc(),
        "Failed to enable event monitor ring: ring page is null"
    );
}

#[test]
fn monitor_enable_failure() {
    let op = control()
        .monitor_enable(5)
        .resume(Reply::Done)
        .resume(Reply::RingPage { page: Some(1), port: 2 })
        .resume(Reply::Done);
    let result = run(
        op,
        vec![
            (Call::GetLastError, Reply::LastError(1)),
            (Call::ErrorCodeToDesc { code: 1 }, Reply::Description("Internal error".to_string())),
        ],
    );
    assert_eq!(result.unwrap_err().desc(), "Internal error");
}

fn ring(rsp_prod_pvt: u32, req_cons: u32) -> BackRing<u64> {
    BackRing { rsp_prod_pvt, req_cons, nr_ents: 8, sring: 0x7000 }
}

#[test]
fn get_request() {
    let mut back_ring = ring(9, 10);
    let op = control().get_request(&mut back_ring);
    assert_eq!(back_ring, ring(9, 11));
    let result = run(
        op,
        vec![
            (Call::ReadRequest { page: 0x7000, slot: 2 }, Reply::Record(0xcafe)),
            (Call::SetReqEvent { page: 0x7000, req_event: 12 }, Reply::Done),
            (Call::GetLastError, Reply::LastError(0)),
        ],
    );
    assert_eq!(result, Ok(Outcome::Record(0xcafe)));
}

#[test]
fn get_request_with_stale_error() {
    let mut back_ring = ring(0, 0);
    let result = run(
        control().get_request(&mut back_ring),
        vec![
            (Call::ReadRequest { page: 0x7000, slot: 0 }, Reply::Record(0xcafe)),
            (Call::SetReqEvent { page: 0x7000, req_event: 2 }, Reply::Done),
            (Call::GetLastError, Reply::LastError(2)),
            (Call::ErrorCodeToDesc { code: 2 }, Reply::Description("Invalid kernel".to_string())),
        ],
    );
    assert_eq!(result.unwrap_err().desc(), "Invalid kernel");
    assert_eq!(back_ring, ring(0, 1));
}

#[test]
fn put_response() {
    let mut back_ring = ring(10, 11);
    let op = control().put_response(0xbeef, &mut back_ring);
    assert_eq!(back_ring, ring(11, 11));
    let result = run(
        op,
        vec![
            (Call::WriteResponse { page: 0x7000, slot: 2, response: 0xbeef }, Reply::Done),
            (Call::PushResponses { page: 0x7000, rsp_prod: 11 }, Reply::Done),
            (Call::GetLastError, Reply::LastError(0)),
        ],
    );
    assert_eq!(result, Ok(Outcome::Done));
}

#[test]
fn requests_and_responses_in_order() {
    let xc = control();
    let mut back_ring = ring(0, 0);
    let mut slots = [0u64; 8];
    let mut header = RingHeader::new();
    for round in 0..5u64 {
        for k in 0..8u64 {
            slots[((round * 8 + k) % 8) as usize] = round * 8 + k;
        }
        for k in 0..8u64 {
            for op in [xc.get_request(&mut back_ring), xc.put_response(100 + k, &mut back_ring)] {
                let mut op = op;
                while let Some(call) = op.call() {
                    let reply = match call {
                        Call::ReadRequest { slot, .. } => Reply::Record(slots[slot as usize]),
                        Call::SetReqEvent { req_event, .. } => {
                            header.req_event = req_event;
                            Reply::Done
                        }
                        Call::WriteResponse { slot, response, .. } => {
                            slots[slot as usize] = response;
                            Reply::Done
                        }
                        Call::PushResponses { rsp_prod, .. } => {
                            header.rsp_prod = rsp_prod;
                            Reply::Done
                        }
                        Call::GetLastError => Reply::LastError(0),
                        _ => panic!("unexpected call"),
                    };
                    op = op.resume(reply);
                }
                if let Ok(Outcome::Record(request)) = op.finish() {
                    assert_eq!(request, round * 8 + k);
                }
            }
            let taken = (round * 8 + k + 1) as u32;
            assert_eq!(header.req_event, taken + 1);
            assert_eq!(header.rsp_prod, taken);
            assert_eq!(slots[k as usize], 100 + k);
        }
    }
    assert_eq!(back_ring, ring(40, 40));
}

#[test]
fn get_event_type() {
    let req = VmEventRequest {
        reason: 4,
        write_ctrlreg: WriteCtrlreg { index: 0, new_value: 1, old_value: 2 },
        mov_to_msr: MovToMsr { msr: 0, new_value: 0 },
        software_breakpoint: SoftwareBreakpoint { gfn: 0, insn_length: 0 },
        mem_access: MemAccess { gla: 0, flags: 0 },
        singlestep: Singlestep { gfn: 0 },
    };
    let event = XenEventType::Cr { cr_type: XenCr::Cr0, new: 1, old: 2 };
    assert_eq!(req.event_type(), Some(event));
    let result = run(
        control().get_event_type(req),
        vec![(Call::GetLastError, Reply::LastError(0))],
    );
    assert_eq!(result, Ok(Outcome::Event(event)));
    let result = run(
        control().get_event_type(req),
        vec![
            (Call::GetLastError, Reply::LastError(1)),
            (Call::ErrorCodeToDesc { code: 1 }, Reply::Description("Internal error".to_string())),
        ],
    );
    assert_eq!(result.unwrap_err().desc(), "Internal error");
}

#[test]
fn replies_to_other_calls_are_rejected() {
    let op = control().domain_pause(5);
    assert!(!op.accepts(&Reply::LastError(0)));
    assert!(!op.accepts(&Reply::Record(1)));
    assert!(op.accepts(&Reply::Done));
    let op = op.resume(Reply::Done).resume(Reply::Done);
    assert!(!op.accepts(&Reply::Done));
    let op = op.resume(Reply::LastError(0));
    assert!(!op.accepts(&Reply::Done));
}

#[test]
fn errors_carry_their_description() {
    assert_eq!(XcError::new("Invalid kernel").desc(), "Invalid kernel");
    assert_eq!(XcError::from_description("Out of memory".to_string()).desc(), "Out of memory");
}
