//! The control interface: what can be asked of the hypervisor.
//!
//! Every method starts an [`Operation`]; what it then asks and returns is said by its
//! [`Script`].
use core::convert::From;

use vstd::pervasive::unreached;
use vstd::prelude::*;

use crate::access::XenPageAccess;
use crate::event::{VmEventRequest, XenCr, XenEventType};
use crate::operation::{Call, Dialogue, Operation, Script};
use crate::ring::{BackRing, RingLayout};

verus! {

/// How the structures that are shared with the hypervisor are laid out.
#[derive(Debug, Copy, Clone, PartialEq, Eq, Structural)]
pub struct Layout {
    /// The type of the records that hold the state of a virtual CPU.
    pub cpu_typecode: u16,
    /// The bytes of the state of a virtual CPU.
    pub cpu_size: u32,
    /// The event ring.
    pub ring: RingLayout,
}

/// An open control interface.
#[derive(Debug, PartialEq, Eq)]
pub struct XenControl<R> {
    pub handle: R,
    pub layout: Layout,
}

impl<R: Copy> XenControl<R> {
    /// The event ring fits its page.
    pub open spec fn wf(self) -> bool {
        self.layout.ring.wf()
    }

    /// Opens the control interface.
    pub fn new(
        layout: Layout,
        logger: Option<R>,
        dombuild_logger: Option<R>,
        open_flags: u32,
    ) -> (operation: Operation<R>)
        ensures
            operation@ == Dialogue::start(
                None,
                Script::Open { logger, dombuild_logger, open_flags, layout },
            ),
    {
        Operation::start(None, Script::Open { logger, dombuild_logger, open_flags, layout })
    }

    /// Opens the control interface without loggers of its own and without flags.
    pub fn default(layout: Layout) -> (operation: Operation<R>)
        ensures
            operation@ == Dialogue::start(
                None,
                Script::<R>::Open { logger: None, dombuild_logger: None, open_flags: 0, layout },
            ),
    {
        Self::new(layout, None, None, 0)
    }

    /// Fetches information about the domain `domid`.
    pub fn domain_getinfo(&self, domid: u32) -> (operation: Operation<R>)
        ensures
            operation@ == Dialogue::start(
                Some(self.handle),
                Script::<R>::Checked {
                    request: Call::DomainGetinfo { first_domid: domid, max_doms: 1 },
                },
            ),
    {
        Operation::start(
            Some(self.handle),
            Script::Checked { request: Call::DomainGetinfo { first_domid: domid, max_doms: 1 } },
        )
    }

    /// Makes the debug request `op` for the virtual CPU `vcpu`.
    pub fn domain_debug_control(&self, domid: u32, op: u32, vcpu: u32) -> (operation: Operation<
        R,
    >)
        ensures
            operation@ == Dialogue::start(
                Some(self.handle),
                Script::<R>::Checked { request: Call::DomainDebugControl { domid, op, vcpu } },
            ),
    {
        Operation::start(
            Some(self.handle),
            Script::Checked { request: Call::DomainDebugControl { domid, op, vcpu } },
        )
    }

    /// Fetches the state of the virtual CPU `vcpu`.
    pub fn domain_hvm_getcontext_partial(&self, domid: u32, vcpu: u16) -> (operation: Operation<R>)
        ensures
            operation@ == Dialogue::start(
                Some(self.handle),
                Script::<R>::Checked {
                    request: Call::DomainHvmGetcontextPartial {
                        domid,
                        typecode: self.layout.cpu_typecode,
                        instance: vcpu,
                        size: self.layout.cpu_size,
                    },
                },
            ),
    {
        Operation::start(
            Some(self.handle),
            Script::Checked {
                request: Call::DomainHvmGetcontextPartial {
                    domid,
                    typecode: self.layout.cpu_typecode,
                    instance: vcpu,
                    size: self.layout.cpu_size,
                },
            },
        )
    }

    /// Replaces the context of the domain with the `size` bytes of `buffer`.
    pub fn domain_hvm_setcontext(&self, domid: u32, buffer: R, size: usize) -> (operation:
        Operation<R>)
        requires
            size <= u32::MAX,
        ensures
            operation@ == Dialogue::start(
                Some(self.handle),
                Script::Checked {
                    request: Call::DomainHvmSetcontext { domid, buffer, size: size as u32 },
                },
            ),
    {
        Operation::start(
            Some(self.handle),
            Script::Checked {
                request: Call::DomainHvmSetcontext { domid, buffer, size: size as u32 },
            },
        )
    }

    /// Fetches the context of the domain, and finds the state of the virtual CPU `vcpu` in it.
    pub fn domain_hvm_getcontext(&self, domid: u32, vcpu: u16) -> (operation: Operation<R>)
        ensures
            operation@ == Dialogue::start(
                Some(self.handle),
                Script::<R>::Context {
                    domid,
                    typecode: self.layout.cpu_typecode,
                    vcpu,
                    cpu_size: self.layout.cpu_size,
                },
            ),
    {
        Operation::start(
            Some(self.handle),
            Script::Context {
                domid,
                typecode: self.layout.cpu_typecode,
                vcpu,
                cpu_size: self.layout.cpu_size,
            },
        )
    }

    /// Enables the monitoring of the domain, and sets up the event ring.
    pub fn monitor_enable(&mut self, domid: u32) -> (operation: Operation<R>)
        requires
            old(self).wf(),
        ensures
            operation@ == Dialogue::start(
                Some(old(self).handle),
                Script::<R>::Monitor { domid, ring: old(self).layout.ring },
            ),
            *final(self) == *old(self),
    {
        Operation::start(Some(self.handle), Script::Monitor { domid, ring: self.layout.ring })
    }

    /// Takes the next request off the ring. The count of requests must not run over.
    pub fn get_request(&self, back_ring: &mut BackRing<R>) -> (operation: Operation<R>)
        requires
            old(back_ring).wf(),
            old(back_ring).req_cons + 2 <= u32::MAX,
        ensures
            operation@ == Dialogue::start(
                Some(self.handle),
                Script::<R>::TakeRequest {
                    page: old(back_ring).sring,
                    slot: old(back_ring).slot_of(old(back_ring).req_cons as int) as u32,
                    req_event: (old(back_ring).req_cons + 2) as u32,
                },
            ),
            *final(back_ring) == (BackRing {
                req_cons: (old(back_ring).req_cons + 1) as u32,
                ..*old(back_ring)
            }),
    {
        let (slot, req_event): (u32, u32) = back_ring.consume_request();
        Operation::start(
            Some(self.handle),
            Script::TakeRequest { page: back_ring.sring, slot, req_event },
        )
    }

    /// Puts a response on the ring. The count of responses must not run over.
    pub fn put_response(&self, rsp: R, back_ring: &mut BackRing<R>) -> (operation: Operation<R>)
        requires
            old(back_ring).wf(),
            old(back_ring).rsp_prod_pvt + 1 <= u32::MAX,
        ensures
            operation@ == Dialogue::start(
                Some(self.handle),
                Script::PutResponse {
                    page: old(back_ring).sring,
                    slot: old(back_ring).slot_of(old(back_ring).rsp_prod_pvt as int) as u32,
                    response: rsp,
                    rsp_prod: (old(back_ring).rsp_prod_pvt + 1) as u32,
                },
            ),
            *final(back_ring) == (BackRing {
                rsp_prod_pvt: (old(back_ring).rsp_prod_pvt + 1) as u32,
                ..*old(back_ring)
            }),
    {
        let (slot, rsp_prod): (u32, u32) = back_ring.produce_response();
        Operation::start(
            Some(self.handle),
            Script::PutResponse { page: back_ring.sring, slot, response: rsp, rsp_prod },
        )
    }

    /// Reports the event that a request stands for. [`VmEventRequest::event_type`] tells
    /// whether it stands for one.
    pub fn get_event_type(&self, req: VmEventRequest) -> (operation: Operation<R>)
        requires
            req.event() is Some,
        ensures
            operation@ == Dialogue::start(
                Some(self.handle),
                Script::<R>::Event { event: req.event()->0 },
            ),
    {
        let event: XenEventType = match req.event_type() {
            Some(event) => event,
            None => unreached(),
        };
        Operation::start(Some(self.handle), Script::Event { event })
    }

    /// Disables the monitoring of the domain.
    pub fn monitor_disable(&self, domid: u32) -> (operation: Operation<R>)
        ensures
            operation@ == Dialogue::start(
                Some(self.handle),
                Script::<R>::Checked { request: Call::MonitorDisable { domid } },
            ),
    {
        Operation::start(
            Some(self.handle),
            Script::Checked { request: Call::MonitorDisable { domid } },
        )
    }

    /// Pauses the domain.
    pub fn domain_pause(&self, domid: u32) -> (operation: Operation<R>)
        ensures
            operation@ == Dialogue::start(
                Some(self.handle),
                Script::<R>::Checked { request: Call::DomainPause { domid } },
            ),
    {
        Operation::start(
            Some(self.handle),
            Script::Checked { request: Call::DomainPause { domid } },
        )
    }

    /// Resumes the domain.
    pub fn domain_unpause(&self, domid: u32) -> (operation: Operation<R>)
        ensures
            operation@ == Dialogue::start(
                Some(self.handle),
                Script::<R>::Checked { request: Call::DomainUnpause { domid } },
            ),
    {
        Operation::start(
            Some(self.handle),
            Script::Checked { request: Call::DomainUnpause { domid } },
        )
    }

    /// Enables or disables events for breakpoint instructions.
    pub fn monitor_software_breakpoint(&self, domid: u32, enable: bool) -> (operation: Operation<R>)
        ensures
            operation@ == Dialogue::start(
                Some(self.handle),
                Script::<R>::Checked {
                    request: Call::MonitorSoftwareBreakpoint { domid, enable },
                },
            ),
    {
        Operation::start(
            Some(self.handle),
            Script::Checked { request: Call::MonitorSoftwareBreakpoint { domid, enable } },
        )
    }

    /// Enables or disables events for writes to the model specific register `msr`.
    pub fn monitor_mov_to_msr(&self, domid: u32, msr: u32, enable: bool) -> (operation: Operation<
        R,
    >)
        ensures
            operation@ == Dialogue::start(
                Some(self.handle),
                Script::<R>::Checked { request: Call::MonitorMovToMsr { domid, msr, enable } },
            ),
    {
        Operation::start(
            Some(self.handle),
            Script::Checked { request: Call::MonitorMovToMsr { domid, msr, enable } },
        )
    }

    /// Enables or disables events for single steps.
    pub fn monitor_singlestep(&self, domid: u32, enable: bool) -> (operation: Operation<R>)
        ensures
            operation@ == Dialogue::start(
                Some(self.handle),
                Script::<R>::Checked { request: Call::MonitorSinglestep { domid, enable } },
            ),
    {
        Operation::start(
            Some(self.handle),
            Script::Checked { request: Call::MonitorSinglestep { domid, enable } },
        )
    }

    /// Enables or disables events for writes to the control register `index`.
    pub fn monitor_write_ctrlreg(
        &self,
        domid: u32,
        index: XenCr,
        enable: bool,
        sync: bool,
        onchangeonly: bool,
    ) -> (operation: Operation<R>)
        ensures
            operation@ == Dialogue::start(
                Some(self.handle),
                Script::<R>::Checked {
                    request: Call::MonitorWriteCtrlreg {
                        domid,
                        index: index.number() as u16,
                        enable,
                        sync,
                        onchangeonly,
                    },
                },
            ),
    {
        Operation::start(
            Some(self.handle),
            Script::Checked {
                request: Call::MonitorWriteCtrlreg {
                    domid,
                    index: index.index(),
                    enable,
                    sync,
                    onchangeonly,
                },
            },
        )
    }

    /// Sets the permissions on the `nr` pages from `first_pfn` on.
    pub fn set_mem_access(
        &self,
        domid: u32,
        access: XenPageAccess,
        first_pfn: u64,
        nr: u32,
    ) -> (operation: Operation<R>)
        ensures
            operation@ == Dialogue::start(
                Some(self.handle),
                Script::<R>::Checked {
                    request: Call::SetMemAccess { domid, access: access.code(), first_pfn, nr },
                },
            ),
    {
        Operation::start(
            Some(self.handle),
            Script::Checked {
                request: Call::SetMemAccess { domid, access: u32::from(access), first_pfn, nr },
            },
        )
    }

    /// Fetches the permissions on the page `pfn`.
    pub fn get_mem_access(&self, domid: u32, pfn: u64) -> (operation: Operation<R>)
        ensures
            operation@ == Dialogue::start(
                Some(self.handle),
                Script::<R>::Checked { request: Call::GetMemAccess { domid, pfn } },
            ),
    {
        Operation::start(
            Some(self.handle),
            Script::Checked { request: Call::GetMemAccess { domid, pfn } },
        )
    }

    /// Fetches the highest frame number of the domain.
    pub fn domain_maximum_gpfn(&self, domid: u32) -> (operation: Operation<R>)
        ensures
            operation@ == Dialogue::start(
                Some(self.handle),
                Script::<R>::Checked { request: Call::DomainMaximumGpfn { domid } },
            ),
    {
        Operation::start(
            Some(self.handle),
            Script::Checked { request: Call::DomainMaximumGpfn { domid } },
        )
    }

    /// Closes the control interface.
    pub fn close(&mut self) -> (operation: Operation<R>)
        ensures
            operation@ == Dialogue::start(
                Some(old(self).handle),
                Script::<R>::Checked { request: Call::InterfaceClose },
            ),
            *final(self) == *old(self),
    {
        Operation::start(Some(self.handle), Script::Checked { request: Call::InterfaceClose })
    }
}

} // verus!
