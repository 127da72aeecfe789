//! Control operations, as a dialogue with libxenctrl.
//!
//! An [`Operation`] decides, and does nothing by itself. It says which [`Call`] is to be made
//! next; whoever runs it makes the call and hands the [`Reply`] back; and once no call is left it
//! gives the result. What an operation asks, and what it returns, is a function of what it was
//! started for ([`Script`]) and of the replies so far.
//!
//! `R` is the type of what operations pass along unread: handles, loggers, buffers, pages, and
//! the records that libxenctrl fills.
use core::convert::TryFrom;

use vstd::pervasive::unreached;
use vstd::prelude::*;

use crate::access::{access_of, XenPageAccess};
use crate::consts::{XC_ERROR_NONE, XC_INTERNAL_ERROR};
use crate::context::{cpu_state, find_cpu};
use crate::control::{Layout, XenControl};
use crate::error::XcError;
use crate::event::XenEventType;
use crate::ring::{BackRing, RingHeader, RingLayout};

verus! {

/// What is to be done next.
#[derive(Debug, PartialEq, Eq)]
pub enum Call<R> {
    /// Load libxenctrl.
    LoadLibrary,
    /// `xc_interface_open`, with a null pointer for each logger that is absent.
    InterfaceOpen { logger: Option<R>, dombuild_logger: Option<R>, open_flags: u32 },
    /// `xc_interface_close`
    InterfaceClose,
    /// `xc_clear_last_error`
    ClearLastError,
    /// `xc_get_last_error`, of which the code is asked for.
    GetLastError,
    /// `xc_error_code_to_desc`
    ErrorCodeToDesc { code: u32 },
    /// `xc_domain_getinfo`, with a zeroed record to fill.
    DomainGetinfo { first_domid: u32, max_doms: u32 },
    /// `xc_domain_debug_control`
    DomainDebugControl { domid: u32, op: u32, vcpu: u32 },
    /// `xc_domain_hvm_getcontext_partial`, with a zeroed record of `size` bytes to fill.
    DomainHvmGetcontextPartial { domid: u32, typecode: u16, instance: u16, size: u32 },
    /// `xc_domain_hvm_setcontext`
    DomainHvmSetcontext { domid: u32, buffer: R, size: u32 },
    /// `xc_domain_hvm_getcontext` without a buffer, which gives the size that one must have.
    DomainHvmGetcontextSize { domid: u32 },
    /// `xc_domain_hvm_getcontext`, with a zeroed buffer of `size` bytes to fill.
    DomainHvmGetcontext { domid: u32, size: u32 },
    /// `xc_monitor_enable`
    MonitorEnable { domid: u32 },
    /// `xc_monitor_disable`
    MonitorDisable { domid: u32 },
    /// `xc_domain_pause`
    DomainPause { domid: u32 },
    /// `xc_domain_unpause`
    DomainUnpause { domid: u32 },
    /// `xc_monitor_software_breakpoint`
    MonitorSoftwareBreakpoint { domid: u32, enable: bool },
    /// `xc_monitor_mov_to_msr`
    MonitorMovToMsr { domid: u32, msr: u32, enable: bool },
    /// `xc_monitor_singlestep`
    MonitorSinglestep { domid: u32, enable: bool },
    /// `xc_monitor_write_ctrlreg`
    MonitorWriteCtrlreg { domid: u32, index: u16, enable: bool, sync: bool, onchangeonly: bool },
    /// `xc_set_mem_access`
    SetMemAccess { domid: u32, access: u32, first_pfn: u64, nr: u32 },
    /// `xc_get_mem_access`, with `XENMEM_access_n` to overwrite.
    GetMemAccess { domid: u32, pfn: u64 },
    /// `xc_domain_maximum_gpfn`, with 0 to overwrite.
    DomainMaximumGpfn { domid: u32 },
    /// Write `header` to the ring page `page`, over all that stood there before the entries.
    InitRing { page: R, header: RingHeader },
    /// Read the request in the entry `slot` of the ring.
    ReadRequest { page: R, slot: u32 },
    /// Write `req_event` to the header of the ring.
    SetReqEvent { page: R, req_event: u32 },
    /// Write the response to the entry `slot` of the ring.
    WriteResponse { page: R, slot: u32, response: R },
    /// Write `rsp_prod` to the header of the ring, after everything that was written before.
    PushResponses { page: R, rsp_prod: u32 },
}

impl<R: Copy> Copy for Call<R> {

}

impl<R: Copy> Clone for Call<R> {
    fn clone(&self) -> (copy: Self)
        ensures
            copy == *self,
    {
        *self
    }
}

impl<R: Copy> Call<R> {
    /// Whether the call is a request to the hypervisor of which the outcome is told by the last
    /// error, and which needs no further calls.
    pub open spec fn is_request(self) -> bool {
        match self {
            Call::LoadLibrary => false,
            Call::InterfaceOpen { .. } => false,
            Call::ClearLastError => false,
            Call::GetLastError => false,
            Call::ErrorCodeToDesc { .. } => false,
            Call::DomainHvmGetcontextSize { .. } => false,
            Call::DomainHvmGetcontext { .. } => false,
            Call::MonitorEnable { .. } => false,
            Call::InitRing { .. } => false,
            Call::ReadRequest { .. } => false,
            Call::SetReqEvent { .. } => false,
            Call::WriteResponse { .. } => false,
            Call::PushResponses { .. } => false,
            _ => true,
        }
    }
}

/// What a call gave.
#[derive(Debug)]
pub enum Reply<R> {
    /// The call was made, and gives nothing.
    Done,
    /// The library was loaded.
    Loaded,
    /// The library was not loaded, for the reason that is given.
    LoadFailed(String),
    /// The handle of the interface; none if it was not opened.
    Handle(Option<R>),
    /// The code of the last error.
    LastError(u32),
    /// The description of an error code.
    Description(String),
    /// The record that was filled or read.
    Record(R),
    /// The size that a buffer for the context must have.
    ContextSize(i32),
    /// The context.
    Context(Vec<u8>),
    /// The ring page, if there is one, and the event channel port.
    RingPage { page: Option<R>, port: u32 },
    /// The number of the permissions on a page.
    Access(u32),
    /// The highest guest frame number.
    MaximumGpfn(u64),
}

impl<R: Copy> Reply<R> {
    /// Whether this is a reply to `call`.
    pub open spec fn answers(self, call: Call<R>) -> bool {
        match call {
            Call::LoadLibrary => self is Loaded || self is LoadFailed,
            Call::InterfaceOpen { .. } => self is Handle,
            Call::GetLastError => self is LastError,
            Call::ErrorCodeToDesc { .. } => self is Description,
            Call::DomainGetinfo { .. } => self is Record,
            Call::DomainHvmGetcontextPartial { .. } => self is Record,
            Call::ReadRequest { .. } => self is Record,
            Call::DomainHvmGetcontextSize { .. } => self matches Reply::ContextSize(size)
                && size >= 0,
            Call::DomainHvmGetcontext { size, .. } => self matches Reply::Context(context)
                && context@.len() == size,
            Call::MonitorEnable { .. } => self is RingPage,
            Call::GetMemAccess { .. } => self is Access,
            Call::DomainMaximumGpfn { .. } => self is MaximumGpfn,
            _ => self is Done,
        }
    }

    /// Whether this is a reply to `call`.
    pub fn is_answer(&self, call: Call<R>) -> (answer: bool)
        ensures
            answer == self.answers(call),
    {
        match call {
            Call::LoadLibrary => matches!(self, Reply::Loaded | Reply::LoadFailed(_)),
            Call::InterfaceOpen { .. } => matches!(self, Reply::Handle(_)),
            Call::GetLastError => matches!(self, Reply::LastError(_)),
            Call::ErrorCodeToDesc { .. } => matches!(self, Reply::Description(_)),
            Call::DomainGetinfo { .. } => matches!(self, Reply::Record(_)),
            Call::DomainHvmGetcontextPartial { .. } => matches!(self, Reply::Record(_)),
            Call::ReadRequest { .. } => matches!(self, Reply::Record(_)),
            Call::DomainHvmGetcontextSize { .. } => match self {
                Reply::ContextSize(size) => *size >= 0,
                _ => false,
            },
            Call::DomainHvmGetcontext { size, .. } => match self {
                Reply::Context(context) => context.len() == size as usize,
                _ => false,
            },
            Call::MonitorEnable { .. } => matches!(self, Reply::RingPage { .. }),
            Call::GetMemAccess { .. } => matches!(self, Reply::Access(_)),
            Call::DomainMaximumGpfn { .. } => matches!(self, Reply::MaximumGpfn(_)),
            _ => matches!(self, Reply::Done),
        }
    }
}

/// What an operation returns when it succeeds.
#[derive(Debug, PartialEq, Eq)]
pub enum Outcome<R> {
    /// Nothing.
    Done,
    /// The control interface that was opened.
    Opened(XenControl<R>),
    /// The record that was filled or read.
    Record(R),
    /// The context, where in it the state of the CPU that was asked for starts, and the size of
    /// the context.
    Context { buffer: Vec<u8>, cpu: usize, size: u32 },
    /// The ring page, its private end, and the event channel port.
    Ring { page: R, back_ring: BackRing<R>, remote_port: u32 },
    /// The permissions on a page.
    Access(XenPageAccess),
    /// The highest guest frame number.
    MaximumGpfn(u64),
    /// The event that a request stands for.
    Event(XenEventType),
}

/// What an operation was started for.
#[derive(Debug)]
pub enum Script<R> {
    /// Open the interface.
    Open {
        logger: Option<R>,
        dombuild_logger: Option<R>,
        open_flags: u32,
        layout: Layout,
    },
    /// Make one request, and report the error that it left.
    Checked { request: Call<R> },
    /// Fetch the whole context of a domain, and find the state of a virtual CPU in it.
    Context { domid: u32, typecode: u16, vcpu: u16, cpu_size: u32 },
    /// Enable monitoring, and set up the ring.
    Monitor { domid: u32, ring: RingLayout },
    /// Take a request off the ring.
    TakeRequest { page: R, slot: u32, req_event: u32 },
    /// Put a response on the ring.
    PutResponse { page: R, slot: u32, response: R, rsp_prod: u32 },
    /// Report an event.
    Event { event: XenEventType },
}

impl<R: Copy> Copy for Script<R> {

}

impl<R: Copy> Clone for Script<R> {
    fn clone(&self) -> (copy: Self)
        ensures
            copy == *self,
    {
        *self
    }
}

impl<R: Copy> Script<R> {
    /// A request that is checked is one that can be, and a ring fits its page.
    pub open spec fn wf(self) -> bool {
        match self {
            Script::Checked { request } => request.is_request(),
            Script::Monitor { ring, .. } => ring.wf(),
            _ => true,
        }
    }

    /// The number of calls before the last error is asked for.
    pub open spec fn work(self) -> nat {
        match self {
            Script::Checked { .. } => 2,
            Script::Context { .. } => 4,
            Script::Monitor { .. } => 3,
            Script::TakeRequest { .. } => 2,
            Script::PutResponse { .. } => 2,
            _ => 0,
        }
    }

    /// The call that comes after `replies`, of those before the last error is asked for.
    pub open spec fn work_call(self, replies: Seq<Reply<R>>) -> Call<R> {
        let n = replies.len();
        match self {
            Script::Checked { request } => if n == 0 {
                Call::ClearLastError
            } else {
                request
            },
            Script::Context { domid, .. } => if n == 1 {
                Call::DomainHvmGetcontextSize { domid }
            } else if n == 3 {
                Call::DomainHvmGetcontext { domid, size: replies[1]->ContextSize_0 as u32 }
            } else {
                Call::ClearLastError
            },
            Script::Monitor { domid, .. } => if n == 0 {
                Call::ClearLastError
            } else if n == 1 {
                Call::MonitorEnable { domid }
            } else {
                Call::InitRing { page: replies[1]->page->0, header: RingHeader::empty() }
            },
            Script::TakeRequest { page, slot, req_event } => if n == 0 {
                Call::ReadRequest { page, slot }
            } else {
                Call::SetReqEvent { page, req_event }
            },
            Script::PutResponse { page, slot, response, rsp_prod } => if n == 0 {
                Call::WriteResponse { page, slot, response }
            } else {
                Call::PushResponses { page, rsp_prod }
            },
            _ => Call::GetLastError,
        }
    }

    /// Monitoring was enabled, but there is no ring page.
    pub open spec fn ring_page_missing(self, replies: Seq<Reply<R>>) -> bool {
        self is Monitor && replies.len() == 2 && replies[1]->page is None
    }

    /// The call that comes after `replies`; none if the operation is over.
    pub open spec fn pending(self, replies: Seq<Reply<R>>) -> Option<Call<R>> {
        let n = replies.len();
        match self {
            Script::Open { logger, dombuild_logger, open_flags, .. } => if n == 0 {
                Some(Call::LoadLibrary)
            } else if n == 1 && replies[0] is Loaded {
                Some(Call::InterfaceOpen { logger, dombuild_logger, open_flags })
            } else if n == 2 && replies[1]->Handle_0 is None {
                Some(Call::ErrorCodeToDesc { code: XC_INTERNAL_ERROR })
            } else {
                None
            },
            _ => if self.ring_page_missing(replies) {
                None
            } else if n < self.work() {
                Some(self.work_call(replies))
            } else if n == self.work() {
                Some(Call::GetLastError)
            } else if n == self.work() + 1 && replies[n - 1]->LastError_0 != XC_ERROR_NONE {
                Some(Call::ErrorCodeToDesc { code: replies[n - 1]->LastError_0 })
            } else {
                None
            },
        }
    }

    /// Whether there is a value to return if no error was recorded: the number of permissions
    /// that were fetched is known, and a context holds the state of the CPU that was asked for.
    pub open spec fn has_value(self, replies: Seq<Reply<R>>) -> bool {
        match self {
            Script::Checked { .. } => replies[1] matches Reply::Access(code) ==> access_of(
                code,
            ) is Some,
            Script::Context { typecode, vcpu, cpu_size, .. } => cpu_state(
                replies[3]->Context_0@,
                typecode,
                vcpu,
                cpu_size,
            ) is Some,
            _ => true,
        }
    }

    /// What the operation returns if no error was recorded.
    pub open spec fn value(self, replies: Seq<Reply<R>>) -> Outcome<R> {
        match self {
            Script::Checked { .. } => match replies[1] {
                Reply::Record(record) => Outcome::Record(record),
                Reply::Access(code) => Outcome::Access(access_of(code)->0),
                Reply::MaximumGpfn(gpfn) => Outcome::MaximumGpfn(gpfn),
                _ => Outcome::Done,
            },
            Script::Context { typecode, vcpu, cpu_size, .. } => {
                let buffer = replies[3]->Context_0;
                Outcome::Context {
                    buffer,
                    cpu: cpu_state(buffer@, typecode, vcpu, cpu_size)->0,
                    size: replies[1]->ContextSize_0 as u32,
                }
            },
            Script::Monitor { ring, .. } => Outcome::Ring {
                page: replies[1]->page->0,
                back_ring: BackRing::empty(ring, replies[1]->page->0),
                remote_port: replies[1]->port,
            },
            Script::TakeRequest { .. } => Outcome::Record(replies[0]->Record_0),
            Script::Event { event } => Outcome::Event(event),
            _ => Outcome::Done,
        }
    }

    /// What the operation returns after `replies`, when it is over.
    pub open spec fn result(self, replies: Seq<Reply<R>>) -> Result<Outcome<R>, Seq<char>> {
        let n = replies.len();
        match self {
            Script::Open { layout, .. } => match replies[n - 1] {
                Reply::Handle(handle) => Ok(
                    Outcome::Opened(XenControl { handle: handle->0, layout }),
                ),
                Reply::LoadFailed(reason) => Err(reason@),
                _ => Err(replies[n - 1]->Description_0@),
            },
            _ => if self.ring_page_missing(replies) {
                Err("Failed to enable event monitor ring: ring page is null"@)
            } else if n == self.work() + 1 {
                Ok(self.value(replies))
            } else {
                Err(replies[n - 1]->Description_0@)
            },
        }
    }

    /// Whether `reply` can come after `replies`: it answers the call that was made, and that no
    /// error was recorded comes only where there is a value to return.
    pub open spec fn accepts(self, replies: Seq<Reply<R>>, reply: Reply<R>) -> bool {
        &&& self.pending(replies) is Some
        &&& reply.answers(self.pending(replies)->0)
        &&& reply == Reply::<R>::LastError(XC_ERROR_NONE) ==> self.has_value(replies)
    }

    /// Whether `replies` can be the replies so far.
    pub open spec fn admits(self, replies: Seq<Reply<R>>) -> bool
        decreases replies.len(),
    {
        replies.len() == 0 || {
            &&& self.admits(replies.drop_last())
            &&& self.accepts(replies.drop_last(), replies.last())
        }
    }
}

/// How far an operation has come, with what it needs of the replies so far.
#[derive(Debug)]
enum Stage<R> {
    /// Nothing was done yet.
    Begin,
    /// The library was loaded.
    Loaded,
    /// The interface could not be opened.
    Unopened,
    /// The last error was cleared.
    Cleared,
    /// The size of the context is known.
    Sized(u32),
    /// The size of the context is known, and the last error was cleared again.
    SizedCleared(u32),
    /// The ring page is mapped.
    Mapped { page: R, port: u32 },
    /// The entry of the ring was accessed.
    Accessed(Reply<R>),
    /// The work was done; the last error decides.
    Verify(Reply<R>),
    /// An error was recorded.
    Failed(u32),
    /// The operation is over.
    Over(Result<Outcome<R>, XcError>),
}

impl<R: Copy> Stage<R> {
    /// Whether this is how far `script` has come after `replies`.
    closed spec fn follows(self, script: Script<R>, replies: Seq<Reply<R>>) -> bool {
        let n = replies.len();
        match self {
            Stage::Begin => n == 0 && !(script is Event),
            Stage::Loaded => n == 1 && script is Open && replies[0] is Loaded,
            Stage::Unopened => n == 2 && script is Open && replies[1]->Handle_0 is None,
            Stage::Cleared => n == 1 && (script is Checked || script is Context
                || script is Monitor),
            Stage::Sized(size) => n == 2 && script is Context && size as int
                == replies[1]->ContextSize_0,
            Stage::SizedCleared(size) => n == 3 && script is Context && size as int
                == replies[1]->ContextSize_0,
            Stage::Mapped { page, port } => n == 2 && script is Monitor && replies[1]
                == Reply::RingPage { page: Some(page), port },
            Stage::Accessed(reply) => n == 1 && (script is TakeRequest || script is PutResponse)
                && reply == replies[0] && (script is TakeRequest ==> reply is Record),
            Stage::Verify(reply) => n == script.work() && !(script is Open) && match script {
                Script::Checked { .. } => reply == replies[1],
                Script::Context { .. } => reply == replies[3] && reply is Context
                    && replies[3]->Context_0@.len() == replies[1]->ContextSize_0,
                Script::Monitor { .. } => reply == replies[1] && reply is RingPage
                    && replies[1]->page is Some,
                Script::TakeRequest { .. } => reply == replies[0] && reply is Record,
                _ => true,
            },
            Stage::Failed(code) => n == script.work() + 1 && !(script is Open) && replies[n - 1]
                == Reply::<R>::LastError(code) && code != XC_ERROR_NONE,
            Stage::Over(result) => script.pending(replies) is None && match result {
                Ok(outcome) => script.result(replies) == Ok::<Outcome<R>, Seq<char>>(outcome),
                Err(error) => script.result(replies) == Err::<Outcome<R>, Seq<char>>(error@),
            },
        }
    }
}

/// An operation that is under way.
pub struct Operation<R: Copy> {
    handle: Option<R>,
    script: Script<R>,
    stage: Stage<R>,
    replies: Ghost<Seq<Reply<R>>>,
}

/// The interface that an operation uses, if it is open, what the operation was started for, and
/// the replies so far.
pub struct Dialogue<R> {
    pub handle: Option<R>,
    pub script: Script<R>,
    pub replies: Seq<Reply<R>>,
}

impl<R> Dialogue<R> {
    /// An operation that was just started.
    pub open spec fn start(handle: Option<R>, script: Script<R>) -> Dialogue<R> {
        Dialogue { handle, script, replies: Seq::empty() }
    }
}

impl<R: Copy> View for Operation<R> {
    type V = Dialogue<R>;

    closed spec fn view(&self) -> Dialogue<R> {
        Dialogue { handle: self.handle, script: self.script, replies: self.replies@ }
    }
}

impl<R: Copy> Operation<R> {
    #[verifier::type_invariant]
    spec fn inv(self) -> bool {
        &&& self.script.wf()
        &&& self.stage.follows(self.script, self.replies@)
    }

    /// Starts an operation on the interface `handle`; none if it is yet to be opened.
    pub fn start(handle: Option<R>, script: Script<R>) -> (operation: Operation<R>)
        requires
            script.wf(),
        ensures
            operation@ == Dialogue::start(handle, script),
    {
        let stage: Stage<R> = match script {
            Script::Event { .. } => Stage::Verify(Reply::Done),
            _ => Stage::Begin,
        };
        Operation { handle, script, stage, replies: Ghost(Seq::empty()) }
    }

    /// The handle of the interface on which the calls are to be made.
    pub fn handle(&self) -> (handle: Option<R>)
        ensures
            handle == self@.handle,
    {
        self.handle
    }

    /// The call that is to be made next; none if the operation is over.
    pub fn call(&self) -> (call: Option<Call<R>>)
        ensures
            call == self@.script.pending(self@.replies),
    {
        proof {
            use_type_invariant(self);
        }
        match &self.stage {
            Stage::Begin => match self.script {
                Script::Open { .. } => Some(Call::LoadLibrary),
                Script::TakeRequest { page, slot, .. } => Some(Call::ReadRequest { page, slot }),
                Script::PutResponse { page, slot, response, .. } => Some(
                    Call::WriteResponse { page, slot, response },
                ),
                _ => Some(Call::ClearLastError),
            },
            Stage::Loaded => match self.script {
                Script::Open { logger, dombuild_logger, open_flags, .. } => Some(
                    Call::InterfaceOpen { logger, dombuild_logger, open_flags },
                ),
                _ => unreached(),
            },
            Stage::Unopened => Some(Call::ErrorCodeToDesc { code: XC_INTERNAL_ERROR }),
            Stage::Cleared => match self.script {
                Script::Checked { request } => Some(request),
                Script::Context { domid, .. } => Some(Call::DomainHvmGetcontextSize { domid }),
                Script::Monitor { domid, .. } => Some(Call::MonitorEnable { domid }),
                _ => unreached(),
            },
            Stage::Sized(_) => Some(Call::ClearLastError),
            Stage::SizedCleared(size) => match self.script {
                Script::Context { domid, .. } => Some(
                    Call::DomainHvmGetcontext { domid, size: *size },
                ),
                _ => unreached(),
            },
            Stage::Mapped { page, .. } => Some(
                Call::InitRing { page: *page, header: RingHeader::new() },
            ),
            Stage::Accessed(_) => match self.script {
                Script::TakeRequest { page, req_event, .. } => Some(
                    Call::SetReqEvent { page, req_event },
                ),
                Script::PutResponse { page, rsp_prod, .. } => Some(
                    Call::PushResponses { page, rsp_prod },
                ),
                _ => unreached(),
            },
            Stage::Verify(_) => Some(Call::GetLastError),
            Stage::Failed(code) => Some(Call::ErrorCodeToDesc { code: *code }),
            Stage::Over(_) => None,
        }
    }

    /// Whether `reply` can be the reply to the call that is to be made next.
    pub fn accepts(&self, reply: &Reply<R>) -> (accepted: bool)
        ensures
            accepted == self@.script.accepts(self@.replies, *reply),
    {
        let call: Call<R> = match self.call() {
            Some(call) => call,
            None => {
                return false;
            },
        };
        if !reply.is_answer(call) {
            return false;
        }
        proof {
            use_type_invariant(self);
        }
        match (&self.script, &self.stage, reply) {
            (
                Script::Checked { .. },
                Stage::Verify(Reply::Access(access)),
                Reply::LastError(XC_ERROR_NONE),
            ) => XenPageAccess::try_from(*access).is_ok(),
            (
                Script::Context { typecode, vcpu, cpu_size, .. },
                Stage::Verify(Reply::Context(buffer)),
                Reply::LastError(XC_ERROR_NONE),
            ) => find_cpu(buffer, *typecode, *vcpu, *cpu_size).is_some(),
            _ => true,
        }
    }

    /// The value that `script` returns when no error was recorded.
    fn deliver(script: Script<R>, reply: Reply<R>, replies: Ghost<Seq<Reply<R>>>) -> (outcome:
        Outcome<R>)
        requires
            script.wf(),
            !(script is Open),
            Stage::Verify(reply).follows(script, replies@),
            script.has_value(replies@),
        ensures
            outcome == script.value(replies@),
    {
        match script {
            Script::Checked { .. } => match reply {
                Reply::Record(record) => Outcome::Record(record),
                Reply::Access(code) => match XenPageAccess::try_from(code) {
                    Ok(access) => Outcome::Access(access),
                    Err(_) => unreached(),
                },
                Reply::MaximumGpfn(gpfn) => Outcome::MaximumGpfn(gpfn),
                _ => Outcome::Done,
            },
            Script::Context { typecode, vcpu, cpu_size, .. } => match reply {
                Reply::Context(buffer) => {
                    let cpu: usize = match find_cpu(&buffer, typecode, vcpu, cpu_size) {
                        Some(cpu) => cpu,
                        None => unreached(),
                    };
                    let size: u32 = buffer.len() as u32;
                    Outcome::Context { buffer, cpu, size }
                },
                _ => unreached(),
            },
            Script::Monitor { ring, .. } => match reply {
                Reply::RingPage { page: Some(page), port } => Outcome::Ring {
                    page,
                    back_ring: BackRing::init(ring, page),
                    remote_port: port,
                },
                _ => unreached(),
            },
            Script::TakeRequest { .. } => match reply {
                Reply::Record(request) => Outcome::Record(request),
                _ => unreached(),
            },
            Script::Event { event } => Outcome::Event(event),
            _ => Outcome::Done,
        }
    }

    /// The operation after `reply` came to the call that it asked for.
    pub fn resume(self, reply: Reply<R>) -> (operation: Operation<R>)
        requires
            self@.script.accepts(self@.replies, reply),
        ensures
            operation@ == (Dialogue { replies: self@.replies.push(reply), ..self@ }),
    {
        proof {
            use_type_invariant(&self);
        }
        let handle: Option<R> = self.handle;
        let script: Script<R> = self.script;
        let replies: Ghost<Seq<Reply<R>>> = self.replies;
        let after: Ghost<Seq<Reply<R>>> = Ghost(self.replies@.push(reply));
        let stage: Stage<R> = match self.stage {
            Stage::Begin => match script {
                Script::Open { .. } => match reply {
                    Reply::LoadFailed(reason) => Stage::Over(
                        Err(XcError::from_description(reason)),
                    ),
                    _ => Stage::Loaded,
                },
                Script::TakeRequest { .. } => Stage::Accessed(reply),
                Script::PutResponse { .. } => Stage::Accessed(reply),
                _ => Stage::Cleared,
            },
            Stage::Loaded => match (script, reply) {
                (Script::Open { layout, .. }, Reply::Handle(Some(handle))) => Stage::Over(
                    Ok(Outcome::Opened(XenControl { handle, layout })),
                ),
                _ => Stage::Unopened,
            },
            Stage::Cleared => match (script, reply) {
                (Script::Context { .. }, Reply::ContextSize(size)) => Stage::Sized(size as u32),
                (Script::Monitor { .. }, Reply::RingPage { page: Some(page), port }) => {
                    Stage::Mapped { page, port }
                },
                (Script::Monitor { .. }, _) => Stage::Over(
                    Err(XcError::new("Failed to enable event monitor ring: ring page is null")),
                ),
                (_, reply) => Stage::Verify(reply),
            },
            Stage::Sized(size) => Stage::SizedCleared(size),
            Stage::SizedCleared(_) => Stage::Verify(reply),
            Stage::Mapped { page, port } => Stage::Verify(
                Reply::RingPage { page: Some(page), port },
            ),
            Stage::Accessed(accessed) => Stage::Verify(accessed),
            Stage::Verify(found) => match reply {
                Reply::LastError(code) => if code == XC_ERROR_NONE {
                    Stage::Over(Ok(Self::deliver(script, found, replies)))
                } else {
                    Stage::Failed(code)
                },
                _ => unreached(),
            },
            Stage::Unopened => match reply {
                Reply::Description(desc) => Stage::Over(Err(XcError::from_description(desc))),
                _ => unreached(),
            },
            Stage::Failed(_) => match reply {
                Reply::Description(desc) => Stage::Over(Err(XcError::from_description(desc))),
                _ => unreached(),
            },
            Stage::Over(_) => unreached(),
        };
        Operation { handle, script, stage, replies: after }
    }

    /// The result of an operation that is over.
    pub fn finish(self) -> (result: Result<Outcome<R>, XcError>)
        requires
            self@.script.pending(self@.replies) is None,
        ensures
            match result {
                Ok(outcome) => self@.script.result(self@.replies) == Ok::<Outcome<R>, Seq<char>>(
                    outcome,
                ),
                Err(error) => self@.script.result(self@.replies) == Err::<Outcome<R>, Seq<char>>(
                    error@,
                ),
            },
    {
        proof {
            use_type_invariant(&self);
        }
        match self.stage {
            Stage::Over(result) => result,
            _ => unreached(),
        }
    }
}

} // verus!
