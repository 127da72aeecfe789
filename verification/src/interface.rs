//! What the functions that callers see give for their arguments.
//!
//! The laws speak of the functions themselves: of every result that a call with the given
//! arguments can have. Where a law names no condition, the call can be made with any arguments.
//! How an operation that a method starts goes on is said in [`crate::dialogues`].
use vstd::arithmetic::div_mod::{
    lemma_fundamental_div_mod, lemma_mod_decreases, lemma_mod_multiples_basic,
};
use vstd::arithmetic::mul::lemma_mul_is_commutative;
use vstd::prelude::*;

use crate::access::XenPageAccess;
use crate::consts::PAGE_SIZE;
use crate::context::{find_cpu, find_record, first_body, law_cpu_state, records};
use crate::control::{Layout, XenControl};
use crate::error::XcError;
use crate::event::{VmEventRequest, XenCr, XenEventType};
use crate::laws::{law_requests_in_order, SharedRing};
use crate::operation::{Call, Dialogue, Operation, Outcome, Reply, Script};
use crate::ring::{
    is_power_of_two, law_new_ring_valid, law_ring_fills_page, law_slot_in_ring, BackRing,
    RingHeader, RingLayout,
};

verus! {

/// Information is fetched about the domain that is named, and about that one alone.
pub proof fn law_domain_getinfo<R: Copy>(
    control: XenControl<R>,
    domid: u32,
    operation: Operation<R>,
)
    requires
        call_ensures(XenControl::<R>::domain_getinfo, (&control, domid), operation),
    ensures
        call_requires(XenControl::<R>::domain_getinfo, (&control, domid)),
        operation@.handle == Some(control.handle),
        operation@.replies.len() == 0,
        operation@.script matches Script::Checked { request } && request == (
        Call::<R>::DomainGetinfo { first_domid: domid, max_doms: 1 }),
{
}

/// The debug request is made for the domain, the operation and the CPU that are named.
pub proof fn law_domain_debug_control<R: Copy>(
    control: XenControl<R>,
    domid: u32,
    op: u32,
    vcpu: u32,
    operation: Operation<R>,
)
    requires
        call_ensures(XenControl::<R>::domain_debug_control, (&control, domid, op, vcpu), operation),
    ensures
        call_requires(XenControl::<R>::domain_debug_control, (&control, domid, op, vcpu)),
        operation@.handle == Some(control.handle),
        operation@.replies.len() == 0,
        operation@.script matches Script::Checked { request } && request == (
        Call::<R>::DomainDebugControl { domid, op, vcpu }),
{
}

/// The context of the domain that is named is replaced with all of the buffer.
pub proof fn law_domain_hvm_setcontext<R: Copy>(
    control: XenControl<R>,
    domid: u32,
    buffer: R,
    size: usize,
    operation: Operation<R>,
)
    requires
        size <= u32::MAX,
        call_ensures(
            XenControl::<R>::domain_hvm_setcontext,
            (&control, domid, buffer, size),
            operation,
        ),
    ensures
        call_requires(XenControl::<R>::domain_hvm_setcontext, (&control, domid, buffer, size)),
        operation@.handle == Some(control.handle),
        operation@.replies.len() == 0,
        operation@.script matches Script::Checked { request } && request == (
        Call::<R>::DomainHvmSetcontext { domid, buffer, size: size as u32 }),
{
}

/// The monitoring is disabled for the domain that is named.
pub proof fn law_monitor_disable<R: Copy>(
    control: XenControl<R>,
    domid: u32,
    operation: Operation<R>,
)
    requires
        call_ensures(XenControl::<R>::monitor_disable, (&control, domid), operation),
    ensures
        call_requires(XenControl::<R>::monitor_disable, (&control, domid)),
        operation@.handle == Some(control.handle),
        operation@.replies.len() == 0,
        operation@.script matches Script::Checked { request } && request == (
        Call::<R>::MonitorDisable { domid }),
{
}

/// The domain that is named is paused.
pub proof fn law_domain_pause<R: Copy>(
    control: XenControl<R>,
    domid: u32,
    operation: Operation<R>,
)
    requires
        call_ensures(XenControl::<R>::domain_pause, (&control, domid), operation),
    ensures
        call_requires(XenControl::<R>::domain_pause, (&control, domid)),
        operation@.handle == Some(control.handle),
        operation@.replies.len() == 0,
        operation@.script matches Script::Checked { request } && request == (
        Call::<R>::DomainPause { domid }),
{
}

/// The domain that is named is resumed.
pub proof fn law_domain_unpause<R: Copy>(
    control: XenControl<R>,
    domid: u32,
    operation: Operation<R>,
)
    requires
        call_ensures(XenControl::<R>::domain_unpause, (&control, domid), operation),
    ensures
        call_requires(XenControl::<R>::domain_unpause, (&control, domid)),
        operation@.handle == Some(control.handle),
        operation@.replies.len() == 0,
        operation@.script matches Script::Checked { request } && request == (
        Call::<R>::DomainUnpause { domid }),
{
}

/// Events for breakpoints are switched as asked, for the domain that is named.
pub proof fn law_monitor_software_breakpoint<R: Copy>(
    control: XenControl<R>,
    domid: u32,
    enable: bool,
    operation: Operation<R>,
)
    requires
        call_ensures(
            XenControl::<R>::monitor_software_breakpoint,
            (&control, domid, enable),
            operation,
        ),
    ensures
        call_requires(XenControl::<R>::monitor_software_breakpoint, (&control, domid, enable)),
        operation@.handle == Some(control.handle),
        operation@.replies.len() == 0,
        operation@.script matches Script::Checked { request } && request == (
        Call::<R>::MonitorSoftwareBreakpoint { domid, enable }),
{
}

/// Events for writes to a model specific register are switched as asked, for the register and
/// the domain that are named.
pub proof fn law_monitor_mov_to_msr<R: Copy>(
    control: XenControl<R>,
    domid: u32,
    msr: u32,
    enable: bool,
    operation: Operation<R>,
)
    requires
        call_ensures(
            XenControl::<R>::monitor_mov_to_msr,
            (&control, domid, msr, enable),
            operation,
        ),
    ensures
        call_requires(XenControl::<R>::monitor_mov_to_msr, (&control, domid, msr, enable)),
        operation@.handle == Some(control.handle),
        operation@.replies.len() == 0,
        operation@.script matches Script::Checked { request } && request == (
        Call::<R>::MonitorMovToMsr { domid, msr, enable }),
{
}

/// Events for single steps are switched as asked, for the domain that is named.
pub proof fn law_monitor_singlestep<R: Copy>(
    control: XenControl<R>,
    domid: u32,
    enable: bool,
    operation: Operation<R>,
)
    requires
        call_ensures(XenControl::<R>::monitor_singlestep, (&control, domid, enable), operation),
    ensures
        call_requires(XenControl::<R>::monitor_singlestep, (&control, domid, enable)),
        operation@.handle == Some(control.handle),
        operation@.replies.len() == 0,
        operation@.script matches Script::Checked { request } && request == (
        Call::<R>::MonitorSinglestep { domid, enable }),
{
}

/// The permissions are fetched of the page and the domain that are named.
pub proof fn law_get_mem_access<R: Copy>(
    control: XenControl<R>,
    domid: u32,
    pfn: u64,
    operation: Operation<R>,
)
    requires
        call_ensures(XenControl::<R>::get_mem_access, (&control, domid, pfn), operation),
    ensures
        call_requires(XenControl::<R>::get_mem_access, (&control, domid, pfn)),
        operation@.handle == Some(control.handle),
        operation@.replies.len() == 0,
        operation@.script matches Script::Checked { request } && request == (
        Call::<R>::GetMemAccess { domid, pfn }),
{
}

/// The highest frame number is fetched of the domain that is named.
pub proof fn law_domain_maximum_gpfn<R: Copy>(
    control: XenControl<R>,
    domid: u32,
    operation: Operation<R>,
)
    requires
        call_ensures(XenControl::<R>::domain_maximum_gpfn, (&control, domid), operation),
    ensures
        call_requires(XenControl::<R>::domain_maximum_gpfn, (&control, domid)),
        operation@.handle == Some(control.handle),
        operation@.replies.len() == 0,
        operation@.script matches Script::Checked { request } && request == (
        Call::<R>::DomainMaximumGpfn { domid }),
{
}

/// The state is fetched of the CPU and the domain that are named, as a record of the type and the
/// size that the layout gives.
pub proof fn law_domain_hvm_getcontext_partial<R: Copy>(
    control: XenControl<R>,
    domid: u32,
    vcpu: u16,
    operation: Operation<R>,
)
    requires
        call_ensures(
            XenControl::<R>::domain_hvm_getcontext_partial,
            (&control, domid, vcpu),
            operation,
        ),
    ensures
        call_requires(XenControl::<R>::domain_hvm_getcontext_partial, (&control, domid, vcpu)),
        operation@.handle == Some(control.handle),
        operation@.replies.len() == 0,
        operation@.script matches Script::Checked { request } && (request matches
            Call::DomainHvmGetcontextPartial { domid: d, typecode, instance, size } && {
            &&& d == domid
            &&& typecode == control.layout.cpu_typecode
            &&& instance == vcpu
            &&& size == control.layout.cpu_size
        }),
{
}

/// The context is fetched of the domain that is named, and the state in it that is looked for is
/// that of the CPU that is named, of the type and the size that the layout gives.
pub proof fn law_domain_hvm_getcontext<R: Copy>(
    control: XenControl<R>,
    domid: u32,
    vcpu: u16,
    operation: Operation<R>,
)
    requires
        call_ensures(XenControl::<R>::domain_hvm_getcontext, (&control, domid, vcpu), operation),
    ensures
        call_requires(XenControl::<R>::domain_hvm_getcontext, (&control, domid, vcpu)),
        operation@.handle == Some(control.handle),
        operation@.replies.len() == 0,
        operation@.script matches Script::Context { domid: d, typecode, vcpu: v, cpu_size } && {
            &&& d == domid
            &&& typecode == control.layout.cpu_typecode
            &&& v == vcpu
            &&& cpu_size == control.layout.cpu_size
        },
{
}

/// Events for writes to a control register are switched as asked, for the register and the domain
/// that are named.
pub proof fn law_monitor_write_ctrlreg<R: Copy>(
    control: XenControl<R>,
    domid: u32,
    index: XenCr,
    enable: bool,
    sync: bool,
    onchangeonly: bool,
    operation: Operation<R>,
)
    requires
        call_ensures(
            XenControl::<R>::monitor_write_ctrlreg,
            (&control, domid, index, enable, sync, onchangeonly),
            operation,
        ),
    ensures
        call_requires(
            XenControl::<R>::monitor_write_ctrlreg,
            (&control, domid, index, enable, sync, onchangeonly),
        ),
        operation@.handle == Some(control.handle),
        operation@.replies.len() == 0,
        operation@.script matches Script::Checked { request } && (request matches
            Call::MonitorWriteCtrlreg { domid: d, index: i, enable: e, sync: s, onchangeonly: o }
            && {
            &&& d == domid
            &&& i == index.number()
            &&& e == enable && s == sync && o == onchangeonly
        }),
{
}

/// The permissions that are named are set, by their number, on the pages and for the domain that
/// are named.
pub proof fn law_set_mem_access<R: Copy>(
    control: XenControl<R>,
    domid: u32,
    access: XenPageAccess,
    first_pfn: u64,
    nr: u32,
    operation: Operation<R>,
)
    requires
        call_ensures(
            XenControl::<R>::set_mem_access,
            (&control, domid, access, first_pfn, nr),
            operation,
        ),
    ensures
        call_requires(XenControl::<R>::set_mem_access, (&control, domid, access, first_pfn, nr)),
        operation@.handle == Some(control.handle),
        operation@.replies.len() == 0,
        operation@.script matches Script::Checked { request } && (request matches
            Call::SetMemAccess { domid: d, access: number, first_pfn: first, nr: count } && {
            &&& d == domid
            &&& number == access.code()
            &&& first == first_pfn && count == nr
        }),
{
}

/// The event that is reported is the one that the request stands for.
pub proof fn law_get_event_type<R: Copy>(
    control: XenControl<R>,
    req: VmEventRequest,
    operation: Operation<R>,
)
    requires
        req.event() is Some,
        call_ensures(XenControl::<R>::get_event_type, (&control, req), operation),
    ensures
        call_requires(XenControl::<R>::get_event_type, (&control, req)),
        operation@.handle == Some(control.handle),
        operation@.replies.len() == 0,
        operation@.script matches Script::Event { event } && req.event() == Some(event),
{
}

/// The interface is opened with the loggers and the flags that are given, and takes over the
/// layout that is given.
pub proof fn law_new<R: Copy>(
    layout: Layout,
    logger: Option<R>,
    dombuild_logger: Option<R>,
    open_flags: u32,
    operation: Operation<R>,
)
    requires
        call_ensures(
            XenControl::<R>::new,
            (layout, logger, dombuild_logger, open_flags),
            operation,
        ),
    ensures
        call_requires(XenControl::<R>::new, (layout, logger, dombuild_logger, open_flags)),
        operation@.handle is None,
        operation@.replies.len() == 0,
        operation@.script matches Script::Open {
            logger: l,
            dombuild_logger: d,
            open_flags: f,
            layout: y,
        } && l == logger && d == dombuild_logger && f == open_flags && y == layout,
{
}

/// Opening the interface by default is opening it without loggers and without flags.
pub proof fn law_default<R: Copy>(layout: Layout, a: Operation<R>, b: Operation<R>)
    requires
        call_ensures(XenControl::<R>::default, (layout,), a),
        call_ensures(XenControl::<R>::new, (layout, None::<R>, None::<R>, 0u32), b),
    ensures
        call_requires(XenControl::<R>::default, (layout,)),
        a@ == b@,
{
}

/// Monitoring is enabled for the domain that is named, with a ring of the layout's; the interface
/// stays as it is.
pub proof fn law_monitor_enable<R: Copy>(
    control: &mut XenControl<R>,
    domid: u32,
    operation: Operation<R>,
)
    requires
        old(control).layout.ring.wf(),
        call_ensures(XenControl::<R>::monitor_enable, (control, domid), operation),
    ensures
        call_requires(XenControl::<R>::monitor_enable, (control, domid)),
        operation@.handle == Some(old(control).handle),
        operation@.replies.len() == 0,
        operation@.script matches Script::Monitor { domid: d, ring } && d == domid && ring == old(
            control,
        ).layout.ring,
        *final(control) == *old(control),
{
}

/// Closing asks for the interface to be closed, and leaves its handle and its layout as they are.
pub proof fn law_close<R: Copy>(control: &mut XenControl<R>, operation: Operation<R>)
    requires
        call_ensures(XenControl::<R>::close, (control,), operation),
    ensures
        call_requires(XenControl::<R>::close, (control,)),
        operation@.handle == Some(old(control).handle),
        operation@.replies.len() == 0,
        operation@.script matches Script::Checked { request } && request
            == Call::<R>::InterfaceClose,
        *final(control) == *old(control),
{
}

/// Taking a request takes the entry of the next one, asks to be notified of the request after it,
/// counts one more request as taken, and changes nothing else of the ring.
pub proof fn law_get_request<R: Copy>(
    control: XenControl<R>,
    back_ring: &mut BackRing<R>,
    operation: Operation<R>,
)
    requires
        old(back_ring).wf(),
        old(back_ring).req_cons + 2 <= u32::MAX,
        call_ensures(XenControl::<R>::get_request, (&control, back_ring), operation),
    ensures
        call_requires(XenControl::<R>::get_request, (&control, back_ring)),
        operation@.handle == Some(control.handle),
        operation@.replies.len() == 0,
        operation@.script matches Script::TakeRequest { page, slot, req_event } && {
            &&& page == old(back_ring).sring
            &&& slot == old(back_ring).slot_of(old(back_ring).req_cons as int)
            &&& req_event == final(back_ring).req_cons + 1
        },
        final(back_ring).req_cons == old(back_ring).req_cons + 1,
        final(back_ring).rsp_prod_pvt == old(back_ring).rsp_prod_pvt,
        final(back_ring).nr_ents == old(back_ring).nr_ents,
        final(back_ring).sring == old(back_ring).sring,
{
    law_slot_in_ring(*old(back_ring), old(back_ring).req_cons as int);
}

/// Putting a response puts it in the entry of the next one, publishes as many responses as were
/// then produced, counts one more response as produced, and changes nothing else of the ring.
pub proof fn law_put_response<R: Copy>(
    control: XenControl<R>,
    rsp: R,
    back_ring: &mut BackRing<R>,
    operation: Operation<R>,
)
    requires
        old(back_ring).wf(),
        old(back_ring).rsp_prod_pvt + 1 <= u32::MAX,
        call_ensures(XenControl::<R>::put_response, (&control, rsp, back_ring), operation),
    ensures
        call_requires(XenControl::<R>::put_response, (&control, rsp, back_ring)),
        operation@.handle == Some(control.handle),
        operation@.replies.len() == 0,
        operation@.script matches Script::PutResponse { page, slot, response, rsp_prod } && {
            &&& page == old(back_ring).sring
            &&& slot == old(back_ring).slot_of(old(back_ring).rsp_prod_pvt as int)
            &&& response == rsp
            &&& rsp_prod == final(back_ring).rsp_prod_pvt
        },
        final(back_ring).rsp_prod_pvt == old(back_ring).rsp_prod_pvt + 1,
        final(back_ring).req_cons == old(back_ring).req_cons,
        final(back_ring).nr_ents == old(back_ring).nr_ents,
        final(back_ring).sring == old(back_ring).sring,
{
    law_slot_in_ring(*old(back_ring), old(back_ring).rsp_prod_pvt as int);
}

/// The requests that the hypervisor put on the ring are returned in their order, one for each
/// operation: of up to a ring full of requests, the operation that is started with `k` of them
/// taken returns `requests[k]`, if what it reads is what stands on the ring.
pub proof fn law_requests_returned<R: Copy>(
    control: XenControl<R>,
    shared: SharedRing<R>,
    requests: Seq<R>,
    first: u32,
    k: int,
    back_ring: &mut BackRing<R>,
    operation: Operation<R>,
    read: R,
)
    requires
        old(back_ring).wf(),
        shared.slots.len() == old(back_ring).nr_ents,
        requests.len() <= old(back_ring).nr_ents,
        0 <= k < requests.len(),
        old(back_ring).req_cons == first + k,
        first + k + 2 <= u32::MAX,
        call_ensures(XenControl::<R>::get_request, (&control, back_ring), operation),
        operation@.script.pending(operation@.replies) matches Some(Call::ReadRequest { slot, .. })
            && read == shared.with_requests(
            *old(back_ring),
            first as int,
            requests,
        ).slots[slot as int],
    ensures
        ({
            let replies = operation@.replies + seq![
                Reply::Record(read),
                Reply::Done,
                Reply::LastError(0),
            ];
            operation@.script.pending(replies) is None && operation@.script.result(replies) == Ok::<
                Outcome<R>,
                Seq<char>,
            >(Outcome::Record(requests[k]))
        }),
{
    let ring = BackRing { req_cons: first, ..*old(back_ring) };
    law_requests_in_order(shared, ring, requests, k);
    law_slot_in_ring(*old(back_ring), first + k);
    lemma_with_requests_ring(shared, ring, *old(back_ring), first as int, requests);
}

/// Where requests are put on the ring does not depend on how many were taken.
proof fn lemma_with_requests_ring<R: Copy>(
    shared: SharedRing<R>,
    a: BackRing<R>,
    b: BackRing<R>,
    first: int,
    requests: Seq<R>,
)
    requires
        a.nr_ents == b.nr_ents,
    ensures
        shared.with_requests(a, first, requests) == shared.with_requests(b, first, requests),
    decreases requests.len(),
{
    if requests.len() > 0 {
        lemma_with_requests_ring(shared, a, b, first, requests.drop_last());
    }
}

/// An operation starts on the handle and for the script that are given, without replies.
pub proof fn law_start<R: Copy>(handle: Option<R>, script: Script<R>, operation: Operation<R>)
    requires
        script.wf(),
        call_ensures(Operation::<R>::start, (handle, script), operation),
    ensures
        call_requires(Operation::<R>::start, (handle, script)),
        operation@.handle == handle,
        operation@.script == script,
        operation@.replies.len() == 0,
        Dialogue::start(handle, script) == operation@,
{
}

/// The calls of an operation are made on the handle that it was started on.
pub proof fn law_handle<R: Copy>(operation: Operation<R>, handle: Option<R>)
    requires
        call_ensures(Operation::<R>::handle, (&operation,), handle),
    ensures
        call_requires(Operation::<R>::handle, (&operation,)),
        handle == operation@.handle,
{
}

/// An operation asks for the call that its script has next, and takes the replies to it.
pub proof fn law_call<R: Copy>(
    operation: Operation<R>,
    reply: Reply<R>,
    call: Option<Call<R>>,
    accepted: bool,
)
    requires
        call_ensures(Operation::<R>::call, (&operation,), call),
        call_ensures(Operation::<R>::accepts, (&operation, &reply), accepted),
    ensures
        call_requires(Operation::<R>::call, (&operation,)),
        call_requires(Operation::<R>::accepts, (&operation, &reply)),
        call == operation@.script.pending(operation@.replies),
        accepted <==> operation@.script.accepts(operation@.replies, reply),
        call is None ==> !accepted,
{
}

/// A reply that is accepted goes behind those before it; nothing else of the operation changes.
pub proof fn law_resume<R: Copy>(operation: Operation<R>, reply: Reply<R>, next: Operation<R>)
    requires
        operation@.script.accepts(operation@.replies, reply),
        call_ensures(Operation::<R>::resume, (operation, reply), next),
    ensures
        call_requires(Operation::<R>::resume, (operation, reply)),
        next@.handle == operation@.handle,
        next@.script == operation@.script,
        next@.replies == operation@.replies.push(reply),
{
}

/// An operation that is over returns what its script returns after the replies.
pub proof fn law_finish<R: Copy>(
    operation: Operation<R>,
    result: Result<Outcome<R>, XcError>,
)
    requires
        operation@.script.pending(operation@.replies) is None,
        call_ensures(Operation::<R>::finish, (operation,), result),
    ensures
        call_requires(Operation::<R>::finish, (operation,)),
        match operation@.script.result(operation@.replies) {
            Ok(outcome) => result == Ok::<Outcome<R>, XcError>(outcome),
            Err(desc) => result matches Err(error) && error@ == desc,
        },
{
}

/// An error keeps the description that it was made with.
pub proof fn law_error_description(desc: &str, error: XcError, told: &str)
    requires
        call_ensures(XcError::new, (desc,), error),
        call_ensures(XcError::desc, (&error,), told),
    ensures
        call_requires(XcError::new, (desc,)),
        call_requires(XcError::desc, (&error,)),
        told@ == desc@,
{
}

/// An error keeps the description that it took over.
pub proof fn law_error_description_taken(desc: String, error: XcError, told: &str)
    requires
        call_ensures(XcError::from_description, (desc,), error),
        call_ensures(XcError::desc, (&error,), told),
    ensures
        call_requires(XcError::from_description, (desc,)),
        told@ == desc@,
{
}

/// A control register is the one register that is told from its number.
pub proof fn law_register_told(register: XenCr, index: u16, n: i32, told: Option<XenCr>)
    requires
        call_ensures(XenCr::index, (register,), index),
        call_ensures(XenCr::from_i32, (n,), told),
    ensures
        call_requires(XenCr::index, (register,)),
        call_requires(XenCr::from_i32, (n,)),
        told == Some(register) <==> n == index,
{
}

/// What is told of a request is the event that it stands for.
pub proof fn law_event_told(request: VmEventRequest, event: Option<XenEventType>)
    requires
        call_ensures(VmEventRequest::event_type, (&request,), event),
    ensures
        call_requires(VmEventRequest::event_type, (&request,)),
        event == request.event(),
{
}

/// The size of a ring is a power of two; all entries fit the page behind the header, and twice as
/// many would not. Whether there is room for one is told for every layout.
pub proof fn law_ring_size(layout: RingLayout, valid: bool, size: u32)
    requires
        call_ensures(RingLayout::is_valid, (&layout,), valid),
        valid ==> call_ensures(RingLayout::ring_size, (&layout,), size),
    ensures
        call_requires(RingLayout::is_valid, (&layout,)),
        valid <==> layout.entry > 0 && layout.header + layout.entry <= PAGE_SIZE,
        valid ==> {
            &&& call_requires(RingLayout::ring_size, (&layout,))
            &&& is_power_of_two(size as int)
            &&& layout.header + size * layout.entry <= PAGE_SIZE
            &&& layout.header + 2 * size * layout.entry > PAGE_SIZE
        },
{
    if valid {
        law_ring_fills_page(layout);
    }
}

/// A new ring lies in the page that is given, has the size that the layout has room for, and
/// neither of its counts has moved; in its header no index has moved either, the first request
/// and the first response are to be notified, and all else is zero.
pub proof fn law_ring_init<R: Copy>(
    layout: RingLayout,
    page: R,
    ring: BackRing<R>,
    size: u32,
    header: RingHeader,
)
    requires
        layout.wf(),
        call_ensures(BackRing::<R>::init, (layout, page), ring),
        call_ensures(RingLayout::ring_size, (&layout,), size),
        call_ensures(RingHeader::new, (), header),
    ensures
        call_requires(BackRing::<R>::init, (layout, page)),
        call_requires(RingHeader::new, ()),
        ring.sring == page,
        ring.nr_ents == size,
        ring.req_cons == 0 && ring.rsp_prod_pvt == 0,
        ring.wf(),
        header.req_prod == 0 && header.rsp_prod == 0,
        header.req_event == 1 && header.rsp_event == 1,
        forall|i: int| 0 <= i < 4 ==> #[trigger] header.pvt_pad@[i] == 0,
        forall|i: int| 0 <= i < 44 ==> #[trigger] header.pad@[i] == 0,
{
    law_new_ring_valid(layout, page);
}

/// The entry of an index is a whole number of rings away from it.
pub proof fn law_slot<R: Copy>(ring: BackRing<R>, index: u32, slot: u32)
    requires
        ring.wf(),
        call_ensures(BackRing::<R>::slot, (&ring, index), slot),
    ensures
        call_requires(BackRing::<R>::slot, (&ring, index)),
        slot < ring.nr_ents,
        slot <= index,
        (index - slot) % (ring.nr_ents as int) == 0,
{
    law_slot_in_ring(ring, index as int);
    lemma_fundamental_div_mod(index as int, ring.nr_ents as int);
    lemma_mod_multiples_basic(index as int / ring.nr_ents as int, ring.nr_ents as int);
    lemma_mul_is_commutative(index as int / ring.nr_ents as int, ring.nr_ents as int);
    lemma_mod_decreases(index as nat, ring.nr_ents as nat);
}

/// Consuming a request gives the entry of the next one and the index after the next, counts one
/// more request, and changes nothing else.
pub proof fn law_consume_request<R: Copy>(ring: &mut BackRing<R>, taken: (u32, u32))
    requires
        old(ring).wf(),
        old(ring).req_cons + 2 <= u32::MAX,
        call_ensures(BackRing::<R>::consume_request, (ring,), taken),
    ensures
        call_requires(BackRing::<R>::consume_request, (ring,)),
        taken.0 == old(ring).slot_of(old(ring).req_cons as int),
        taken.1 == final(ring).req_cons + 1,
        final(ring).req_cons == old(ring).req_cons + 1,
        final(ring).rsp_prod_pvt == old(ring).rsp_prod_pvt,
        final(ring).nr_ents == old(ring).nr_ents,
        final(ring).sring == old(ring).sring,
{
}

/// Producing a response gives the entry of the next one and the count that is then published,
/// counts one more response, and changes nothing else.
pub proof fn law_produce_response<R: Copy>(ring: &mut BackRing<R>, put: (u32, u32))
    requires
        old(ring).wf(),
        old(ring).rsp_prod_pvt + 1 <= u32::MAX,
        call_ensures(BackRing::<R>::produce_response, (ring,), put),
    ensures
        call_requires(BackRing::<R>::produce_response, (ring,)),
        put.0 == old(ring).slot_of(old(ring).rsp_prod_pvt as int),
        put.1 == final(ring).rsp_prod_pvt,
        final(ring).rsp_prod_pvt == old(ring).rsp_prod_pvt + 1,
        final(ring).req_cons == old(ring).req_cons,
        final(ring).nr_ents == old(ring).nr_ents,
        final(ring).sring == old(ring).sring,
{
}

/// What is found of a context is the body of the first record of the type and the instance, and
/// nothing is found only where there is none. The state of a CPU is that body, where the context
/// holds all of it.
pub proof fn law_found(
    context: &[u8],
    typecode: u16,
    instance: u16,
    size: u32,
    body: Option<usize>,
    start: Option<usize>,
)
    requires
        context@.len() <= usize::MAX,
        call_ensures(find_record, (context, typecode, instance), body),
        call_ensures(find_cpu, (context, typecode, instance, size), start),
    ensures
        call_requires(find_record, (context, typecode, instance)),
        call_requires(find_cpu, (context, typecode, instance, size)),
        match first_body(records(context@, 0), typecode, instance) {
            Some(at) => body matches Some(found) && found == at,
            None => body is None,
        },
        start == (match body {
            Some(at) => if at + size <= context@.len() {
                Some(at)
            } else {
                None
            },
            None => None,
        }),
{
    law_cpu_state(context@, typecode, instance, size);
}

} // verus!
