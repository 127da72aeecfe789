//! What every operation asks and returns, call by call.
//!
//! Each law takes the replies to an operation so far, whatever they are, and says which call
//! comes next, argument for argument, and what the operation returns once none is left.
use vstd::prelude::*;

use crate::access::{access_of, XenPageAccess};
use crate::consts::{PAGE_SIZE, XC_ERROR_NONE, XC_INTERNAL_ERROR};
use crate::context::{first_body, law_first_body, lemma_bodies_in_context, records};
use crate::control::Layout;
use crate::event::XenEventType;
use crate::laws::lemma_admits_take;
use crate::operation::{Call, Outcome, Reply, Script};
use crate::ring::{is_power_of_two, law_new_ring_valid, law_ring_fills_page, RingLayout};

verus! {

/// Every one of the replies was accepted after those before it.
proof fn lemma_replies_accepted<R: Copy>(script: Script<R>, replies: Seq<Reply<R>>)
    requires
        script.admits(replies),
    ensures
        forall|n: int|
            0 <= n < replies.len() ==> script.accepts(#[trigger] replies.take(n), replies[n]),
{
    assert forall|n: int| 0 <= n < replies.len() implies script.accepts(
        #[trigger] replies.take(n),
        replies[n],
    ) by {
        lemma_admits_take(script, replies, n);
    }
}

/// The replies that an operation can have had are those of which each was accepted after the
/// ones before it.
pub proof fn law_replies_admitted<R: Copy>(
    script: Script<R>,
    replies: Seq<Reply<R>>,
    reply: Reply<R>,
)
    ensures
        script.admits(Seq::empty()),
        script.admits(replies.push(reply)) <==> script.admits(replies) && script.accepts(
            replies,
            reply,
        ),
{
    assert(replies.push(reply).drop_last() =~= replies);
}

/// A reply is accepted if and only if it is of the kind that the call gives: no value of it is
/// turned away but a negative size, a context of another length than was asked for, and, where
/// no error was recorded, permissions whose number stands for none, or a context that does not
/// hold the whole state of the CPU that was asked for.
pub proof fn law_replies_accepted<R: Copy>(
    script: Script<R>,
    replies: Seq<Reply<R>>,
    call: Call<R>,
    reply: Reply<R>,
)
    requires
        script.pending(replies) == Some(call),
    ensures
        script.accepts(replies, reply) <==> match call {
            Call::LoadLibrary => reply is Loaded || reply is LoadFailed,
            Call::InterfaceOpen { .. } => reply is Handle,
            Call::ErrorCodeToDesc { .. } => reply is Description,
            Call::DomainGetinfo { .. } => reply is Record,
            Call::DomainHvmGetcontextPartial { .. } => reply is Record,
            Call::ReadRequest { .. } => reply is Record,
            Call::DomainHvmGetcontextSize { .. } => reply matches Reply::ContextSize(size)
                && size >= 0,
            Call::DomainHvmGetcontext { size, .. } => reply matches Reply::Context(buffer)
                && buffer@.len() == size,
            Call::MonitorEnable { .. } => reply is RingPage,
            Call::GetMemAccess { .. } => reply is Access,
            Call::DomainMaximumGpfn { .. } => reply is MaximumGpfn,
            Call::GetLastError => reply matches Reply::LastError(code) && (code != XC_ERROR_NONE
                || match script {
                Script::Checked { .. } => replies[1] matches Reply::Access(number) ==> exists|
                    access: XenPageAccess,
                | #[trigger] access.code() == number,
                Script::Context { typecode, vcpu, cpu_size, .. } => first_body(
                    records(replies[3]->Context_0@, 0),
                    typecode,
                    vcpu,
                ) matches Some(body) && body + cpu_size <= replies[3]->Context_0@.len(),
                _ => true,
            }),
            Call::InterfaceClose => reply is Done,
            Call::ClearLastError => reply is Done,
            Call::DomainDebugControl { .. } => reply is Done,
            Call::DomainHvmSetcontext { .. } => reply is Done,
            Call::MonitorDisable { .. } => reply is Done,
            Call::DomainPause { .. } => reply is Done,
            Call::DomainUnpause { .. } => reply is Done,
            Call::MonitorSoftwareBreakpoint { .. } => reply is Done,
            Call::MonitorMovToMsr { .. } => reply is Done,
            Call::MonitorSinglestep { .. } => reply is Done,
            Call::MonitorWriteCtrlreg { .. } => reply is Done,
            Call::SetMemAccess { .. } => reply is Done,
            Call::InitRing { .. } => reply is Done,
            Call::SetReqEvent { .. } => reply is Done,
            Call::WriteResponse { .. } => reply is Done,
            Call::PushResponses { .. } => reply is Done,
        },
{
    if let Script::Checked { .. } = script {
        if let Reply::Access(number) = replies[1] {
            if let Some(access) = access_of(number) {
                assert(access.code() == number);
            }
        }
    }
}

/// An operation that makes one request clears the last error, makes that very request, and looks
/// at the last error; if there is one, it asks for its description, and for nothing else.
pub proof fn law_request_is_made<R: Copy>(
    script: Script<R>,
    request: Call<R>,
    replies: Seq<Reply<R>>,
)
    requires
        script == (Script::Checked { request }),
        script.wf(),
        script.admits(replies),
    ensures
        ({
            let pending = script.pending(replies);
            let n = replies.len();
            &&& n <= 4
            &&& n == 0 ==> pending == Some(Call::<R>::ClearLastError)
            &&& n == 1 ==> pending == Some(request)
            &&& n == 2 ==> pending == Some(Call::<R>::GetLastError)
            &&& n >= 3 ==> replies[2] is LastError
            &&& n == 3 && replies[2]->LastError_0 == XC_ERROR_NONE ==> pending is None
            &&& n == 3 && replies[2]->LastError_0 != XC_ERROR_NONE ==> pending == Some(
                Call::<R>::ErrorCodeToDesc { code: replies[2]->LastError_0 },
            )
            &&& n == 4 ==> pending is None && replies[2]->LastError_0 != XC_ERROR_NONE
        }),
{
    lemma_replies_accepted(script, replies);
    if replies.len() > 2 {
        assert(replies.take(2).len() == 2);
    }
    if replies.len() > 3 {
        assert(replies.take(3)[2] == replies[2]);
    }
}

/// An operation that makes one request returns what the request gave, unchanged: the record that
/// it filled, the permissions of the number that it gave, the frame number, or nothing. If an
/// error was recorded, it fails with the description of the error.
pub proof fn law_request_is_answered<R: Copy>(
    script: Script<R>,
    request: Call<R>,
    replies: Seq<Reply<R>>,
)
    requires
        script == (Script::Checked { request }),
        script.wf(),
        script.admits(replies),
        script.pending(replies) is None,
    ensures
        replies.len() == 3 || replies.len() == 4,
        replies.len() == 3 ==> match script.result(replies) {
            Ok(Outcome::Record(record)) => replies[1] == Reply::Record(record),
            Ok(Outcome::Access(access)) => replies[1] == Reply::<R>::Access(access.code()),
            Ok(Outcome::MaximumGpfn(gpfn)) => replies[1] == Reply::<R>::MaximumGpfn(gpfn),
            Ok(Outcome::Done) => replies[1] is Done,
            _ => false,
        },
        replies.len() == 4 ==> replies[3] is Description && script.result(replies) == Err::<
            Outcome<R>,
            Seq<char>,
        >(replies[3]->Description_0@),
{
    lemma_replies_accepted(script, replies);
    law_request_is_made(script, request, replies);
    assert(replies.take(1).len() == 1);
    assert(script.pending(replies.take(1)) == Some(request));
    assert(replies.take(2)[1] == replies[1]);
    if replies.len() == 4 {
        assert(replies.take(3)[2] == replies[2]);
    }
}

/// The whole context is fetched of the domain that was asked for, and into a buffer of the size
/// that was given for that domain; the last error is cleared before either call.
pub proof fn law_context_is_fetched<R: Copy>(
    script: Script<R>,
    domid: u32,
    typecode: u16,
    vcpu: u16,
    cpu_size: u32,
    replies: Seq<Reply<R>>,
)
    requires
        script == (Script::<R>::Context { domid, typecode, vcpu, cpu_size }),
        script.admits(replies),
    ensures
        ({
            let pending = script.pending(replies);
            let n = replies.len();
            &&& n <= 6
            &&& n == 0 ==> pending == Some(Call::<R>::ClearLastError)
            &&& n == 1 ==> pending == Some(Call::<R>::DomainHvmGetcontextSize { domid })
            &&& n == 2 ==> pending == Some(Call::<R>::ClearLastError)
            &&& n >= 2 ==> replies[1] is ContextSize
            &&& n == 3 ==> (pending matches Some(Call::DomainHvmGetcontext { domid: d, size })
                && d == domid && size == replies[1]->ContextSize_0)
            &&& n == 4 ==> pending == Some(Call::<R>::GetLastError)
            &&& n >= 5 ==> replies[4] is LastError
            &&& n == 5 && replies[4]->LastError_0 == XC_ERROR_NONE ==> pending is None
            &&& n == 5 && replies[4]->LastError_0 != XC_ERROR_NONE ==> pending == Some(
                Call::<R>::ErrorCodeToDesc { code: replies[4]->LastError_0 },
            )
            &&& n == 6 ==> pending is None && replies[4]->LastError_0 != XC_ERROR_NONE
        }),
{
    lemma_replies_accepted(script, replies);
    if replies.len() > 1 {
        assert(replies.take(1).len() == 1);
    }
    if replies.len() > 4 {
        assert(replies.take(4).len() == 4);
    }
    if replies.len() > 5 {
        assert(replies.take(5)[4] == replies[4]);
    }
}

/// What fetching the context returns is the context that was given, with its size, and the place
/// of the state of the CPU in it: the body of the first record of the CPU's type and number, all
/// of it in the context. If an error was recorded, it fails with the description of the error.
pub proof fn law_context_is_returned<R: Copy>(
    script: Script<R>,
    domid: u32,
    typecode: u16,
    vcpu: u16,
    cpu_size: u32,
    replies: Seq<Reply<R>>,
)
    requires
        script == (Script::<R>::Context { domid, typecode, vcpu, cpu_size }),
        script.admits(replies),
        script.pending(replies) is None,
    ensures
        replies.len() == 5 || replies.len() == 6,
        replies.len() == 5 ==> (script.result(replies) matches Ok(
            Outcome::Context { buffer, cpu, size },
        ) && {
            &&& replies[3] == Reply::<R>::Context(buffer)
            &&& replies[1] is ContextSize && size == replies[1]->ContextSize_0
            &&& size == buffer@.len()
            &&& cpu + cpu_size <= buffer@.len()
            &&& first_body(records(buffer@, 0), typecode, vcpu) == Some(cpu as int)
        }),
        replies.len() == 6 ==> replies[5] is Description && script.result(replies) == Err::<
            Outcome<R>,
            Seq<char>,
        >(replies[5]->Description_0@),
{
    lemma_replies_accepted(script, replies);
    law_context_is_fetched(script, domid, typecode, vcpu, cpu_size, replies);
    lemma_admits_take(script, replies, 3);
    law_context_is_fetched(script, domid, typecode, vcpu, cpu_size, replies.take(3));
    assert(replies.take(4)[3] == replies[3]);
    let context = replies[3]->Context_0@;
    law_first_body(records(context, 0), typecode, vcpu);
    lemma_bodies_in_context(context, 0);
    if replies.len() == 6 {
        assert(replies.take(5)[4] == replies[4]);
    }
}

/// Monitoring is enabled for the domain that was asked for, right after the last error was
/// cleared. Without a ring page the operation is over; with one, the header of an empty ring is
/// written to that page: no index has moved, the first request and the first response are to be
/// notified, and all else is zero. Then the last error is looked at.
pub proof fn law_monitor_is_enabled<R: Copy>(
    script: Script<R>,
    domid: u32,
    ring: RingLayout,
    replies: Seq<Reply<R>>,
)
    requires
        script == (Script::<R>::Monitor { domid, ring }),
        script.admits(replies),
    ensures
        ({
            let pending = script.pending(replies);
            let n = replies.len();
            &&& n <= 5
            &&& n == 0 ==> pending == Some(Call::<R>::ClearLastError)
            &&& n == 1 ==> pending == Some(Call::<R>::MonitorEnable { domid })
            &&& n >= 2 ==> replies[1] is RingPage
            &&& n == 2 && replies[1]->page is None ==> pending is None
            &&& n > 2 ==> replies[1]->page is Some
            &&& n == 2 && replies[1]->page is Some ==> (pending matches Some(
                Call::InitRing { page, header },
            ) && {
                &&& page == replies[1]->page->0
                &&& header.req_prod == 0 && header.rsp_prod == 0
                &&& header.req_event == 1 && header.rsp_event == 1
                &&& forall|i: int| 0 <= i < 4 ==> #[trigger] header.pvt_pad@[i] == 0
                &&& forall|i: int| 0 <= i < 44 ==> #[trigger] header.pad@[i] == 0
            })
            &&& n == 3 ==> pending == Some(Call::<R>::GetLastError)
            &&& n >= 4 ==> replies[3] is LastError
            &&& n == 4 && replies[3]->LastError_0 == XC_ERROR_NONE ==> pending is None
            &&& n == 4 && replies[3]->LastError_0 != XC_ERROR_NONE ==> pending == Some(
                Call::<R>::ErrorCodeToDesc { code: replies[3]->LastError_0 },
            )
            &&& n == 5 ==> pending is None && replies[3]->LastError_0 != XC_ERROR_NONE
        }),
{
    lemma_replies_accepted(script, replies);
    if replies.len() > 1 {
        assert(replies.take(1)[0] == replies[0]);
    }
    if replies.len() > 2 {
        assert(replies.take(2)[1] == replies[1]);
    }
    if replies.len() > 3 {
        assert(replies.take(3)[2] == replies[2]);
    }
    if replies.len() > 4 {
        assert(replies.take(4)[3] == replies[3]);
    }
}

/// What enabling the monitoring returns is the page and the port that were given, and the private
/// end of an empty ring in that page, with the largest power of two of entries that fits. It fails
/// without a page, or with the description of the error that was recorded.
pub proof fn law_monitor_is_returned<R: Copy>(
    script: Script<R>,
    domid: u32,
    ring: RingLayout,
    replies: Seq<Reply<R>>,
)
    requires
        script == (Script::<R>::Monitor { domid, ring }),
        script.wf(),
        script.admits(replies),
        script.pending(replies) is None,
    ensures
        replies.len() == 2 || replies.len() == 4 || replies.len() == 5,
        replies.len() == 2 ==> script.result(replies) == Err::<Outcome<R>, Seq<char>>(
            "Failed to enable event monitor ring: ring page is null"@,
        ),
        replies.len() == 4 ==> (script.result(replies) matches Ok(
            Outcome::Ring { page, back_ring, remote_port },
        ) && {
            &&& replies[1] == Reply::RingPage { page: Some(page), port: remote_port }
            &&& back_ring.sring == page
            &&& back_ring.req_cons == 0 && back_ring.rsp_prod_pvt == 0
            &&& is_power_of_two(back_ring.nr_ents as int)
            &&& ring.header + back_ring.nr_ents * ring.entry <= PAGE_SIZE
            &&& ring.header + 2 * back_ring.nr_ents * ring.entry > PAGE_SIZE
        }),
        replies.len() == 5 ==> replies[4] is Description && script.result(replies) == Err::<
            Outcome<R>,
            Seq<char>,
        >(replies[4]->Description_0@),
{
    lemma_replies_accepted(script, replies);
    law_monitor_is_enabled(script, domid, ring, replies);
    law_new_ring_valid(ring, replies[1]->page->0);
    law_ring_fills_page(ring);
    if replies.len() == 5 {
        assert(replies.take(4)[3] == replies[3]);
    }
}

/// Taking a request reads the entry that was given of the ring that was given, announces the
/// index that was given, and looks at the last error.
pub proof fn law_request_is_taken<R: Copy>(
    script: Script<R>,
    page: R,
    slot: u32,
    req_event: u32,
    replies: Seq<Reply<R>>,
)
    requires
        script == (Script::TakeRequest { page, slot, req_event }),
        script.admits(replies),
    ensures
        ({
            let pending = script.pending(replies);
            let n = replies.len();
            &&& n <= 4
            &&& n == 0 ==> pending == Some(Call::ReadRequest { page, slot })
            &&& n == 1 ==> pending == Some(Call::SetReqEvent { page, req_event })
            &&& n == 2 ==> pending == Some(Call::<R>::GetLastError)
            &&& n >= 3 ==> replies[2] is LastError
            &&& n == 3 && replies[2]->LastError_0 == XC_ERROR_NONE ==> pending is None
            &&& n == 3 && replies[2]->LastError_0 != XC_ERROR_NONE ==> pending == Some(
                Call::<R>::ErrorCodeToDesc { code: replies[2]->LastError_0 },
            )
            &&& n == 4 ==> pending is None && replies[2]->LastError_0 != XC_ERROR_NONE
        }),
{
    lemma_replies_accepted(script, replies);
    if replies.len() > 1 {
        assert(replies.take(1)[0] == replies[0]);
    }
    if replies.len() > 2 {
        assert(replies.take(2)[1] == replies[1]);
    }
    if replies.len() > 3 {
        assert(replies.take(3)[2] == replies[2]);
    }
}

/// What taking a request returns is the request that was read. If an error was recorded, it fails
/// with the description of the error.
pub proof fn law_request_is_returned<R: Copy>(
    script: Script<R>,
    page: R,
    slot: u32,
    req_event: u32,
    replies: Seq<Reply<R>>,
)
    requires
        script == (Script::TakeRequest { page, slot, req_event }),
        script.admits(replies),
        script.pending(replies) is None,
    ensures
        replies.len() == 3 || replies.len() == 4,
        replies.len() == 3 ==> (script.result(replies) matches Ok(Outcome::Record(request))
            && replies[0] == Reply::Record(request)),
        replies.len() == 4 ==> replies[3] is Description && script.result(replies) == Err::<
            Outcome<R>,
            Seq<char>,
        >(replies[3]->Description_0@),
{
    lemma_replies_accepted(script, replies);
    law_request_is_taken(script, page, slot, req_event, replies);
    assert(replies.take(0).len() == 0);
    if replies.len() == 4 {
        assert(replies.take(3)[2] == replies[2]);
    }
}

/// Putting a response writes it to the entry that was given of the ring that was given, then
/// publishes the index that was given, and looks at the last error. It returns nothing, or fails
/// with the description of the error that was recorded.
pub proof fn law_response_is_put<R: Copy>(
    script: Script<R>,
    page: R,
    slot: u32,
    response: R,
    rsp_prod: u32,
    replies: Seq<Reply<R>>,
)
    requires
        script == (Script::PutResponse { page, slot, response, rsp_prod }),
        script.admits(replies),
    ensures
        ({
            let pending = script.pending(replies);
            let n = replies.len();
            &&& n <= 4
            &&& n == 0 ==> pending == Some(Call::WriteResponse { page, slot, response })
            &&& n == 1 ==> pending == Some(Call::PushResponses { page, rsp_prod })
            &&& n == 2 ==> pending == Some(Call::<R>::GetLastError)
            &&& n >= 3 ==> replies[2] is LastError
            &&& n == 3 && replies[2]->LastError_0 == XC_ERROR_NONE ==> pending is None
            &&& n == 3 && replies[2]->LastError_0 != XC_ERROR_NONE ==> pending == Some(
                Call::<R>::ErrorCodeToDesc { code: replies[2]->LastError_0 },
            )
            &&& n == 4 ==> pending is None && replies[2]->LastError_0 != XC_ERROR_NONE
            &&& n == 3 && pending is None ==> script.result(replies) == Ok::<
                Outcome<R>,
                Seq<char>,
            >(Outcome::Done)
        }),
        replies.len() == 4 ==> replies[3] is Description && script.result(replies) == Err::<
            Outcome<R>,
            Seq<char>,
        >(replies[3]->Description_0@),
{
    lemma_replies_accepted(script, replies);
    if replies.len() > 1 {
        assert(replies.take(1)[0] == replies[0]);
    }
    if replies.len() > 2 {
        assert(replies.take(2)[1] == replies[1]);
    }
    if replies.len() > 3 {
        assert(replies.take(3)[2] == replies[2]);
    }
}

/// Reporting an event looks at the last error, and returns that event, or fails with the
/// description of the error that was recorded.
pub proof fn law_event_is_reported<R: Copy>(
    script: Script<R>,
    event: XenEventType,
    replies: Seq<Reply<R>>,
)
    requires
        script == (Script::<R>::Event { event }),
        script.admits(replies),
    ensures
        ({
            let pending = script.pending(replies);
            let n = replies.len();
            &&& n <= 2
            &&& n == 0 ==> pending == Some(Call::<R>::GetLastError)
            &&& n >= 1 ==> replies[0] is LastError
            &&& n == 1 && replies[0]->LastError_0 == XC_ERROR_NONE ==> pending is None
            &&& n == 1 && replies[0]->LastError_0 != XC_ERROR_NONE ==> pending == Some(
                Call::<R>::ErrorCodeToDesc { code: replies[0]->LastError_0 },
            )
            &&& n == 2 ==> pending is None && replies[0]->LastError_0 != XC_ERROR_NONE
            &&& n == 1 && pending is None ==> script.result(replies) == Ok::<
                Outcome<R>,
                Seq<char>,
            >(Outcome::Event(event))
        }),
        replies.len() == 2 ==> replies[1] is Description && script.result(replies) == Err::<
            Outcome<R>,
            Seq<char>,
        >(replies[1]->Description_0@),
{
    lemma_replies_accepted(script, replies);
    if replies.len() > 0 {
        assert(replies.take(0).len() == 0);
    }
    if replies.len() > 1 {
        assert(replies.take(1)[0] == replies[0]);
    }
}

/// Opening the interface loads the library, and then opens the interface with the loggers and the
/// flags that were given; without a handle it asks for the description of `XC_INTERNAL_ERROR`.
/// What it returns is the handle that was given, with the layout that was asked for.
pub proof fn law_interface_is_opened<R: Copy>(
    script: Script<R>,
    logger: Option<R>,
    dombuild_logger: Option<R>,
    open_flags: u32,
    layout: Layout,
    replies: Seq<Reply<R>>,
)
    requires
        script == (Script::Open { logger, dombuild_logger, open_flags, layout }),
        script.admits(replies),
    ensures
        ({
            let pending = script.pending(replies);
            let n = replies.len();
            &&& n <= 3
            &&& n == 0 ==> pending == Some(Call::<R>::LoadLibrary)
            &&& n == 1 ==> match replies[0] {
                Reply::Loaded => pending == Some(
                    Call::InterfaceOpen { logger, dombuild_logger, open_flags },
                ),
                Reply::LoadFailed(reason) => pending is None && script.result(replies) == Err::<
                    Outcome<R>,
                    Seq<char>,
                >(reason@),
                _ => false,
            }
            &&& n == 2 ==> replies[0] is Loaded && match replies[1] {
                Reply::Handle(Some(handle)) => {
                    &&& pending is None
                    &&& script.result(replies) matches Ok(Outcome::Opened(control))
                    &&& control.handle == handle && control.layout == layout
                },
                Reply::Handle(None) => pending == Some(
                    Call::<R>::ErrorCodeToDesc { code: XC_INTERNAL_ERROR },
                ),
                _ => false,
            }
            &&& n == 3 ==> pending is None && replies[1] == Reply::<R>::Handle(None)
                && replies[2] is Description && script.result(replies) == Err::<
                Outcome<R>,
                Seq<char>,
            >(replies[2]->Description_0@)
        }),
{
    lemma_replies_accepted(script, replies);
    if replies.len() > 0 {
        assert(replies.take(0).len() == 0);
    }
    if replies.len() > 1 {
        assert(replies.take(1)[0] == replies[0]);
    }
    if replies.len() > 2 {
        assert(replies.take(2)[1] == replies[1]);
    }
}

} // verus!
