//! What holds of every control operation.
use vstd::prelude::*;

use crate::access::XenPageAccess;
use crate::consts::{XC_ERROR_NONE, XC_INTERNAL_ERROR};
use crate::context::{first_body, law_first_body, lemma_bodies_in_context, records};
use crate::control::XenControl;
use crate::operation::{Call, Outcome, Reply, Script};
use crate::ring::{
    law_new_ring_valid, law_slot_in_ring, law_slots_distinct, BackRing, RingHeader, RingLayout,
};

verus! {

/// What came before an admitted reply was admitted.
pub proof fn lemma_admits_take<R: Copy>(script: Script<R>, replies: Seq<Reply<R>>, n: int)
    requires
        script.admits(replies),
        0 <= n <= replies.len(),
    ensures
        script.admits(replies.take(n)),
        n < replies.len() ==> script.accepts(replies.take(n), replies[n]),
    decreases replies.len(),
{
    if n == replies.len() {
        assert(replies.take(n) =~= replies);
    } else if n == replies.len() - 1 {
        assert(replies.take(n) =~= replies.drop_last());
    } else {
        lemma_admits_take(script, replies.drop_last(), n);
        assert(replies.drop_last().take(n) =~= replies.take(n));
    }
}

/// Every operation comes to an end: opening the interface after at most three calls, any other
/// operation after its work, the look at the last error and the description of it.
pub proof fn law_operations_end<R: Copy>(script: Script<R>, replies: Seq<Reply<R>>)
    requires
        script.admits(replies),
    ensures
        script is Open ==> replies.len() <= 3,
        !(script is Open) ==> replies.len() <= script.work() + 2,
{
}

/// The last error decides: an operation that looked at it succeeds if and only if its code is
/// `XC_ERROR_NONE`; otherwise it fails with the description that was given for that very code.
pub proof fn law_last_error_decides<R: Copy>(script: Script<R>, replies: Seq<Reply<R>>)
    requires
        script.admits(replies),
        script.pending(replies) is None,
        !(script is Open),
        !script.ring_page_missing(replies),
    ensures
        replies.len() > script.work(),
        script.pending(replies.take(script.work() as int)) == Some(Call::<R>::GetLastError),
        replies[script.work() as int] matches Reply::LastError(code) && {
            &&& script.result(replies) is Ok <==> code == XC_ERROR_NONE
            &&& code == XC_ERROR_NONE ==> script.result(replies) == Ok::<Outcome<R>, Seq<char>>(
                script.value(replies),
            )
            &&& code != XC_ERROR_NONE ==> {
                &&& script.pending(replies.drop_last()) == Some(
                    Call::<R>::ErrorCodeToDesc { code },
                )
                &&& replies.last() matches Reply::Description(desc)
                &&& script.result(replies) == Err::<Outcome<R>, Seq<char>>(desc@)
            }
        },
{
    let n = script.work() as int;
    lemma_admits_take(script, replies, n);
    if script is Monitor && replies.len() > 2 {
        lemma_admits_take(script, replies, 2);
    }
    if replies.len() > n + 1 {
        lemma_admits_take(script, replies, n + 1);
        assert(replies.take(n + 1) =~= replies.drop_last());
        assert(replies.take(n + 1)[n] == replies[n]);
    }
}

/// The error that is reported is the one of the request: a request to the hypervisor is made
/// directly after the last error was cleared, and nothing but the set up of the ring comes
/// between the request that decides and the look at the last error.
pub proof fn law_error_is_of_request<R: Copy>(script: Script<R>, replies: Seq<Reply<R>>)
    requires
        script.wf(),
        script.admits(replies),
        script is Checked || script is Context || script is Monitor,
        script.pending(replies) is Some,
    ensures
        replies.len() < script.work() && !(script.pending(replies)->0 is ClearLastError) && !(
        script.pending(replies)->0 is InitRing) ==> replies.len() > 0 && script.pending(
            replies.drop_last(),
        ) == Some(Call::<R>::ClearLastError),
        script.pending(replies)->0 is InitRing ==> replies.len() > 0 && script.pending(
            replies.drop_last(),
        )->0 is MonitorEnable,
        script.pending(replies)->0 is GetLastError ==> replies.len() > 0 && (script.pending(
            replies.drop_last(),
        )->0 is InitRing || script.pending(replies.drop_last())->0 is DomainHvmGetcontext
            || script.pending(replies.drop_last())->0.is_request()),
{
    if replies.len() > 0 {
        lemma_admits_take(script, replies, replies.len() - 1);
    }
}

/// Taking a request, putting a response and reporting an event ask nothing of the hypervisor,
/// and leave the last error as it is.
pub proof fn law_ring_keeps_last_error<R: Copy>(script: Script<R>, replies: Seq<Reply<R>>)
    requires
        script.admits(replies),
        script is TakeRequest || script is PutResponse || script is Event,
        script.pending(replies) is Some,
    ensures
        ({
            let call = script.pending(replies)->0;
            ||| call is ReadRequest
            ||| call is SetReqEvent
            ||| call is WriteResponse
            ||| call is PushResponses
            ||| call is GetLastError
            ||| call is ErrorCodeToDesc
        }),
{
}

/// Without a ring page, monitoring fails at once, whatever the last error is: the ring is not
/// touched, and the last error is not looked at. With one, the ring is set up.
pub proof fn law_ring_page_missing<R: Copy>(
    domid: u32,
    ring: RingLayout,
    cleared: Reply<R>,
    page: Option<R>,
    port: u32,
)
    ensures
        ({
            let script = Script::<R>::Monitor { domid, ring };
            let replies = seq![cleared, Reply::RingPage { page, port }];
            match page {
                None => {
                    &&& script.pending(replies) is None
                    &&& script.result(replies) == Err::<Outcome<R>, Seq<char>>(
                        "Failed to enable event monitor ring: ring page is null"@,
                    )
                },
                Some(page) => script.pending(replies) == Some(
                    Call::InitRing { page, header: RingHeader::empty() },
                ),
            }
        }),
{
}

/// The interface is open if and only if the library was loaded and gave a handle, and then it
/// is that handle's. Otherwise the reason is the loader's, or the description of
/// `XC_INTERNAL_ERROR`.
pub proof fn law_open<R: Copy>(script: Script<R>, replies: Seq<Reply<R>>)
    requires
        script is Open,
        script.admits(replies),
        script.pending(replies) is None,
    ensures
        replies.len() > 0,
        match replies[0] {
            Reply::LoadFailed(reason) => script.result(replies) == Err::<Outcome<R>, Seq<char>>(
                reason@,
            ),
            _ => replies.len() > 1 && (replies[1] matches Reply::Handle(handle) && match handle {
                Some(handle) => script.result(replies) == Ok::<Outcome<R>, Seq<char>>(
                    Outcome::Opened(XenControl { handle, layout: script->layout }),
                ),
                None => {
                    &&& script.pending(replies.drop_last()) == Some(
                        Call::<R>::ErrorCodeToDesc { code: XC_INTERNAL_ERROR },
                    )
                    &&& replies.last() matches Reply::Description(desc)
                    &&& script.result(replies) == Err::<Outcome<R>, Seq<char>>(desc@)
                },
            }),
        },
{
    lemma_admits_take(script, replies, 0);
    if replies.len() > 1 {
        lemma_admits_take(script, replies, 1);
    }
    if replies.len() > 2 {
        lemma_admits_take(script, replies, 2);
        assert(replies.take(2) =~= replies.drop_last());
    }
}

/// A context that is returned holds the state of the CPU that was asked for, all of it, where
/// the result says; it is the first record for that CPU.
pub proof fn law_context_holds_cpu<R: Copy>(script: Script<R>, replies: Seq<Reply<R>>)
    requires
        script.admits(replies),
        script.pending(replies) is None,
        script is Context,
        script.result(replies) is Ok,
    ensures
        script.result(replies)->Ok_0 matches Outcome::Context { buffer, cpu, size } && {
            &&& replies[3] == Reply::<R>::Context(buffer)
            &&& first_body(records(buffer@, 0), script->typecode, script->vcpu) == Some(cpu as int)
            &&& cpu + script->cpu_size <= buffer@.len()
            &&& size == buffer@.len()
        },
{
    law_last_error_decides(script, replies);
    lemma_admits_take(script, replies, 1);
    lemma_admits_take(script, replies, 3);
    lemma_admits_take(script, replies, 4);
    let context = replies.take(4)[3]->Context_0@;
    law_first_body(records(context, 0), script->typecode, script->vcpu);
    lemma_bodies_in_context(context, 0);
}

/// The numbers of the permissions on the pages of the domains.
pub struct PagePermissions {
    pub codes: spec_fn(u32, u64) -> u32,
}

impl PagePermissions {
    /// The permissions after `call` was made: all the pages from `first_pfn` on that it counts
    /// have the number that it hands over.
    pub open spec fn after<R>(self, call: Call<R>) -> PagePermissions {
        match call {
            Call::SetMemAccess { domid, access, first_pfn, nr } => PagePermissions {
                codes: |d: u32, pfn: u64|
                    if d == domid && first_pfn <= pfn < first_pfn + nr {
                        access
                    } else {
                        (self.codes)(d, pfn)
                    },
            },
            _ => self,
        }
    }
}

/// Permissions that are set are those that are fetched, on every one of the pages: where the
/// hypervisor keeps the number that setting them hands over, fetching them returns the same
/// permissions.
pub proof fn law_access_set_and_fetched<R: Copy>(
    pages: PagePermissions,
    access: XenPageAccess,
    domid: u32,
    first_pfn: u64,
    nr: u32,
    pfn: u64,
)
    requires
        first_pfn <= pfn < first_pfn + nr,
    ensures
        ({
            let set = Script::<R>::Checked {
                request: Call::SetMemAccess { domid, access: access.code(), first_pfn, nr },
            };
            let fetch = Script::<R>::Checked { request: Call::GetMemAccess { domid, pfn } };
            set.pending(seq![Reply::Done]) matches Some(call) && {
                let replies = seq![
                    Reply::Done,
                    Reply::Access((pages.after(call).codes)(domid, pfn)),
                    Reply::LastError(XC_ERROR_NONE),
                ];
                &&& fetch.accepts(replies.take(2), replies[2])
                &&& fetch.pending(replies) is None
                &&& fetch.result(replies) == Ok::<Outcome<R>, Seq<char>>(Outcome::Access(access))
            }
        }),
{
}

/// Setting permissions leaves those on all other pages, and of all other domains, as they were.
pub proof fn law_access_elsewhere_kept<R: Copy>(
    pages: PagePermissions,
    access: XenPageAccess,
    domid: u32,
    first_pfn: u64,
    nr: u32,
    other_domid: u32,
    pfn: u64,
)
    requires
        other_domid != domid || pfn < first_pfn || pfn >= first_pfn + nr,
    ensures
        ({
            let set = Script::<R>::Checked {
                request: Call::SetMemAccess { domid, access: access.code(), first_pfn, nr },
            };
            set.pending(seq![Reply::Done]) matches Some(call) && (pages.after(call).codes)(
                other_domid,
                pfn,
            ) == (pages.codes)(other_domid, pfn)
        }),
{
}

/// The ring page: the indices in its header, and what its entries hold.
pub struct SharedRing<R> {
    pub header: RingHeader,
    pub slots: Seq<R>,
}

impl<R: Copy> SharedRing<R> {
    /// The ring after `call` was made.
    pub open spec fn after(self, call: Call<R>) -> SharedRing<R> {
        match call {
            Call::InitRing { header, .. } => SharedRing { header, slots: self.slots },
            Call::SetReqEvent { req_event, .. } => SharedRing {
                header: RingHeader { req_event, ..self.header },
                slots: self.slots,
            },
            Call::WriteResponse { slot, response, .. } => SharedRing {
                header: self.header,
                slots: self.slots.update(slot as int, response),
            },
            Call::PushResponses { rsp_prod, .. } => SharedRing {
                header: RingHeader { rsp_prod, ..self.header },
                slots: self.slots,
            },
            _ => self,
        }
    }

    /// The ring after the hypervisor put `requests` on it, the first of them at the index
    /// `first`.
    pub open spec fn with_requests(
        self,
        ring: BackRing<R>,
        first: int,
        requests: Seq<R>,
    ) -> SharedRing<R>
        decreases requests.len(),
    {
        if requests.len() == 0 {
            self
        } else {
            let before = self.with_requests(ring, first, requests.drop_last());
            let slot = ring.slot_of(first + requests.len() - 1);
            SharedRing {
                header: before.header,
                slots: before.slots.update(slot, requests.last()),
            }
        }
    }
}

/// Requests that were put on the ring stay there until the ring is full.
proof fn lemma_with_requests<R: Copy>(
    shared: SharedRing<R>,
    ring: BackRing<R>,
    requests: Seq<R>,
    k: int,
)
    requires
        ring.wf(),
        shared.slots.len() == ring.nr_ents,
        requests.len() <= ring.nr_ents,
    ensures
        shared.with_requests(ring, ring.req_cons as int, requests).slots.len() == ring.nr_ents,
        0 <= k < requests.len() ==> shared.with_requests(
            ring,
            ring.req_cons as int,
            requests,
        ).slots[ring.slot_of(ring.req_cons + k)] == requests[k],
    decreases requests.len(),
{
    if requests.len() > 0 {
        let first = ring.req_cons as int;
        let last = requests.len() - 1;
        lemma_with_requests(shared, ring, requests.drop_last(), k);
        law_slot_in_ring(ring, first + last);
        if 0 <= k < last {
            law_slots_distinct(ring, first + k, first + last);
        }
    }
}

/// Up to a ring full of requests are taken in the order in which they were put on the ring, and
/// none is lost: the operation that is started with `k` of them taken reads `requests[k]`.
pub proof fn law_requests_in_order<R: Copy>(
    shared: SharedRing<R>,
    ring: BackRing<R>,
    requests: Seq<R>,
    k: int,
)
    requires
        ring.wf(),
        shared.slots.len() == ring.nr_ents,
        requests.len() <= ring.nr_ents,
        0 <= k < requests.len(),
        ring.req_cons + k + 2 <= u32::MAX,
    ensures
        ({
            let full = shared.with_requests(ring, ring.req_cons as int, requests);
            let taken = BackRing { req_cons: (ring.req_cons + k) as u32, ..ring };
            let script = Script::<R>::TakeRequest {
                page: ring.sring,
                slot: taken.slot_of(taken.req_cons as int) as u32,
                req_event: (taken.req_cons + 2) as u32,
            };
            script.pending(seq![]) matches Some(Call::ReadRequest { page, slot })
                && page == ring.sring && full.slots[slot as int] == requests[k]
        }),
{
    lemma_with_requests(shared, ring, requests, k);
    law_slot_in_ring(ring, ring.req_cons + k);
}

/// Taking a request changes nothing on the ring but the index of the next request to be
/// notified, which is the one after the request that was taken.
pub proof fn law_request_taken<R: Copy>(
    shared: SharedRing<R>,
    ring: BackRing<R>,
    read: Reply<R>,
)
    requires
        ring.wf(),
        ring.req_cons + 2 <= u32::MAX,
    ensures
        ({
            let script = Script::<R>::TakeRequest {
                page: ring.sring,
                slot: ring.slot_of(ring.req_cons as int) as u32,
                req_event: (ring.req_cons + 2) as u32,
            };
            let end = shared.after(script.work_call(seq![])).after(script.work_call(seq![read]));
            &&& end.slots == shared.slots
            &&& end.header == RingHeader {
                req_event: (ring.req_cons + 2) as u32,
                ..shared.header
            }
        }),
{
}

/// A response is written to the entry of the request that it has the index of, and the
/// hypervisor then sees as many responses as were produced. What the entries of the other
/// indices hold, up to a ring before and after it, stays: neither requests that were not taken
/// nor responses that were not seen are overwritten.
pub proof fn law_response_put<R: Copy>(
    shared: SharedRing<R>,
    ring: BackRing<R>,
    response: R,
    written: Reply<R>,
    other: int,
)
    requires
        ring.wf(),
        shared.slots.len() == ring.nr_ents,
        ring.rsp_prod_pvt + 1 <= u32::MAX,
        ring.rsp_prod_pvt - ring.nr_ents < other < ring.rsp_prod_pvt + ring.nr_ents,
        other != ring.rsp_prod_pvt,
    ensures
        ({
            let script = Script::PutResponse {
                page: ring.sring,
                slot: ring.slot_of(ring.rsp_prod_pvt as int) as u32,
                response,
                rsp_prod: (ring.rsp_prod_pvt + 1) as u32,
            };
            let end = shared.after(script.work_call(seq![])).after(
                script.work_call(seq![written]),
            );
            &&& end.slots[ring.slot_of(ring.rsp_prod_pvt as int)] == response
            &&& end.slots[ring.slot_of(other)] == shared.slots[ring.slot_of(other)]
            &&& end.header == RingHeader {
                rsp_prod: (ring.rsp_prod_pvt + 1) as u32,
                ..shared.header
            }
        }),
{
    let at = ring.rsp_prod_pvt as int;
    law_slot_in_ring(ring, at);
    law_slot_in_ring(ring, other);
    if other < at {
        law_slots_distinct(ring, other, at);
    } else {
        law_slots_distinct(ring, at, other);
    }
}

/// A ring that was just set up is empty on both sides, whatever stood in the page before: the
/// private end has consumed as many requests and produced as many responses as the header
/// counts, none, and the bytes of the header that are no index are zero.
pub proof fn law_new_ring_empty<R: Copy>(shared: SharedRing<R>, page: R, layout: RingLayout)
    ensures
        ({
            let header = shared.after(
                Call::InitRing { page, header: RingHeader::empty() },
            ).header;
            let ring = BackRing::empty(layout, page);
            &&& header.req_prod == 0 && ring.req_cons == 0
            &&& header.rsp_prod == 0 && ring.rsp_prod_pvt == 0
            &&& header.req_event == ring.req_cons + 1
            &&& header.rsp_event == ring.rsp_prod_pvt + 1
            &&& forall|i: int| 0 <= i < 4 ==> #[trigger] header.pvt_pad@[i] == 0
            &&& forall|i: int| 0 <= i < 44 ==> #[trigger] header.pad@[i] == 0
        }),
{
}

/// The ring that enabling the monitoring returns can be used at once: the page that was returned
/// is the one that was mapped, and the header of an empty ring was written to it; the private
/// end is valid, has as many entries as the page has room for, lies in that page, and neither of
/// its counts has moved; and the port is the one that came with the page.
pub proof fn law_monitor_ring_usable<R: Copy>(script: Script<R>, replies: Seq<Reply<R>>)
    requires
        script.wf(),
        script.admits(replies),
        script.pending(replies) is None,
        script is Monitor,
        script.result(replies) is Ok,
    ensures
        script.result(replies)->Ok_0 matches Outcome::Ring { page, back_ring, remote_port } && {
            &&& replies[1] == Reply::RingPage { page: Some(page), port: remote_port }
            &&& script.pending(replies.take(2)) == Some(
                Call::InitRing { page, header: RingHeader::empty() },
            )
            &&& back_ring.wf()
            &&& back_ring.nr_ents == script->ring.entries()
            &&& back_ring.sring == page
            &&& back_ring.req_cons == 0 && back_ring.rsp_prod_pvt == 0
        },
{
    law_new_ring_valid(script->ring, replies[1]->page->0);
    law_last_error_decides(script, replies);
    lemma_admits_take(script, replies, 1);
    lemma_admits_take(script, replies, 2);
}

} // verus!
