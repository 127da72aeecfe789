//! The ring on which the hypervisor hands over guest events and takes the responses.
//!
//! The ring is a page that is shared with the hypervisor: a header with four indices, then a
//! power of two of entries. An entry holds a request until the response to it is written in its
//! place. The indices only count up; the entry that belongs to an index is found by the index
//! modulo the number of entries.
use vstd::arithmetic::div_mod::{
    lemma_div_is_ordered_by_denominator, lemma_fundamental_div_mod,
    lemma_fundamental_div_mod_converse, lemma_mod_bound, lemma_small_mod,
};
use vstd::arithmetic::mul::lemma_mul_inequality;
use vstd::arithmetic::power2::{
    lemma2_to64, lemma_pow2_pos, lemma_pow2_strictly_increases, lemma_pow2_unfold, pow2,
};
use vstd::array::spec_array_fill_for_copy_type;
use vstd::bits::{lemma_u32_low_bits_mask_is_mod, low_bits_mask};
use vstd::prelude::*;

use crate::consts::PAGE_SIZE;

verus! {

/// Whether `n` is a power of two.
pub open spec fn is_power_of_two(n: int) -> bool {
    exists|e: nat| n == #[trigger] pow2(e)
}

/// The largest power of two that is at most `n`; 0 if there is none.
pub open spec fn round_down(n: int) -> int
    decreases n,
{
    if n <= 0 {
        0
    } else if n == 1 {
        1
    } else {
        2 * round_down(n / 2)
    }
}

/// `round_down(n)` is the power of two between the half of `n`, excluded, and `n`.
pub proof fn lemma_round_down(n: int)
    requires
        n > 0,
    ensures
        is_power_of_two(round_down(n)),
        0 < round_down(n) <= n < 2 * round_down(n),
    decreases n,
{
    if n == 1 {
        lemma2_to64();
        assert(round_down(n) == pow2(0));
    } else {
        lemma_round_down(n / 2);
        let e: nat = choose|e: nat| round_down(n / 2) == #[trigger] pow2(e);
        lemma_pow2_unfold(e + 1);
        assert(round_down(n) == pow2(e + 1));
    }
}

/// No other power of two than `round_down(n)` lies between the half of `n`, excluded, and `n`.
pub proof fn lemma_round_down_unique(n: int, r: int)
    requires
        is_power_of_two(r),
        r <= n < 2 * r,
    ensures
        r == round_down(n),
{
    let a: nat = choose|e: nat| r == #[trigger] pow2(e);
    lemma_pow2_pos(a);
    lemma_round_down(n);
    let b: nat = choose|e: nat| round_down(n) == #[trigger] pow2(e);
    if a < b {
        if a + 1 < b {
            lemma_pow2_strictly_increases(a + 1, b);
        }
        lemma_pow2_unfold(a + 1);
    } else if b < a {
        if b + 1 < a {
            lemma_pow2_strictly_increases(b + 1, a);
        }
        lemma_pow2_unfold(b + 1);
    }
}

/// How the ring lies in its page: the bytes of the header before the first entry, and the bytes
/// of one entry.
#[derive(Debug, Copy, Clone, PartialEq, Eq, Structural)]
pub struct RingLayout {
    pub header: u32,
    pub entry: u32,
}

impl RingLayout {
    /// The page has room for the header and at least one entry.
    pub open spec fn wf(self) -> bool {
        &&& self.entry > 0
        &&& self.header + self.entry <= PAGE_SIZE
    }

    /// The number of entries of a ring in a page: the largest power of two for which there is
    /// room.
    pub open spec fn entries(self) -> int {
        round_down((PAGE_SIZE - self.header) / self.entry as int)
    }

    /// Whether the page has room for the header and at least one entry.
    pub fn is_valid(&self) -> (valid: bool)
        ensures
            valid == self.wf(),
    {
        self.entry > 0 && self.header <= PAGE_SIZE && self.entry <= PAGE_SIZE - self.header
    }

    /// The number of entries of a ring in a page.
    pub fn ring_size(&self) -> (size: u32)
        requires
            self.wf(),
        ensures
            size == self.entries(),
    {
        let room: u32 = (PAGE_SIZE - self.header) / self.entry;
        proof {
            lemma_div_is_ordered_by_denominator(
                PAGE_SIZE - self.header,
                1,
                self.entry as int,
            );
            lemma_one_entry_fits(*self);
        }
        let mut size: u32 = 1;
        proof {
            lemma2_to64();
            assert(size as int == pow2(0));
        }
        while size <= room / 2
            invariant
                1 <= size <= room,
                room <= PAGE_SIZE,
                is_power_of_two(size as int),
            decreases room - size,
        {
            proof {
                let e: nat = choose|e: nat| size as int == #[trigger] pow2(e);
                lemma_pow2_unfold(e + 1);
                assert(2 * size == pow2(e + 1));
            }
            size = size * 2;
        }
        proof {
            lemma_round_down_unique(room as int, size as int);
        }
        size
    }
}

/// A page with room for one entry holds at least one.
proof fn lemma_one_entry_fits(layout: RingLayout)
    requires
        layout.wf(),
    ensures
        (PAGE_SIZE - layout.header) / layout.entry as int >= 1,
{
    let room: int = PAGE_SIZE - layout.header;
    let d: int = layout.entry as int;
    lemma_fundamental_div_mod(room, d);
    lemma_mod_bound(room, d);
    assert(room / d >= 1) by (nonlinear_arith)
        requires
            room >= d,
            d > 0,
            room == d * (room / d) + room % d,
            room % d < d,
    ;
}

/// The ring has at least one entry, as many as a power of two, and no more than the page has
/// bytes; all of them lie in the page, and twice as many would not.
pub proof fn law_ring_fills_page(layout: RingLayout)
    requires
        layout.wf(),
    ensures
        is_power_of_two(layout.entries()),
        1 <= layout.entries() <= PAGE_SIZE,
        layout.header + layout.entries() * layout.entry <= PAGE_SIZE,
        layout.header + 2 * layout.entries() * layout.entry > PAGE_SIZE,
{
    let room: int = PAGE_SIZE - layout.header;
    let d: int = layout.entry as int;
    let q: int = room / d;
    let n: int = layout.entries();
    lemma_one_entry_fits(layout);
    lemma_round_down(q);
    lemma_fundamental_div_mod(room, d);
    lemma_mod_bound(room, d);
    assert(n * d <= q * d) by {
        lemma_mul_inequality(n, q, d);
    }
    assert((q + 1) * d <= 2 * n * d) by {
        lemma_mul_inequality(q + 1, 2 * n, d);
    }
    assert(q * d == d * q && (q + 1) * d == q * d + d) by (nonlinear_arith);
    assert(n <= n * d) by {
        lemma_mul_inequality(1, d, n);
        assert(1 * n == n && d * n == n * d) by (nonlinear_arith);
    }
}

/// All that stands in the header of a ring, before the entries: the four indices, and the
/// bytes that are private to one end or unused.
#[derive(Debug, Copy, Clone, PartialEq, Eq)]
pub struct RingHeader {
    pub req_prod: u32,
    pub req_event: u32,
    pub rsp_prod: u32,
    pub rsp_event: u32,
    pub pvt_pad: [u8; 4],
    pub pad: [u8; 44],
}

impl RingHeader {
    /// The header of an empty ring: nothing was produced, the first request and the first
    /// response are to be notified, and all other bytes are zero.
    pub open spec fn empty() -> RingHeader {
        RingHeader {
            req_prod: 0,
            req_event: 1,
            rsp_prod: 0,
            rsp_event: 1,
            pvt_pad: spec_array_fill_for_copy_type(0),
            pad: spec_array_fill_for_copy_type(0),
        }
    }

    /// The header of an empty ring.
    pub fn new() -> (header: RingHeader)
        ensures
            header == RingHeader::empty(),
            forall|i: int| 0 <= i < 4 ==> #[trigger] header.pvt_pad@[i] == 0,
            forall|i: int| 0 <= i < 44 ==> #[trigger] header.pad@[i] == 0,
    {
        RingHeader {
            req_prod: 0,
            req_event: 1,
            rsp_prod: 0,
            rsp_event: 1,
            pvt_pad: [0u8; 4],
            pad: [0u8; 44],
        }
    }
}

/// The private end of the ring: how many requests were consumed, how many responses were
/// produced, the number of entries, and the ring page.
#[derive(Debug, PartialEq, Eq)]
pub struct BackRing<R> {
    pub rsp_prod_pvt: u32,
    pub req_cons: u32,
    pub nr_ents: u32,
    pub sring: R,
}

impl<R: Copy> Copy for BackRing<R> {

}

impl<R: Copy> Clone for BackRing<R> {
    fn clone(&self) -> (copy: Self)
        ensures
            copy == *self,
    {
        *self
    }
}

impl<R: Copy> BackRing<R> {
    /// The number of entries is a power of two.
    pub open spec fn wf(self) -> bool {
        is_power_of_two(self.nr_ents as int)
    }

    /// The private end of an empty ring.
    pub open spec fn empty(layout: RingLayout, page: R) -> BackRing<R> {
        BackRing {
            rsp_prod_pvt: 0,
            req_cons: 0,
            nr_ents: layout.entries() as u32,
            sring: page,
        }
    }

    /// The entry that belongs to the index `index`.
    pub open spec fn slot_of(self, index: int) -> int {
        index % self.nr_ents as int
    }

    /// The private end of an empty ring in the page `page`, which is laid out as `layout` says.
    pub fn init(layout: RingLayout, page: R) -> (ring: BackRing<R>)
        requires
            layout.wf(),
        ensures
            ring == BackRing::empty(layout, page),
            ring.nr_ents == layout.entries(),
            ring.wf(),
    {
        proof {
            law_ring_fills_page(layout);
        }
        BackRing { rsp_prod_pvt: 0, req_cons: 0, nr_ents: layout.ring_size(), sring: page }
    }

    /// The entry that belongs to the index `index`.
    pub fn slot(&self, index: u32) -> (slot: u32)
        requires
            self.wf(),
        ensures
            slot == self.slot_of(index as int),
            slot < self.nr_ents,
    {
        proof {
            let e: nat = choose|e: nat| self.nr_ents as int == #[trigger] pow2(e);
            lemma_pow2_pos(e);
            if e >= 32 {
                lemma2_to64();
                if e > 32 {
                    lemma_pow2_strictly_increases(32, e);
                }
            }
            lemma_u32_low_bits_mask_is_mod(index, e);
            assert(low_bits_mask(e) == self.nr_ents - 1);
            lemma_mod_bound(index as int, self.nr_ents as int);
        }
        index & (self.nr_ents - 1)
    }

    /// Counts the next request as consumed. Gives the entry that holds the request, and the
    /// value for `req_event`, with which the hypervisor notifies the request after it.
    pub fn consume_request(&mut self) -> (taken: (u32, u32))
        requires
            old(self).wf(),
            old(self).req_cons + 2 <= u32::MAX,
        ensures
            taken.0 == old(self).slot_of(old(self).req_cons as int),
            taken.1 == old(self).req_cons + 2,
            *final(self) == (BackRing { req_cons: (old(self).req_cons + 1) as u32, ..*old(self) }),
    {
        let slot: u32 = self.slot(self.req_cons);
        self.req_cons = self.req_cons + 1;
        (slot, 1 + self.req_cons)
    }

    /// Counts one more response as produced. Gives the entry that is to hold the response, and
    /// the value for `rsp_prod`, with which the hypervisor sees it.
    pub fn produce_response(&mut self) -> (put: (u32, u32))
        requires
            old(self).wf(),
            old(self).rsp_prod_pvt + 1 <= u32::MAX,
        ensures
            put.0 == old(self).slot_of(old(self).rsp_prod_pvt as int),
            put.1 == old(self).rsp_prod_pvt + 1,
            *final(self) == (BackRing {
                rsp_prod_pvt: (old(self).rsp_prod_pvt + 1) as u32,
                ..*old(self)
            }),
    {
        let slot: u32 = self.slot(self.rsp_prod_pvt);
        self.rsp_prod_pvt = self.rsp_prod_pvt + 1;
        (slot, self.rsp_prod_pvt)
    }
}

/// The private end of an empty ring is valid, and has as many entries as the page has room for.
pub proof fn law_new_ring_valid<R: Copy>(layout: RingLayout, page: R)
    requires
        layout.wf(),
    ensures
        BackRing::empty(layout, page).wf(),
        BackRing::empty(layout, page).nr_ents == layout.entries(),
{
    law_ring_fills_page(layout);
}

/// A layout is valid if and only if entries have a size and one of them fits the page behind the
/// header.
pub proof fn law_layout_valid(layout: RingLayout)
    ensures
        layout.wf() <==> layout.entry > 0 && layout.header + layout.entry <= PAGE_SIZE,
{
}

/// A ring is valid if and only if it has a power of two of entries, whatever its counts are.
pub proof fn law_ring_valid<R: Copy>(ring: BackRing<R>)
    ensures
        ring.wf() <==> exists|e: nat| ring.nr_ents == #[trigger] pow2(e),
{
}

/// The entries follow each other in the order of the indices: the index 0 has the first entry,
/// each next index has the next entry, and after the last entry comes the first.
pub proof fn law_slots_in_order<R: Copy>(ring: BackRing<R>, index: int)
    requires
        ring.wf(),
    ensures
        ring.slot_of(0) == 0,
        ring.slot_of(index) + 1 < ring.nr_ents ==> ring.slot_of(index + 1) == ring.slot_of(index)
            + 1,
        ring.slot_of(index) + 1 == ring.nr_ents ==> ring.slot_of(index + 1) == 0,
{
    let n: int = ring.nr_ents as int;
    law_slot_in_ring(ring, index);
    lemma_small_mod(0, n as nat);
    lemma_fundamental_div_mod(index, n);
    let q: int = index / n;
    let r: int = index % n;
    if r + 1 < n {
        assert(index + 1 == q * n + (r + 1)) by (nonlinear_arith)
            requires
                index == n * q + r,
        ;
        lemma_fundamental_div_mod_converse(index + 1, n, q, r + 1);
    } else {
        assert(index + 1 == (q + 1) * n + 0) by (nonlinear_arith)
            requires
                index == n * q + r,
                r + 1 == n,
        ;
        lemma_fundamental_div_mod_converse(index + 1, n, q + 1, 0);
    }
}

/// Every index has an entry of the ring.
pub proof fn law_slot_in_ring<R: Copy>(ring: BackRing<R>, index: int)
    requires
        ring.wf(),
    ensures
        0 <= ring.slot_of(index) < ring.nr_ents,
{
    let e: nat = choose|e: nat| ring.nr_ents as int == #[trigger] pow2(e);
    lemma_pow2_pos(e);
    lemma_mod_bound(index, ring.nr_ents as int);
}

/// Two indices share an entry only if they are at least a whole ring apart.
pub proof fn law_slots_distinct<R: Copy>(ring: BackRing<R>, i: int, j: int)
    requires
        ring.wf(),
        i < j < i + ring.nr_ents,
    ensures
        ring.slot_of(i) != ring.slot_of(j),
{
    let n: int = ring.nr_ents as int;
    if i % n == j % n {
        lemma_fundamental_div_mod(i, n);
        lemma_fundamental_div_mod(j, n);
        assert(n * (j / n) - n * (i / n) == n * (j / n - i / n)) by (nonlinear_arith);
        assert(false) by (nonlinear_arith)
            requires
                0 < j - i < n,
                j - i == n * (j / n - i / n),
        ;
    }
}

} // verus!
