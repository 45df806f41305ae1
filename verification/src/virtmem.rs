//! Reservations of virtual memory.
//!
//! The process keeps a record of the ranges it has reserved in its alias,
//! ASLR and stack regions. To reserve memory for a user buffer, the caller
//! computes the layout of the reservation, draws random page offsets inside
//! the chosen region until `is_free` accepts the candidate range, maps the
//! user pages there with the kernel, and records the reservation with
//! `reserve_and_map`. Releasing unmaps the pages and forgets the record.

use core::ops::Range;
use vstd::prelude::*;
use crate::result::{NxError, NxResult};

verus! {

/// Reservations are made in whole pages of this size.
pub const PAGE_GRANULARITY: usize = 0x1000;

/// The guard size used for every reservation made through `map`.
pub const MAP_GUARD_SIZE: usize = 0x4000;

/// `x` rounded up to a multiple of the page granularity.
pub open spec fn round_up_page(x: int) -> int {
    ((x + 4095) / 4096) * 4096
}

fn round_up_page_exec(x: usize) -> (r: usize)
    requires
        x + 4095 <= usize::MAX,
    ensures
        r == round_up_page(x as int),
        r >= x,
        r % 4096 == 0,
        r - x < 4096,
{
    let y = x + (PAGE_GRANULARITY - 1);
    let r = y & !(PAGE_GRANULARITY - 1);
    assert(y & !4095usize == y - y % 4096) by (bit_vector);
    r
}

/// The region of the address space a reservation is made in.
#[derive(Debug, Copy, Clone, PartialEq, Eq, Structural)]
pub enum AllocationType {
    Alias,
    Aslr,
    Stack,
}

/// A reserved range of type `ty`: `start..start + page_size` is reserved,
/// the user pages starting at `user_start` are mapped at `start`, and the
/// user's buffer of `size` bytes is seen at `user_pointer`.
#[derive(Debug, Copy, Clone, PartialEq, Eq, Structural)]
pub struct VirtualReservation {
    pub ty: AllocationType,
    pub start: u64,
    pub user_start: u64,
    pub page_size: u64,
    pub user_pointer: u64,
    pub size: u64,
}

/// Whether the range `start..end` collides with the range that `r`
/// reserves: it starts where `r` starts (an empty range too), or it shares
/// an address with `r`'s range.
pub open spec fn overlaps(r: VirtualReservation, start: u64, end: int) -> bool {
    start == r.start || (start < r.start + r.page_size && r.start < end)
}

/// Whether `r` reserves a range that lies inside `region`.
pub open spec fn inside_region(r: VirtualReservation, region: Range<u64>) -> bool {
    region.start <= r.start && r.start + r.page_size <= region.end
}

/// A reservation that fits the address space and whose user size fits its pages.
pub open spec fn reservation_wf(r: VirtualReservation) -> bool {
    &&& r.start + r.page_size <= u64::MAX
    &&& r.size <= r.page_size
    &&& r.start % 4096 == 0
    &&& r.page_size % 4096 == 0
}

/// The reservations, newest first: each is well formed, and no two of them
/// start at the same address or share an address.
pub open spec fn reservations_wf(rs: Seq<VirtualReservation>) -> bool {
    &&& forall|i: int| 0 <= i < rs.len() ==> reservation_wf(#[trigger] rs[i])
    &&& forall|i: int, j: int|
        0 <= i < j < rs.len() ==> !overlaps(#[trigger] rs[j], #[trigger] rs[i].start, rs[i].start + rs[i].page_size)
}

/// A handle to a reservation, given out when it is made and handed back to release it.
#[derive(Debug)]
pub struct VirtualReservationHandle {
    reservation: VirtualReservation,
}

impl View for VirtualReservationHandle {
    type V = VirtualReservation;

    closed spec fn view(&self) -> VirtualReservation {
        self.reservation
    }
}

/// A handle's reservation: well formed, with the user's buffer starting
/// inside the first reserved page.
pub open spec fn handle_wf(r: VirtualReservation) -> bool {
    &&& reservation_wf(r)
    &&& r.start <= r.user_pointer < r.start + 4096
}

impl VirtualReservationHandle {
    #[verifier::type_invariant]
    spec fn inv(self) -> bool {
        handle_wf(self.reservation)
    }

    /// The start of the reserved range, aligned to the page granularity.
    pub fn start_of_region(&self) -> (r: u64)
        ensures
            r == self@.start,
            r % 4096 == 0,
    {
        proof {
            use_type_invariant(self);
        }
        self.reservation.start
    }

    /// The address at which the user's buffer is seen inside the reserved range.
    pub fn as_ptr(&self) -> (r: u64)
        ensures
            r == self@.user_pointer,
            self@.start <= r < self@.start + 4096,
    {
        proof {
            use_type_invariant(self);
        }
        self.reservation.user_pointer
    }

    /// The size of the reserved range, a multiple of the page granularity.
    pub fn region_size(&self) -> (r: u64)
        ensures
            r == self@.page_size,
            r % 4096 == 0,
    {
        proof {
            use_type_invariant(self);
        }
        self.reservation.page_size
    }

    /// The size of the user's buffer.
    pub fn size(&self) -> (r: u64)
        ensures
            r == self@.size,
    {
        self.reservation.size
    }

    /// The arguments of the unmapping call that releases this reservation:
    /// the user pages, the reserved range, and the reserved size.
    pub fn unmap_request(&self) -> (r: (u64, u64, u64))
        ensures
            r == (self@.user_start, self@.start, self@.page_size),
    {
        (self.reservation.user_start, self.reservation.start, self.reservation.page_size)
    }
}

/// How a reservation for a user buffer is laid out.
#[derive(Debug, Copy, Clone, PartialEq, Eq, Structural)]
pub struct ReservationLayout {
    /// The type of the reservation.
    pub ty: AllocationType,
    /// Offset of the user pointer inside its page.
    pub user_page_offset: usize,
    /// Start of the page that holds the user pointer.
    pub user_start: usize,
    /// The size of the user's buffer.
    pub size: usize,
    /// Size of the mapped pages: the buffer and its offset, rounded up to pages.
    pub mapped_size: usize,
    /// The guard size, rounded up to pages.
    pub guard_size: usize,
    /// Start of the region the reservation is made in.
    pub region_start: u64,
    /// End of the region the reservation is made in.
    pub region_end: u64,
    /// The number of pages in the region.
    pub max_page_offset: u64,
}

/// The layout of a reservation of type `ty` for `size` bytes at
/// `user_pointer`, with at least `guard_size` bytes of guard pages after
/// them, in `region`.
pub open spec fn layout_spec(
    ty: AllocationType,
    region: Range<u64>,
    user_pointer: usize,
    size: usize,
    guard_size: usize,
) -> ReservationLayout {
    let offset = user_pointer % 4096;
    ReservationLayout {
        ty,
        user_page_offset: offset as usize,
        user_start: (user_pointer - offset) as usize,
        size,
        mapped_size: round_up_page(size + offset) as usize,
        guard_size: round_up_page(guard_size as int) as usize,
        region_start: region.start,
        region_end: region.end,
        max_page_offset: ((region.end - region.start) / 4096) as u64,
    }
}

/// The size of the whole reservation: mapped pages and guard pages.
pub open spec fn total_size(layout: ReservationLayout) -> int {
    layout.mapped_size + layout.guard_size
}

/// The start of the candidate range chosen by the random value `random`: a
/// page of the region, from its first to one past its last.
pub open spec fn candidate_spec(layout: ReservationLayout, random: u64) -> int {
    layout.region_start + (random % (layout.max_page_offset + 1) as u64) * 4096
}

/// The reservation recorded for `layout` placed at `start`.
pub open spec fn reservation_for(layout: ReservationLayout, start: u64) -> VirtualReservation {
    VirtualReservation {
        ty: layout.ty,
        start,
        user_start: layout.user_start as u64,
        page_size: (layout.mapped_size + layout.guard_size) as u64,
        user_pointer: (start + layout.user_page_offset) as u64,
        size: layout.size as u64,
    }
}

/// Whether the range `start..end` shares no address with any reservation.
pub open spec fn is_free_spec(rs: Seq<VirtualReservation>, start: u64, end: int) -> bool {
    forall|i: int| 0 <= i < rs.len() ==> !overlaps(#[trigger] rs[i], start, end)
}

/// Whether the whole reservation for `layout`, guard pages included, placed
/// at `start` lies inside its region and shares no address with any
/// reservation of `rs`.
pub open spec fn placement_ok(rs: Seq<VirtualReservation>, layout: ReservationLayout, start: u64) -> bool {
    &&& layout.region_start <= start
    &&& start + total_size(layout) <= layout.region_end
    &&& is_free_spec(rs, start, start + total_size(layout))
}

/// The regions of the process's address space and the reservations made in them.
pub struct VirtualMemory {
    alias_memory: Range<u64>,
    aslr_memory: Range<u64>,
    heap_memory: Range<u64>,
    stack_memory: Range<u64>,
    reservations: Vec<VirtualReservation>,
}

impl VirtualMemory {
    /// The reservations, newest first.
    pub closed spec fn reservations(&self) -> Seq<VirtualReservation> {
        self.reservations@
    }

    /// The region reservations of type `ty` are made in.
    pub closed spec fn region(&self, ty: AllocationType) -> Range<u64> {
        match ty {
            AllocationType::Alias => self.alias_memory,
            AllocationType::Aslr => self.aslr_memory,
            AllocationType::Stack => self.stack_memory,
        }
    }

    /// The heap region.
    pub closed spec fn heap(&self) -> Range<u64> {
        self.heap_memory
    }

    /// The state invariant: the regions are ranges starting at page
    /// boundaries, each reservation lies inside the region of its type, and
    /// no two reservations share an address.
    pub open spec fn wf(&self) -> bool {
        &&& self.region(AllocationType::Alias).start <= self.region(AllocationType::Alias).end
        &&& self.region(AllocationType::Aslr).start <= self.region(AllocationType::Aslr).end
        &&& self.region(AllocationType::Stack).start <= self.region(AllocationType::Stack).end
        &&& self.region(AllocationType::Alias).start % 4096 == 0
        &&& self.region(AllocationType::Aslr).start % 4096 == 0
        &&& self.region(AllocationType::Stack).start % 4096 == 0
        &&& reservations_wf(self.reservations())
        &&& forall|i: int|
            0 <= i < self.reservations().len() ==> inside_region(
                #[trigger] self.reservations()[i],
                self.region(self.reservations()[i].ty),
            )
    }

    /// Builds the record of the process's regions from the answers to the
    /// region queries, with no reservation; the first failed query, in the
    /// order alias, ASLR, heap, stack, is the error. The kernel reports
    /// regions that start at page boundaries.
    pub fn new(
        alias_memory: NxResult<Range<u64>>,
        aslr_memory: NxResult<Range<u64>>,
        heap_memory: NxResult<Range<u64>>,
        stack_memory: NxResult<Range<u64>>,
    ) -> (r: NxResult<Self>)
        requires
            alias_memory is Ok ==> alias_memory->Ok_0.start <= alias_memory->Ok_0.end
                && alias_memory->Ok_0.start % 4096 == 0,
            aslr_memory is Ok ==> aslr_memory->Ok_0.start <= aslr_memory->Ok_0.end
                && aslr_memory->Ok_0.start % 4096 == 0,
            stack_memory is Ok ==> stack_memory->Ok_0.start <= stack_memory->Ok_0.end
                && stack_memory->Ok_0.start % 4096 == 0,
        ensures
            alias_memory is Err ==> r == Err::<Self, _>(alias_memory->Err_0),
            alias_memory is Ok && aslr_memory is Err ==> r == Err::<Self, _>(aslr_memory->Err_0),
            alias_memory is Ok && aslr_memory is Ok && heap_memory is Err ==> r == Err::<Self, _>(
                heap_memory->Err_0,
            ),
            alias_memory is Ok && aslr_memory is Ok && heap_memory is Ok && stack_memory is Err
                ==> r == Err::<Self, _>(stack_memory->Err_0),
            (alias_memory is Ok && aslr_memory is Ok && heap_memory is Ok && stack_memory is Ok)
                ==> r is Ok && r->Ok_0.wf() && r->Ok_0.reservations() == Seq::<VirtualReservation>::empty()
                && r->Ok_0.region(AllocationType::Alias) == alias_memory->Ok_0
                && r->Ok_0.region(AllocationType::Aslr) == aslr_memory->Ok_0
                && r->Ok_0.region(AllocationType::Stack) == stack_memory->Ok_0
                && r->Ok_0.heap() == heap_memory->Ok_0,
    {
        let alias_memory = match alias_memory {
            Ok(m) => m,
            Err(e) => return Err(e),
        };
        let aslr_memory = match aslr_memory {
            Ok(m) => m,
            Err(e) => return Err(e),
        };
        let heap_memory = match heap_memory {
            Ok(m) => m,
            Err(e) => return Err(e),
        };
        let stack_memory = match stack_memory {
            Ok(m) => m,
            Err(e) => return Err(e),
        };
        Ok(VirtualMemory { alias_memory, aslr_memory, heap_memory, stack_memory, reservations: Vec::new() })
    }

    /// The region reservations of type `ty` are made in.
    pub fn region_of(&self, ty: AllocationType) -> (r: Range<u64>)
        ensures
            r == self.region(ty),
    {
        match ty {
            AllocationType::Alias => self.alias_memory.start..self.alias_memory.end,
            AllocationType::Aslr => self.aslr_memory.start..self.aslr_memory.end,
            AllocationType::Stack => self.stack_memory.start..self.stack_memory.end,
        }
    }

    /// Lays out a reservation of type `ty` for `size` bytes at `user_pointer`
    /// followed by `guard_size` bytes of guard pages: the mapped range covers
    /// every page of the buffer, and the buffer keeps its offset inside its
    /// page.
    pub fn layout(&self, ty: AllocationType, user_pointer: usize, size: usize, guard_size: usize) -> (r:
        ReservationLayout)
        requires
            self.wf(),
            user_pointer % 4096 + size + 4095 <= usize::MAX,
            guard_size + 4095 <= usize::MAX,
            round_up_page(user_pointer % 4096 + size) + round_up_page(guard_size as int) <= usize::MAX,
        ensures
            r == layout_spec(ty, self.region(ty), user_pointer, size, guard_size),
            r.user_start + r.user_page_offset == user_pointer,
            r.mapped_size % 4096 == 0,
            r.guard_size % 4096 == 0,
            r.guard_size >= guard_size,
            total_size(r) <= usize::MAX,
            r.mapped_size >= r.user_page_offset + r.size,
            r.user_page_offset < 4096,
            r.user_start % 4096 == 0,
            r.region_start <= r.region_end,
            r.region_start % 4096 == 0,
    {
        let user_page_offset = user_pointer % PAGE_GRANULARITY;
        let mapped_size = round_up_page_exec(size + user_page_offset);
        let guard_size = round_up_page_exec(guard_size);
        let region = self.region_of(ty);
        let region_size = region.end - region.start;
        let max_page_offset = region_size >> 12u64;
        assert(region_size >> 12u64 == region_size / 4096) by (bit_vector);
        ReservationLayout {
            ty,
            user_page_offset,
            user_start: user_pointer - user_page_offset,
            size,
            mapped_size,
            guard_size,
            region_start: region.start,
            region_end: region.end,
            max_page_offset,
        }
    }

    /// Whether the reservation for `layout`, guard pages included, can be
    /// placed at `start`: it lies inside its region, and it neither starts
    /// where an existing reservation starts nor shares an address with one.
    pub fn is_free(&self, layout: &ReservationLayout, start: u64) -> (r: bool)
        requires
            self.wf(),
            total_size(*layout) <= usize::MAX,
        ensures
            r == placement_ok(self.reservations(), *layout, start),
    {
        if start < layout.region_start || start > layout.region_end {
            return false;
        }
        let total = (layout.mapped_size + layout.guard_size) as u64;
        if total > layout.region_end - start {
            return false;
        }
        let end = start + total;
        let mut i: usize = 0;
        while i < self.reservations.len()
            invariant
                self.wf(),
                i <= self.reservations@.len(),
                end == start + total_size(*layout),
                forall|k: int| 0 <= k < i ==> !overlaps(#[trigger] self.reservations@[k], start, end as int),
            decreases self.reservations@.len() - i,
        {
            let r = self.reservations[i];
            assert(reservation_wf(self.reservations@[i as int]));
            if start == r.start || (start < r.start + r.page_size && r.start < end) {
                return false;
            }
            i = i + 1;
        }
        true
    }

    /// Records the reservation for `layout` placed at `start`, once the
    /// kernel has answered the mapping of the user pages: when the mapping
    /// failed, its error is returned and nothing is recorded.
    pub fn reserve_and_map(&mut self, layout: ReservationLayout, start: u64, map_result: NxResult<()>) -> (r:
        NxResult<VirtualReservationHandle>)
        requires
            old(self).wf(),
            start % 4096 == 0,
            layout.mapped_size % 4096 == 0,
            layout.guard_size % 4096 == 0,
            layout.mapped_size >= layout.user_page_offset + layout.size,
            layout.user_page_offset < 4096,
            layout.region_start == old(self).region(layout.ty).start,
            layout.region_end == old(self).region(layout.ty).end,
            total_size(layout) <= usize::MAX,
            placement_ok(old(self).reservations(), layout, start),
        ensures
            final(self).wf(),
            final(self).region(AllocationType::Alias) == old(self).region(AllocationType::Alias),
            final(self).region(AllocationType::Aslr) == old(self).region(AllocationType::Aslr),
            final(self).region(AllocationType::Stack) == old(self).region(AllocationType::Stack),
            final(self).heap() == old(self).heap(),
            match map_result {
                Err(e) => r == Err::<VirtualReservationHandle, _>(e) && final(self).reservations()
                    == old(self).reservations(),
                Ok(_) => r is Ok && r->Ok_0@ == reservation_for(layout, start)
                    && r->Ok_0@.user_pointer % 4096 == layout.user_page_offset % 4096
                    && final(self).reservations() == seq![reservation_for(layout, start)].add(
                    old(self).reservations(),
                ),
            },
    {
        if let Err(e) = map_result {
            return Err(e);
        }
        let page_size = (layout.mapped_size + layout.guard_size) as u64;
        let reservation = VirtualReservation {
            ty: layout.ty,
            start,
            user_start: layout.user_start as u64,
            page_size,
            user_pointer: start + layout.user_page_offset as u64,
            size: layout.size as u64,
        };
        assert(page_size % 4096 == 0);
        assert(handle_wf(reservation));
        let ghost old_rs = self.reservations@;
        self.reservations.insert(0, reservation);
        assert(self.reservations@ =~= seq![reservation].add(old_rs));
        assert forall|i: int, j: int|
            0 <= i < j < self.reservations@.len() implies !overlaps(
            #[trigger] self.reservations@[j],
            #[trigger] self.reservations@[i].start,
            self.reservations@[i].start + self.reservations@[i].page_size,
        ) by {
            assert(self.reservations@[j] == old_rs[j - 1]);
            if i > 0 {
                assert(self.reservations@[i] == old_rs[i - 1]);
            }
        }
        assert forall|i: int| 0 <= i < self.reservations@.len() implies inside_region(
            #[trigger] self.reservations()[i],
            self.region(self.reservations()[i].ty),
        ) && reservation_wf(self.reservations@[i]) by {
            if i > 0 {
                assert(self.reservations@[i] == old_rs[i - 1]);
            }
        }
        Ok(VirtualReservationHandle { reservation })
    }

    /// Forgets the reservation of `handle` once the kernel has answered the
    /// unmapping of its range: when the unmapping failed, its error is
    /// returned and the record is kept; otherwise the handle's own record,
    /// when the record holds it, is removed and no other.
    pub fn release_allocation(&mut self, handle: VirtualReservationHandle, unmap_result: NxResult<()>) -> (r:
        NxResult<()>)
        requires
            old(self).wf(),
        ensures
            final(self).wf(),
            final(self).region(AllocationType::Alias) == old(self).region(AllocationType::Alias),
            final(self).region(AllocationType::Aslr) == old(self).region(AllocationType::Aslr),
            final(self).region(AllocationType::Stack) == old(self).region(AllocationType::Stack),
            final(self).heap() == old(self).heap(),
            match unmap_result {
                Err(e) => r == Err::<(), _>(e) && final(self).reservations() == old(self).reservations(),
                Ok(_) => r == Ok::<(), NxError>(()) && (
                    (exists|i: int|
                        0 <= i < old(self).reservations().len() && #[trigger] old(self).reservations()[i]
                            == handle@ && final(self).reservations() == old(self).reservations().remove(i))
                    || ((forall|i: int|
                        0 <= i < old(self).reservations().len() ==> #[trigger] old(self).reservations()[i]
                            != handle@) && final(self).reservations() == old(self).reservations())),
            },
    {
        if let Err(e) = unmap_result {
            return Err(e);
        }
        let own = handle.reservation;
        let mut i: usize = 0;
        while i < self.reservations.len()
            invariant
                i <= self.reservations@.len(),
                old(self).wf(),
                self.reservations@ == old(self).reservations@,
                self.alias_memory == old(self).alias_memory,
                self.aslr_memory == old(self).aslr_memory,
                self.heap_memory == old(self).heap_memory,
                self.stack_memory == old(self).stack_memory,
                own == handle@,
                unmap_result is Ok,
                forall|k: int| 0 <= k < i ==> #[trigger] self.reservations@[k] != own,
            decreases self.reservations@.len() - i,
        {
            if self.reservations[i] == own {
                let ghost old_rs = self.reservations@;
                self.reservations.remove(i);
                assert forall|a: int, b: int|
                    0 <= a < b < self.reservations@.len() implies !overlaps(
                    #[trigger] self.reservations@[b],
                    #[trigger] self.reservations@[a].start,
                    self.reservations@[a].start + self.reservations@[a].page_size,
                ) by {
                    let a0 = if a < i { a } else { a + 1 };
                    let b0 = if b < i { b } else { b + 1 };
                    assert(self.reservations@[a] == old_rs[a0]);
                    assert(self.reservations@[b] == old_rs[b0]);
                }
                assert forall|a: int| 0 <= a < self.reservations@.len() implies reservation_wf(
                    #[trigger] self.reservations@[a],
                ) && inside_region(self.reservations()[a], self.region(self.reservations()[a].ty)) by {
                    let a0 = if a < i { a } else { a + 1 };
                    assert(self.reservations@[a] == old_rs[a0]);
                }
                assert(old(self).reservations()[i as int] == handle@);
                assert(self.reservations() == old(self).reservations().remove(i as int));
                return Ok(());
            }
            i = i + 1;
        }
        assert forall|k: int| 0 <= k < old(self).reservations().len() implies #[trigger] old(
            self,
        ).reservations()[k] != handle@ by {
            assert(self.reservations@[k] != own);
        }
        Ok(())
    }
}

/// A record of reservations holds each reservation at most once: no two of
/// its entries start at the same address, so the entry that release removes
/// for a handle is the only one equal to the handle's reservation.
pub proof fn lemma_reservations_unique(rs: Seq<VirtualReservation>, i: int, j: int)
    requires
        reservations_wf(rs),
        0 <= i < rs.len(),
        0 <= j < rs.len(),
        i != j,
    ensures
        rs[i].start != rs[j].start,
        rs[i] != rs[j],
{
    if i < j {
        assert(!overlaps(rs[j], rs[i].start, rs[i].start + rs[i].page_size));
    } else {
        assert(!overlaps(rs[i], rs[j].start, rs[j].start + rs[j].page_size));
    }
}

/// The start of the candidate range that the random value `random` picks
/// for `layout`: a whole page inside the region, or its end.
pub fn candidate_start(layout: &ReservationLayout, random: u64) -> (r: u64)
    requires
        layout.region_start <= layout.region_end,
        layout.max_page_offset == (layout.region_end - layout.region_start) / 4096,
    ensures
        r == candidate_spec(*layout, random),
        layout.region_start <= r <= layout.region_end,
        (r - layout.region_start) % 4096 == 0,
        layout.region_start % 4096 == 0 ==> r % 4096 == 0,
{
    let page_offset = random % (layout.max_page_offset + 1);
    assert(page_offset * 4096 <= layout.region_end - layout.region_start) by (nonlinear_arith)
        requires
            page_offset <= layout.max_page_offset,
            layout.max_page_offset == (layout.region_end - layout.region_start) / 4096,
            layout.region_start <= layout.region_end,
    ;
    assert(page_offset << 12u64 == page_offset * 4096) by (bit_vector)
        requires
            page_offset * 4096 <= u64::MAX,
    ;
    layout.region_start + (page_offset << 12u64)
}

/// The arguments of the mapping call for the reservation of `layout` placed
/// at `start`: the user pages are the source, the reserved range the
/// destination, and the mapped pages (without the guard pages) the size.
pub fn map_request(layout: &ReservationLayout, start: u64) -> (r: (u64, u64, u64))
    ensures
        r == (layout.user_start as u64, start, layout.mapped_size as u64),
{
    (layout.user_start as u64, start, layout.mapped_size as u64)
}

/// Releasing the newest reservation undoes making it: the newest one is
/// found only at the front of the record, and removing it there leaves the
/// record as it was before.
pub proof fn lemma_release_undoes_reserve(rs: Seq<VirtualReservation>, layout: ReservationLayout, start: u64)
    requires
        reservations_wf(seq![reservation_for(layout, start)].add(rs)),
    ensures
        ({
            let s = seq![reservation_for(layout, start)].add(rs);
            &&& forall|i: int| 0 <= i < s.len() && (#[trigger] s[i]) == reservation_for(layout, start) ==> i == 0
            &&& forall|i: int| 0 <= i < s.len() && (#[trigger] s[i]).start == start ==> i == 0
            &&& s.remove(0) == rs
        }),
{
    let s = seq![reservation_for(layout, start)].add(rs);
    assert forall|i: int| 0 <= i < s.len() && (#[trigger] s[i]).start == start implies i == 0 by {
        if i > 0 {
            assert(!overlaps(s[i], s[0].start, s[0].start + s[0].page_size));
            assert(s[i] == rs[i - 1]);
        }
    }
    assert(s.remove(0) =~= rs);
}

/// A reservation recorded by `reserve_and_map` lies, guard pages included,
/// inside the region of its type, and neither starts where an older
/// reservation starts nor shares an address with one: whenever the record
/// before is sound and the record after is the new reservation in front of
/// the old ones, in the same regions and itself sound.
pub proof fn lemma_reserved_range_in_region(before: VirtualMemory, after: VirtualMemory, h: VirtualReservation)
    requires
        before.wf(),
        after.wf(),
        after.reservations() == seq![h].add(before.reservations()),
        after.region(h.ty) == before.region(h.ty),
    ensures
        inside_region(h, before.region(h.ty)),
        forall|i: int|
            0 <= i < before.reservations().len() ==> !overlaps(
                #[trigger] before.reservations()[i],
                h.start,
                h.start + h.page_size,
            ),
{
    let s = after.reservations();
    assert(s[0] == h);
    assert(inside_region(s[0], after.region(s[0].ty)));
    assert forall|i: int| 0 <= i < before.reservations().len() implies !overlaps(
        #[trigger] before.reservations()[i],
        h.start,
        h.start + h.page_size,
    ) by {
        assert(s[i + 1] == before.reservations()[i]);
        assert(!overlaps(s[i + 1], s[0].start, s[0].start + s[0].page_size));
    }
}

/// The user's buffer keeps its offset inside its page: the address at which
/// a reservation placed at a page start shows the buffer has the same
/// offset in its page as the user's pointer, and the mapped pages cover the
/// whole buffer.
pub proof fn lemma_offset_preserved(ty: AllocationType, region: Range<u64>, user_pointer: usize, size: usize, guard_size: usize, start: u64)
    requires
        start % 4096 == 0,
        start + 4096 <= u64::MAX,
        user_pointer % 4096 + size + 4095 <= usize::MAX,
        guard_size + 4095 <= usize::MAX,
    ensures
        ({
            let layout = layout_spec(ty, region, user_pointer, size, guard_size);
            &&& reservation_for(layout, start).user_pointer % 4096 == user_pointer % 4096
            &&& layout.user_start + layout.mapped_size >= user_pointer + size
            &&& layout.user_start % 4096 == 0
        }),
{
    let offset = user_pointer % 4096;
    assert((start + offset) % 4096 == offset) by (nonlinear_arith)
        requires
            start % 4096 == 0,
            0 <= offset < 4096,
    ;
    assert(round_up_page(size + offset) >= size + offset) by (nonlinear_arith);
    assert((user_pointer - offset) % 4096 == 0) by (nonlinear_arith)
        requires
            offset == user_pointer % 4096,
    ;
}

/// Placing a reservation where `is_free` accepts it keeps the record sound:
/// the new reservation, guard pages included, lies inside its region and
/// shares no address with any older one, so every reservation stays inside
/// its region and no two share an address; releasing any reservation keeps
/// that too.
pub proof fn lemma_placement_keeps_apart(
    rs: Seq<VirtualReservation>,
    region: Range<u64>,
    layout: ReservationLayout,
    start: u64,
)
    requires
        reservations_wf(rs),
        forall|i: int| 0 <= i < rs.len() && (#[trigger] rs[i]).ty == layout.ty ==> inside_region(rs[i], region),
        layout.region_start == region.start,
        layout.region_end == region.end,
        start % 4096 == 0,
        layout.mapped_size % 4096 == 0,
        layout.guard_size % 4096 == 0,
        layout.mapped_size >= layout.user_page_offset + layout.size,
        placement_ok(rs, layout, start),
    ensures
        ({
            let s = seq![reservation_for(layout, start)].add(rs);
            &&& reservations_wf(s)
            &&& inside_region(reservation_for(layout, start), region)
            &&& forall|i: int| 0 <= i < rs.len() ==> !overlaps(
                #[trigger] rs[i],
                start,
                start + reservation_for(layout, start).page_size,
            )
        }),
        forall|i: int| 0 <= i < rs.len() ==> reservations_wf(#[trigger] rs.remove(i)),
{
    let s = seq![reservation_for(layout, start)].add(rs);
    assert forall|i: int, j: int| 0 <= i < j < s.len() implies !overlaps(
        #[trigger] s[j],
        #[trigger] s[i].start,
        s[i].start + s[i].page_size,
    ) by {
        assert(s[j] == rs[j - 1]);
        if i > 0 {
            assert(s[i] == rs[i - 1]);
        }
    }
    assert forall|i: int| 0 <= i < s.len() implies reservation_wf(#[trigger] s[i]) by {
        if i > 0 {
            assert(s[i] == rs[i - 1]);
        }
    }
    assert forall|k: int| 0 <= k < rs.len() implies reservations_wf(#[trigger] rs.remove(k)) by {
        let t = rs.remove(k);
        assert forall|a: int, b: int| 0 <= a < b < t.len() implies !overlaps(
            #[trigger] t[b],
            #[trigger] t[a].start,
            t[a].start + t[a].page_size,
        ) by {
            let a0 = if a < k { a } else { a + 1 };
            let b0 = if b < k { b } else { b + 1 };
            assert(t[a] == rs[a0]);
            assert(t[b] == rs[b0]);
        }
        assert forall|a: int| 0 <= a < t.len() implies reservation_wf(#[trigger] t[a]) by {
            let a0 = if a < k { a } else { a + 1 };
            assert(t[a] == rs[a0]);
        }
    }
}

proof fn lemma_round_up_page(x: int)
    requires
        x >= 0,
    ensures
        round_up_page(x) % 4096 == 0,
        x <= round_up_page(x) < x + 4096,
{
    assert(((x + 4095) / 4096) * 4096 % 4096 == 0) by (nonlinear_arith);
    assert(x <= ((x + 4095) / 4096) * 4096 < x + 4096) by (nonlinear_arith)
        requires
            x >= 0,
    ;
}

/// A candidate drawn for a reservation and accepted by `is_free` can be
/// recorded: the layout that `layout` computes and the candidate start meet
/// every demand of `reserve_and_map`, among them a page-aligned start, since
/// every region starts at a page boundary.
pub proof fn lemma_candidate_reservable(
    vm: VirtualMemory,
    ty: AllocationType,
    user_pointer: usize,
    size: usize,
    guard_size: usize,
    random: u64,
)
    requires
        vm.wf(),
        user_pointer % 4096 + size + 4095 <= usize::MAX,
        guard_size + 4095 <= usize::MAX,
        round_up_page(user_pointer % 4096 + size) + round_up_page(guard_size as int) <= usize::MAX,
        placement_ok(
            vm.reservations(),
            layout_spec(ty, vm.region(ty), user_pointer, size, guard_size),
            candidate_spec(layout_spec(ty, vm.region(ty), user_pointer, size, guard_size), random) as u64,
        ),
    ensures
        ({
            let layout = layout_spec(ty, vm.region(ty), user_pointer, size, guard_size);
            let start = candidate_spec(layout, random);
            &&& layout.region_start <= start <= layout.region_end
            &&& start % 4096 == 0
            &&& layout.mapped_size % 4096 == 0
            &&& layout.guard_size % 4096 == 0
            &&& layout.mapped_size >= layout.user_page_offset + layout.size
            &&& layout.user_page_offset < 4096
            &&& layout.region_start == vm.region(layout.ty).start
            &&& layout.region_end == vm.region(layout.ty).end
            &&& total_size(layout) <= usize::MAX
        }),
{
    let layout = layout_spec(ty, vm.region(ty), user_pointer, size, guard_size);
    let offset = user_pointer % 4096;
    lemma_round_up_page(size + offset);
    lemma_round_up_page(guard_size as int);
    let k = random % (layout.max_page_offset + 1) as u64;
    let region = vm.region(ty);
    assert(k * 4096 <= region.end - region.start) by (nonlinear_arith)
        requires
            k <= layout.max_page_offset,
            layout.max_page_offset == (region.end - region.start) / 4096,
            region.start <= region.end,
    ;
    assert((region.start + k * 4096) % 4096 == 0) by (nonlinear_arith)
        requires
            region.start % 4096 == 0,
    ;
}

} // verus!
