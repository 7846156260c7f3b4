//! Physical frame allocator: a cursor that advances through the declared
//! available regions, handing out the lowest page-aligned frame that lies
//! wholly inside a region at or past the cursor. No frame is ever freed.

use vstd::prelude::*;

verus! {

use crate::addr::{
    PAGE_SIZE, MAX_PHYS_ADDR, page_aligned, spec_align_up, lemma_align_up, phys_align_up,
};

/// Errors of the physical memory manager.
#[derive(Clone, Copy, PartialEq, Eq, Structural, Debug)]
pub enum PmmError {
    NoFreeFrames,
    RegionNotFound,
    InvalidInfo,
}

/// One available region of physical memory, as reported by firmware.
#[derive(Clone, Copy, PartialEq, Eq, Structural, Debug)]
pub struct Region {
    pub base: u64,
    pub len: u64,
}

/// The region lies within the physically addressable range.
pub open spec fn region_wf(r: Region) -> bool {
    r.base + r.len <= MAX_PHYS_ADDR
}

/// Declared regions never overlap.
pub open spec fn regions_disjoint(rs: Seq<Region>) -> bool {
    forall|i: int, j: int|
        0 <= i < rs.len() && 0 <= j < rs.len() && i != j ==> (rs[i].base + rs[i].len
            <= rs[j].base || rs[j].base + rs[j].len <= rs[i].base)
}

/// The frame starting at `f` lies wholly inside region `r`.
pub open spec fn frame_in_region(r: Region, f: int) -> bool {
    r.base <= f && f + PAGE_SIZE <= r.base + r.len
}

/// The frame starting at `f` lies wholly inside one of the regions.
pub open spec fn frame_in_regions(rs: Seq<Region>, f: int) -> bool {
    exists|i: int| 0 <= i < rs.len() && frame_in_region(rs[i], f)
}

/// The smaller of two optional addresses, treating `None` as no candidate.
pub open spec fn opt_min(a: Option<int>, b: Option<int>) -> Option<int> {
    match a {
        Option::None => b,
        Option::Some(x) => match b {
            Option::None => a,
            Option::Some(y) => if x <= y {
                a
            } else {
                b
            },
        },
    }
}

/// The lowest page-aligned address at or past the cursor whose frame lies
/// wholly inside region `r`, if any.
pub open spec fn region_candidate(r: Region, cursor: int) -> Option<int> {
    let lo = if cursor > r.base { cursor } else { r.base as int };
    let c = spec_align_up(lo);
    if c + PAGE_SIZE <= r.base + r.len {
        Option::Some(c)
    } else {
        Option::None
    }
}

/// The lowest page-aligned address at or past the cursor whose frame lies
/// wholly inside one of the regions: what the next allocation returns.
pub open spec fn first_fit(rs: Seq<Region>, cursor: int) -> Option<int>
    decreases rs.len(),
{
    if rs.len() == 0 {
        Option::None
    } else {
        opt_min(region_candidate(rs[0], cursor), first_fit(rs.drop_first(), cursor))
    }
}

/// Maps an optional machine word to its mathematical value.
pub open spec fn opt_as_int(o: Option<u64>) -> Option<int> {
    match o {
        Option::None => Option::None,
        Option::Some(v) => Option::Some(v as int),
    }
}

/// What region `r` contributes to `region_candidate`: existence, bounds and
/// minimality of the candidate.
proof fn lemma_region_candidate(r: Region, cursor: int)
    requires
        region_wf(r),
        cursor >= 0,
    ensures
        match region_candidate(r, cursor) {
            Option::Some(c) => page_aligned(c) && c >= cursor && frame_in_region(r, c) && (forall|
                g: int,
            |
                page_aligned(g) && cursor <= g < c ==> !frame_in_region(r, g)),
            Option::None => forall|g: int|
                page_aligned(g) && g >= cursor ==> !frame_in_region(r, g),
        },
{
    let lo = if cursor > r.base { cursor } else { r.base as int };
    let c = spec_align_up(lo);
    lemma_align_up(lo);
    match region_candidate(r, cursor) {
        Option::Some(_) => {
            assert forall|g: int| page_aligned(g) && cursor <= g < c implies !frame_in_region(
                r,
                g,
            ) by {
                if frame_in_region(r, g) {
                    assert(g >= lo);
                }
            }
        },
        Option::None => {
            assert forall|g: int| page_aligned(g) && g >= cursor implies !frame_in_region(
                r,
                g,
            ) by {
                if frame_in_region(r, g) {
                    assert(g >= lo);
                    assert(g >= c);
                }
            }
        },
    }
}

/// What `first_fit` returns: a page-aligned frame at or past the cursor,
/// inside a declared region, and the lowest such frame; or `None` exactly
/// when no such frame exists.
pub proof fn lemma_first_fit(rs: Seq<Region>, cursor: int)
    requires
        forall|i: int| 0 <= i < rs.len() ==> region_wf(#[trigger] rs[i]),
        cursor >= 0,
    ensures
        match first_fit(rs, cursor) {
            Option::Some(f) => page_aligned(f) && f >= cursor && frame_in_regions(rs, f) && (
            forall|g: int|
                page_aligned(g) && cursor <= g < f ==> !frame_in_regions(rs, g)),
            Option::None => forall|g: int|
                page_aligned(g) && g >= cursor ==> !frame_in_regions(rs, g),
        },
    decreases rs.len(),
{
    if rs.len() == 0 {
    } else {
        let rest = rs.drop_first();
        lemma_region_candidate(rs[0], cursor);
        lemma_first_fit(rest, cursor);
        assert forall|g: int| frame_in_regions(rest, g) implies frame_in_regions(rs, g) by {
            let i = choose|i: int| 0 <= i < rest.len() && frame_in_region(rest[i], g);
            assert(frame_in_region(rs[i + 1], g));
        }
        assert forall|g: int|
            frame_in_regions(rs, g) && !frame_in_region(rs[0], g) implies frame_in_regions(
            rest,
            g,
        ) by {
            let i = choose|i: int| 0 <= i < rs.len() && frame_in_region(rs[i], g);
            assert(frame_in_region(rest[i - 1], g));
        }
    }
}

/// 🧠 The physical memory manager: declared regions plus an allocation
/// cursor. Allocation only ever advances the cursor.
pub struct PhysicalMemoryManager {
    regions: Vec<Region>,
    next_free_frame: u64,
}

impl PhysicalMemoryManager {
    /// The declared available regions, in the order they were added.
    pub closed spec fn spec_regions(&self) -> Seq<Region> {
        self.regions@
    }

    /// The allocation cursor: no frame below it is handed out any more.
    pub closed spec fn cursor(&self) -> int {
        self.next_free_frame as int
    }

    pub open spec fn wf(&self) -> bool {
        &&& forall|i: int|
            0 <= i < self.spec_regions().len() ==> region_wf(#[trigger] self.spec_regions()[i])
        &&& regions_disjoint(self.spec_regions())
        &&& 0 <= self.cursor() <= MAX_PHYS_ADDR
    }

    /// 🏭 Creates an empty manager; regions are declared afterwards.
    pub fn new() -> (pmm: Self)
        ensures
            pmm.wf(),
            pmm.spec_regions() == Seq::<Region>::empty(),
            pmm.cursor() == 0,
    {
        PhysicalMemoryManager { regions: Vec::new(), next_free_frame: 0 }
    }

    /// ➕ Declares one more available region, supplied at boot from the
    /// firmware memory map. Regions must not overlap anything already
    /// declared and must fit in the physical address range.
    pub fn add_available_region(&mut self, start: u64, len: u64)
        requires
            old(self).wf(),
            start + len <= MAX_PHYS_ADDR,
            forall|i: int|
                0 <= i < old(self).spec_regions().len() ==> (start + len
                    <= #[trigger] old(self).spec_regions()[i].base || old(self).spec_regions()[i].base
                    + old(self).spec_regions()[i].len <= start),
        ensures
            final(self).wf(),
            final(self).spec_regions() == old(self).spec_regions().push(
                Region { base: start, len },
            ),
            final(self).cursor() == old(self).cursor(),
    {
        self.regions.push(Region { base: start, len });
    }

    /// The lowest candidate frame inside `rg` at or past the cursor.
    fn region_candidate_exec(rg: Region, cursor: u64) -> (c: Option<u64>)
        requires
            region_wf(rg),
            cursor <= MAX_PHYS_ADDR,
        ensures
            opt_as_int(c) == region_candidate(rg, cursor as int),
    {
        let lo: u64 = if cursor > rg.base {
            cursor
        } else {
            rg.base
        };
        if lo > MAX_PHYS_ADDR - PAGE_SIZE {
            proof {
                lemma_align_up(lo as int);
            }
            None
        } else {
            let c = phys_align_up(lo);
            proof {
                lemma_align_up(lo as int);
                assert(page_aligned((MAX_PHYS_ADDR - PAGE_SIZE) as int));
            }
            if c + PAGE_SIZE <= rg.base + rg.len {
                Some(c)
            } else {
                None
            }
        }
    }

    /// The smaller candidate of two.
    fn opt_min_exec(a: Option<u64>, b: Option<u64>) -> (r: Option<u64>)
        ensures
            opt_as_int(r) == opt_min(opt_as_int(a), opt_as_int(b)),
    {
        match (a, b) {
            (None, _) => b,
            (Some(_), None) => a,
            (Some(x), Some(y)) => if x <= y {
                a
            } else {
                b
            },
        }
    }

    /// 🗺️ Allocates the next physical frame: the lowest page-aligned
    /// address at or past the cursor whose frame lies wholly inside a
    /// declared region. Fails with `NoFreeFrames` exactly when no such
    /// frame exists; failure changes nothing, so it repeats deterministically.
    pub fn allocate_frame(&mut self) -> (r: Result<u64, PmmError>)
        requires
            old(self).wf(),
        ensures
            final(self).wf(),
            final(self).spec_regions() == old(self).spec_regions(),
            match r {
                Result::Ok(f) => {
                    &&& first_fit(old(self).spec_regions(), old(self).cursor()) == Option::Some(
                        f as int,
                    )
                    &&& page_aligned(f as int)
                    &&& frame_in_regions(old(self).spec_regions(), f as int)
                    &&& f as int >= old(self).cursor()
                    &&& final(self).cursor() == f + PAGE_SIZE
                },
                Result::Err(e) => {
                    &&& e == PmmError::NoFreeFrames
                    &&& first_fit(old(self).spec_regions(), old(self).cursor()).is_none()
                    &&& final(self).cursor() == old(self).cursor()
                },
            },
    {
        let ghost rs = self.regions@;
        let ghost cur = self.next_free_frame as int;
        let mut best: Option<u64> = None;
        let mut i: usize = self.regions.len();
        proof {
            assert(rs.skip(i as int) =~= Seq::<Region>::empty());
        }
        while i > 0
            invariant
                i <= self.regions.len(),
                self.wf(),
                self.regions@ == rs,
                self.next_free_frame as int == cur,
                opt_as_int(best) == first_fit(rs.skip(i as int), cur),
            decreases i,
        {
            i = i - 1;
            let rg = self.regions[i];
            let cand = Self::region_candidate_exec(rg, self.next_free_frame);
            best = Self::opt_min_exec(cand, best);
            proof {
                assert(rs.skip(i as int).drop_first() =~= rs.skip(i as int + 1));
                assert(rs.skip(i as int)[0] == rs[i as int]);
            }
        }
        proof {
            assert(rs.skip(0) =~= rs);
            lemma_first_fit(rs, cur);
        }
        match best {
            Some(f) => {
                self.next_free_frame = f + PAGE_SIZE;
                Ok(f)
            },
            None => Err(PmmError::NoFreeFrames),
        }
    }
}

/// One successful allocation step: from cursor `cur0` the allocator returns
/// frame `f` and leaves the cursor at `cur1`.
pub open spec fn alloc_step(rs: Seq<Region>, cur0: int, f: int, cur1: int) -> bool {
    first_fit(rs, cur0) == Option::Some(f) && cur1 == f + PAGE_SIZE
}

/// The cursor stays nonnegative along a run of allocations.
proof fn lemma_cursor_nonneg(rs: Seq<Region>, frames: Seq<int>, cursors: Seq<int>, k: int)
    requires
        forall|i: int| 0 <= i < rs.len() ==> region_wf(#[trigger] rs[i]),
        cursors.len() == frames.len() + 1,
        cursors[0] >= 0,
        forall|m: int|
            0 <= m < frames.len() ==> #[trigger] alloc_step(rs, cursors[m], frames[m], cursors[m
                + 1]),
        0 <= k <= frames.len(),
    ensures
        cursors[k] >= 0,
    decreases k,
{
    if k > 0 {
        lemma_cursor_nonneg(rs, frames, cursors, k - 1);
        assert(alloc_step(rs, cursors[k - 1], frames[k - 1], cursors[(k - 1) + 1]));
        lemma_first_fit(rs, cursors[k - 1]);
    }
}

/// The cursor never moves backwards along a run of allocations.
proof fn lemma_cursors_monotone(
    rs: Seq<Region>,
    frames: Seq<int>,
    cursors: Seq<int>,
    k: int,
    l: int,
)
    requires
        forall|i: int| 0 <= i < rs.len() ==> region_wf(#[trigger] rs[i]),
        cursors.len() == frames.len() + 1,
        cursors[0] >= 0,
        forall|m: int|
            0 <= m < frames.len() ==> #[trigger] alloc_step(rs, cursors[m], frames[m], cursors[m
                + 1]),
        0 <= k <= l <= frames.len(),
    ensures
        cursors[k] <= cursors[l],
        cursors[k] >= 0,
    decreases l - k,
{
    lemma_cursor_nonneg(rs, frames, cursors, k);
    if l > k {
        assert(alloc_step(rs, cursors[k], frames[k], cursors[k + 1]));
        lemma_first_fit(rs, cursors[k]);
        lemma_cursors_monotone(rs, frames, cursors, k + 1, l);
    }
}

/// Law: along any run of successful allocations, every returned frame is
/// page-aligned, lies wholly inside a declared region, and differs from
/// every frame returned before it (they are strictly increasing).
pub proof fn lemma_frame_monotonicity(rs: Seq<Region>, frames: Seq<int>, cursors: Seq<int>)
    requires
        forall|i: int| 0 <= i < rs.len() ==> region_wf(#[trigger] rs[i]),
        cursors.len() == frames.len() + 1,
        cursors[0] >= 0,
        forall|m: int|
            0 <= m < frames.len() ==> #[trigger] alloc_step(rs, cursors[m], frames[m], cursors[m
                + 1]),
    ensures
        forall|k: int|
            0 <= k < frames.len() ==> page_aligned(#[trigger] frames[k]) && frame_in_regions(
                rs,
                frames[k],
            ) && frames[k] >= cursors[k],
        forall|k: int, l: int| 0 <= k < l < frames.len() ==> frames[k] < frames[l],
{
    assert forall|k: int|
        0 <= k < frames.len() implies page_aligned(#[trigger] frames[k]) && frame_in_regions(
        rs,
        frames[k],
    ) && frames[k] >= cursors[k] by {
        lemma_cursors_monotone(rs, frames, cursors, 0, k);
        assert(alloc_step(rs, cursors[k], frames[k], cursors[k + 1]));
        lemma_first_fit(rs, cursors[k]);
    }
    assert forall|k: int, l: int| 0 <= k < l < frames.len() implies frames[k] < frames[l] by {
        assert(alloc_step(rs, cursors[k], frames[k], cursors[k + 1]));
        assert(alloc_step(rs, cursors[l], frames[l], cursors[l + 1]));
        lemma_cursors_monotone(rs, frames, cursors, 0, k);
        lemma_cursors_monotone(rs, frames, cursors, k + 1, l);
        lemma_first_fit(rs, cursors[k]);
        lemma_first_fit(rs, cursors[l]);
    }
}

/// Law: exhaustion is stable. When no page-aligned frame at or past the
/// cursor fits inside any declared region, `allocate_frame` reports
/// `NoFreeFrames`; since a failed allocation changes nothing, every later
/// call from that state fails the same way.
pub proof fn lemma_exhaustion(rs: Seq<Region>, cursor: int)
    requires
        forall|i: int| 0 <= i < rs.len() ==> region_wf(#[trigger] rs[i]),
        cursor >= 0,
    ensures
        first_fit(rs, cursor).is_none() <==> (forall|g: int|
            page_aligned(g) && g >= cursor ==> !frame_in_regions(rs, g)),
{
    lemma_first_fit(rs, cursor);
}

} // verus!
