//! Virtual memory areas: per-task descriptors of contiguous virtual-address
//! ranges with permission flags, kept ordered by start address, with
//! predecessor lookup and demand paging of single pages on fault.

use vstd::prelude::*;

verus! {

use crate::addr::{PAGE_SIZE, USER_SPACE_END, page_aligned, spec_page_base, lemma_page_base,
    page_containing_address};
use crate::frame_alloc::{PhysicalMemoryManager, first_fit};
use crate::paging::{PageMapper, MappingEntry, translation_of, pte_present, pte_writable,
    pte_user_accessible, pte_no_execute};

/// 🏷️ The semantic kind of a virtual memory area.
#[derive(Clone, Copy, PartialEq, Eq, Structural, Debug)]
#[allow(non_camel_case_types)]
pub enum VMA_Type {
    /// Code (read and execute).
    Code,
    /// Data (read and write).
    Data,
    /// Stack (read and write).
    Stack,
    /// Heap (read and write).
    Heap,
    /// Shared or file-backed memory.
    MappedFile,
}

/// ❌ Errors of the VMA layer.
#[derive(Clone, Copy, PartialEq, Eq, Structural, Debug)]
#[allow(non_camel_case_types)]
pub enum VMA_Error {
    /// An area with the same start address already exists.
    AreaAlreadyExists,
    /// No area contains the faulting address.
    NoAreaFound,
    /// No physical frame could be allocated.
    OOM,
}

/// Page-table flag bits used when mapping an area of the given kind:
/// code is user-accessible and executable; everything else is
/// user-accessible, writable and non-executable.
pub open spec fn spec_default_flags(t: VMA_Type) -> u64 {
    match t {
        VMA_Type::Code => 1u64 | 4u64,
        _ => 1u64 | 2u64 | 4u64 | 0x8000_0000_0000_0000u64,
    }
}

/// Builds the page-table flag bits for an area of kind `t` from the
/// architecture's flag constants.
pub fn default_flags(t: VMA_Type) -> (r: u64)
    ensures
        r == spec_default_flags(t),
{
    let present = pte_present();
    let user = pte_user_accessible();
    match t {
        VMA_Type::Code => present | user,
        _ => present | pte_writable() | user | pte_no_execute(),
    }
}

/// 📑 One virtual memory area: a contiguous virtual-address range with
/// uniform permission flags and a semantic kind. Immutable once created.
#[derive(Clone, Copy, PartialEq, Eq, Structural, Debug)]
pub struct VirtualMemoryArea {
    /// First virtual address of the area.
    pub start_addr: u64,
    /// Size of the area in bytes.
    pub size: usize,
    /// Page-table flag bits used when mapping pages of this area.
    pub flags: u64,
    /// The semantic kind of the area.
    pub area_type: VMA_Type,
}

impl VirtualMemoryArea {
    /// The area lies wholly in the lower canonical half of the address space.
    pub open spec fn wf(&self) -> bool {
        self.start_addr + self.size <= USER_SPACE_END
    }

    /// `addr` lies inside the area.
    pub open spec fn spec_contains(&self, addr: int) -> bool {
        self.start_addr <= addr < self.start_addr + self.size
    }

    /// Builds an area carrying the default flags for its kind.
    pub fn new(start_addr: u64, size: usize, area_type: VMA_Type) -> (a: Self)
        ensures
            a == (VirtualMemoryArea {
                start_addr,
                size,
                flags: spec_default_flags(area_type),
                area_type,
            }),
    {
        VirtualMemoryArea { start_addr, size, flags: default_flags(area_type), area_type }
    }
}

/// Areas are strictly ordered by start address (so starts are unique).
pub open spec fn areas_sorted(s: Seq<VirtualMemoryArea>) -> bool {
    forall|i: int, j: int| 0 <= i < j < s.len() ==> s[i].start_addr < s[j].start_addr
}

/// Every area lies in the lower canonical half.
pub open spec fn areas_wf(s: Seq<VirtualMemoryArea>) -> bool {
    forall|i: int| 0 <= i < s.len() ==> #[trigger] s[i].wf()
}

/// No two areas overlap (the intended invariant of one task's address
/// space; `add_area` checks only start-address collisions, so this is a
/// premise, not maintained state).
pub open spec fn areas_nonoverlapping(s: Seq<VirtualMemoryArea>) -> bool {
    forall|i: int, j: int|
        0 <= i < j < s.len() ==> #[trigger] s[i].start_addr + s[i].size <= #[trigger] s[j].start_addr
}

/// Predecessor lookup: the area with the greatest start address at or
/// below `addr`, if that area contains `addr`.
pub open spec fn find_spec(s: Seq<VirtualMemoryArea>, addr: int) -> Option<VirtualMemoryArea>
    decreases s.len(),
{
    if s.len() == 0 {
        Option::None
    } else if s.last().start_addr <= addr {
        if addr < s.last().start_addr + s.last().size {
            Option::Some(s.last())
        } else {
            Option::None
        }
    } else {
        find_spec(s.drop_last(), addr)
    }
}

/// A successful lookup returns a stored area that contains the address.
pub proof fn lemma_find_spec_some(s: Seq<VirtualMemoryArea>, addr: int)
    requires
        find_spec(s, addr).is_some(),
    ensures
        s.contains(find_spec(s, addr)->0),
        find_spec(s, addr)->0.spec_contains(addr),
    decreases s.len(),
{
    if s.len() > 0 && s.last().start_addr <= addr {
    } else {
        lemma_find_spec_some(s.drop_last(), addr);
        assert(s.drop_last().contains(find_spec(s, addr)->0));
        let i = choose|i: int|
            0 <= i < s.drop_last().len() && s.drop_last()[i] == find_spec(s, addr)->0;
        assert(s[i] == find_spec(s, addr)->0);
    }
}

/// Law (VMA containment): over non-overlapping areas, the predecessor
/// lookup returns the area containing `addr` exactly when one exists, and
/// `None` exactly when `addr` falls in a gap.
pub proof fn lemma_find_area_containment(s: Seq<VirtualMemoryArea>, addr: int)
    requires
        areas_sorted(s),
        areas_nonoverlapping(s),
    ensures
        match find_spec(s, addr) {
            Option::Some(a) => s.contains(a) && a.spec_contains(addr) && (forall|i: int|
                0 <= i < s.len() && #[trigger] s[i].spec_contains(addr) ==> s[i] == a),
            Option::None => forall|i: int|
                0 <= i < s.len() ==> !(#[trigger] s[i].spec_contains(addr)),
        },
    decreases s.len(),
{
    if s.len() == 0 {
    } else if s.last().start_addr <= addr {
        assert(s[s.len() - 1] == s.last());
        if addr < s.last().start_addr + s.last().size {
            assert forall|i: int|
                0 <= i < s.len() && #[trigger] s[i].spec_contains(addr) implies s[i] == s.last() by {
                if i < s.len() - 1 {
                    assert(s[i].start_addr + s[i].size <= s[s.len() - 1].start_addr);
                }
            }
        } else {
            assert forall|i: int| 0 <= i < s.len() implies !(#[trigger] s[i].spec_contains(
                addr,
            )) by {
                if i < s.len() - 1 {
                    assert(s[i].start_addr + s[i].size <= s[s.len() - 1].start_addr);
                }
            }
        }
    } else {
        let sd = s.drop_last();
        lemma_find_area_containment(sd, addr);
        match find_spec(s, addr) {
            Option::Some(a) => {
                let i = choose|i: int| 0 <= i < sd.len() && sd[i] == a;
                assert(s[i] == a);
                assert forall|i2: int|
                    0 <= i2 < s.len() && #[trigger] s[i2].spec_contains(addr) implies s[i2]
                    == a by {
                    if i2 < s.len() - 1 {
                        assert(sd[i2] == s[i2]);
                        assert(sd[i2].spec_contains(addr));
                    } else {
                        assert(!s.last().spec_contains(addr));
                    }
                }
            },
            Option::None => {
                assert forall|i2: int| 0 <= i2 < s.len() implies !(#[trigger] s[i2].spec_contains(
                    addr,
                )) by {
                    if i2 < s.len() - 1 {
                        assert(sd[i2] == s[i2]);
                        assert(!sd[i2].spec_contains(addr));
                    }
                }
            },
        }
    }
}

/// Law (demand-paging idempotence): `map_vma_page` never changes the area
/// set (it takes the manager immutably), and whether its lookup step finds
/// an area depends only on the areas and the faulting address — never on
/// the frame allocator or the mapper. So once a fault at `addr` has
/// resolved, the lookup of a repeated fault at `addr` finds the same
/// stored area containing `addr` again and cannot fail with `NoAreaFound`.
pub proof fn lemma_demand_paging_idempotent(s: Seq<VirtualMemoryArea>, addr: int)
    requires
        find_spec(s, addr).is_some(),
    ensures
        find_spec(s, addr).is_some(),
        s.contains(find_spec(s, addr)->0),
        find_spec(s, addr)->0.spec_contains(addr),
{
    lemma_find_spec_some(s, addr);
}

/// 🌳 The per-task manager of virtual memory areas, ordered by start
/// address.
#[allow(non_camel_case_types)]
pub struct VMA_Manager {
    areas: Vec<VirtualMemoryArea>,
}

impl View for VMA_Manager {
    type V = Seq<VirtualMemoryArea>;

    closed spec fn view(&self) -> Seq<VirtualMemoryArea> {
        self.areas@
    }
}

impl VMA_Manager {
    pub open spec fn wf(&self) -> bool {
        &&& areas_sorted(self@)
        &&& areas_wf(self@)
    }

    /// Creates an empty manager.
    pub fn new() -> (m: Self)
        ensures
            m.wf(),
            m@ == Seq::<VirtualMemoryArea>::empty(),
    {
        VMA_Manager { areas: Vec::new() }
    }

    /// ➕ Adds a new area. Rejects exactly a start-address collision with
    /// an existing area; otherwise the area is inserted in start order.
    pub fn add_area(&mut self, area: VirtualMemoryArea) -> (r: Result<(), VMA_Error>)
        requires
            old(self).wf(),
            area.wf(),
        ensures
            final(self).wf(),
            match r {
                Result::Ok(()) => {
                    &&& forall|i: int|
                        0 <= i < old(self)@.len() ==> #[trigger] old(self)@[i].start_addr
                            != area.start_addr
                    &&& exists|pos: int|
                        0 <= pos <= old(self)@.len() && final(self)@ == old(self)@.insert(
                            pos,
                            area,
                        )
                },
                Result::Err(e) => {
                    &&& e == VMA_Error::AreaAlreadyExists
                    &&& exists|i: int|
                        0 <= i < old(self)@.len() && #[trigger] old(self)@[i].start_addr
                            == area.start_addr
                    &&& final(self)@ == old(self)@
                },
            },
    {
        let ghost s0 = self.areas@;
        let mut i: usize = 0;
        while i < self.areas.len() && self.areas[i].start_addr < area.start_addr
            invariant
                i <= self.areas@.len(),
                self.areas@ == s0,
                areas_sorted(s0),
                areas_wf(s0),
                area.wf(),
                forall|j: int| 0 <= j < i ==> #[trigger] s0[j].start_addr < area.start_addr,
            decreases self.areas@.len() - i,
        {
            i = i + 1;
        }
        if i < self.areas.len() && self.areas[i].start_addr == area.start_addr {
            return Err(VMA_Error::AreaAlreadyExists);
        }
        proof {
            assert forall|j: int| 0 <= j < s0.len() implies #[trigger] s0[j].start_addr
                != area.start_addr by {
                if j >= i {
                    assert(s0[i as int].start_addr <= s0[j].start_addr);
                    assert(s0[i as int].start_addr > area.start_addr);
                }
            }
        }
        self.areas.insert(i, area);
        proof {
            let t = s0.insert(i as int, area);
            s0.insert_ensures(i as int, area);
            assert(self.areas@ == t);
            assert forall|j: int, k: int| 0 <= j < k < t.len() implies t[j].start_addr
                < t[k].start_addr by {
                if k > i {
                    assert(t[(k - 1) + 1] == s0[k - 1]);
                    assert(s0[i as int].start_addr > area.start_addr);
                }
                if j > i {
                    assert(t[(j - 1) + 1] == s0[j - 1]);
                }
                if j < i && k > i {
                    assert(s0[j].start_addr < s0[k - 1].start_addr);
                }
            }
            assert forall|j: int| 0 <= j < t.len() implies #[trigger] t[j].wf() by {
                if j > i {
                    assert(t[(j - 1) + 1] == s0[j - 1]);
                    assert(s0[j - 1].wf());
                } else if j < i {
                    assert(s0[j].wf());
                }
            }
        }
        Ok(())
    }

    /// 🔍 Finds the area containing `addr`: the area with the greatest
    /// start address at or below `addr`, if `addr` falls before its end.
    pub fn find_area(&self, addr: u64) -> (r: Option<&VirtualMemoryArea>)
        requires
            self.wf(),
        ensures
            match r {
                Option::Some(a) => find_spec(self@, addr as int) == Option::Some(*a),
                Option::None => find_spec(self@, addr as int).is_none(),
            },
    {
        let mut i: usize = self.areas.len();
        proof {
            assert(self@.take(i as int) =~= self@);
        }
        while i > 0
            invariant
                i <= self@.len(),
                self.wf(),
                find_spec(self@.take(i as int), addr as int) == find_spec(self@, addr as int),
            decreases i,
        {
            i = i - 1;
            proof {
                assert(self@.take(i as int + 1).last() == self@[i as int]);
                assert(self@.take(i as int + 1).drop_last() =~= self@.take(i as int));
                assert(self@[i as int].wf());
            }
            let a = &self.areas[i];
            if a.start_addr <= addr {
                if addr < a.start_addr + (a.size as u64) {
                    return Some(a);
                } else {
                    return None;
                }
            }
        }
        proof {
            assert(self@.take(0) =~= Seq::<VirtualMemoryArea>::empty());
        }
        None
    }

    /// 🗺️ Resolves a page fault at `fault_addr` by demand paging: looks up
    /// the owning area, allocates one physical frame, and installs a
    /// single-page mapping with the area's flags. Fails with `NoAreaFound`
    /// when no area contains the address (an illegal access) and with
    /// `OOM` when physical memory is exhausted; failure changes nothing.
    pub fn map_vma_page(
        &self,
        fault_addr: u64,
        pmm: &mut PhysicalMemoryManager,
        mapper: &mut PageMapper,
    ) -> (r: Result<(), VMA_Error>)
        requires
            self.wf(),
            old(pmm).wf(),
            old(mapper).wf(),
        ensures
            final(pmm).wf(),
            final(mapper).wf(),
            final(pmm).spec_regions() == old(pmm).spec_regions(),
            match find_spec(self@, fault_addr as int) {
                Option::None => {
                    &&& r == Result::<(), VMA_Error>::Err(VMA_Error::NoAreaFound)
                    &&& final(pmm).cursor() == old(pmm).cursor()
                    &&& final(mapper)@ == old(mapper)@
                },
                Option::Some(area) => match first_fit(
                    old(pmm).spec_regions(),
                    old(pmm).cursor(),
                ) {
                    Option::None => {
                        &&& r == Result::<(), VMA_Error>::Err(VMA_Error::OOM)
                        &&& final(pmm).cursor() == old(pmm).cursor()
                        &&& final(mapper)@ == old(mapper)@
                    },
                    Option::Some(f) => {
                        &&& r == Result::<(), VMA_Error>::Ok(())
                        &&& final(pmm).cursor() == f + PAGE_SIZE
                        &&& translation_of(
                            final(mapper)@,
                            spec_page_base(fault_addr as int) as u64,
                        ) == Option::<MappingEntry>::Some(
                            MappingEntry {
                                page: spec_page_base(fault_addr as int) as u64,
                                frame: f as u64,
                                flags: area.flags,
                            },
                        )
                        &&& (forall|q: u64|
                            q != spec_page_base(fault_addr as int) as u64 ==> translation_of(
                                final(mapper)@,
                                q,
                            ) == translation_of(old(mapper)@, q))
                    },
                },
            },
    {
        let area = match self.find_area(fault_addr) {
            Some(a) => a,
            None => {
                return Err(VMA_Error::NoAreaFound);
            },
        };
        proof {
            lemma_find_spec_some(self@, fault_addr as int);
            let i = choose|i: int| 0 <= i < self@.len() && self@[i] == *area;
            assert(self@[i].wf());
            lemma_page_base(fault_addr as int);
        }
        let flags = area.flags;
        let page = page_containing_address(fault_addr);
        let frame = match pmm.allocate_frame() {
            Ok(f) => f,
            Err(_) => {
                return Err(VMA_Error::OOM);
            },
        };
        mapper.install(page, frame, flags);
        Ok(())
    }
}

} // verus!
