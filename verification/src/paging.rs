//! Model of the page-table mapper: the set of installed virtual-page →
//! physical-frame translations for the active address space. Installing a
//! translation for a page that already has one replaces it (the stale
//! translation is invalidated), so re-installing is always tolerated.
//!
//! Writing the translations into the hardware page-table tree is the
//! unverified glue's job; it mirrors exactly what this model records.

use vstd::prelude::*;

verus! {

use crate::addr::{PAGE_SIZE, page_aligned};
use crate::frame_alloc::{PhysicalMemoryManager, first_fit};

/// Errors of the memory subsystem.
#[derive(Clone, Copy, PartialEq, Eq, Structural, Debug)]
pub enum MemoryError {
    /// The heap could not be initialised.
    HeapInitFailed,
    /// No physical frame was available.
    FrameAllocationFailed,
    /// An address or mapping was invalid.
    InvalidMapping,
    /// The paging structures rejected the operation.
    PagingError,
}

/// One installed translation: a virtual page mapped to a physical frame
/// with page-table permission flags.
#[derive(Clone, Copy, PartialEq, Eq, Structural, Debug)]
pub struct MappingEntry {
    pub page: u64,
    pub frame: u64,
    pub flags: u64,
}

/// Relies on `x86_64::structures::paging::PageTableFlags::PRESENT`:
/// bit 0 of a page-table entry marks the translation present.
#[verifier::external_body]
pub fn pte_present() -> (r: u64)
    ensures
        r == 1u64,
{
    x86_64::structures::paging::PageTableFlags::PRESENT.bits()
}

/// Relies on `x86_64::structures::paging::PageTableFlags::WRITABLE`:
/// bit 1 of a page-table entry allows writes.
#[verifier::external_body]
pub fn pte_writable() -> (r: u64)
    ensures
        r == 2u64,
{
    x86_64::structures::paging::PageTableFlags::WRITABLE.bits()
}

/// Relies on `x86_64::structures::paging::PageTableFlags::USER_ACCESSIBLE`:
/// bit 2 of a page-table entry allows user-mode access.
#[verifier::external_body]
pub fn pte_user_accessible() -> (r: u64)
    ensures
        r == 4u64,
{
    x86_64::structures::paging::PageTableFlags::USER_ACCESSIBLE.bits()
}

/// Relies on `x86_64::structures::paging::PageTableFlags::NO_EXECUTE`:
/// bit 63 of a page-table entry forbids instruction fetches.
#[verifier::external_body]
pub fn pte_no_execute() -> (r: u64)
    ensures
        r == 0x8000_0000_0000_0000u64,
{
    x86_64::structures::paging::PageTableFlags::NO_EXECUTE.bits()
}

/// The translation recorded for `page`, if any (later installs shadow
/// earlier ones; with distinct pages there is at most one).
pub open spec fn translation_of(s: Seq<MappingEntry>, page: u64) -> Option<MappingEntry>
    decreases s.len(),
{
    if s.len() == 0 {
        Option::None
    } else if s.last().page == page {
        Option::Some(s.last())
    } else {
        translation_of(s.drop_last(), page)
    }
}

/// 🗺️ The page-table mapper model: every translation installed so far.
pub struct PageMapper {
    entries: Vec<MappingEntry>,
}

impl View for PageMapper {
    type V = Seq<MappingEntry>;

    closed spec fn view(&self) -> Seq<MappingEntry> {
        self.entries@
    }
}

/// Replacing the entry at `i` rewires only its page's translation.
proof fn lemma_translation_update(s: Seq<MappingEntry>, i: int, e: MappingEntry)
    requires
        0 <= i < s.len(),
        s[i].page == e.page,
        forall|j: int, k: int| 0 <= j < k < s.len() ==> s[j].page != s[k].page,
    ensures
        translation_of(s.update(i, e), e.page) == Option::<MappingEntry>::Some(e),
        forall|q: u64| q != e.page ==> translation_of(s.update(i, e), q) == translation_of(s, q),
    decreases s.len(),
{
    let t = s.update(i, e);
    if i == s.len() - 1 {
        assert(t.last() == e);
        assert(t.drop_last() =~= s.drop_last());
        assert forall|q: u64| q != e.page implies translation_of(t, q) == translation_of(
            s,
            q,
        ) by {
            assert(translation_of(t, q) == translation_of(t.drop_last(), q));
            assert(translation_of(s, q) == translation_of(s.drop_last(), q));
        }
    } else {
        assert(t.last() == s.last());
        assert(t.drop_last() =~= s.drop_last().update(i, e));
        lemma_translation_update(s.drop_last(), i, e);
        assert(s.last().page != e.page);
        assert(translation_of(t, e.page) == translation_of(t.drop_last(), e.page));
        assert forall|q: u64| q != e.page implies translation_of(t, q) == translation_of(
            s,
            q,
        ) by {
            if s.last().page != q {
                assert(translation_of(t, q) == translation_of(t.drop_last(), q));
                assert(translation_of(s, q) == translation_of(s.drop_last(), q));
            }
        }
    }
}

/// Appending an entry for a fresh page leaves other translations alone.
proof fn lemma_translation_push(s: Seq<MappingEntry>, e: MappingEntry)
    ensures
        translation_of(s.push(e), e.page) == Option::<MappingEntry>::Some(e),
        forall|q: u64| q != e.page ==> translation_of(s.push(e), q) == translation_of(s, q),
{
    assert(s.push(e).last() == e);
    assert(s.push(e).drop_last() =~= s);
}

impl PageMapper {
    /// Pages are distinct and page-aligned.
    pub open spec fn wf(&self) -> bool {
        &&& forall|i: int, j: int| 0 <= i < j < self@.len() ==> self@[i].page != self@[j].page
        &&& forall|i: int| 0 <= i < self@.len() ==> page_aligned(#[trigger] self@[i].page as int)
    }

    /// 🏭 A mapper with no translations installed.
    pub fn new() -> (m: Self)
        ensures
            m.wf(),
            m@ == Seq::<MappingEntry>::empty(),
    {
        PageMapper { entries: Vec::new() }
    }

    /// How many translations are installed.
    pub fn len(&self) -> (n: usize)
        ensures
            n == self@.len(),
    {
        self.entries.len()
    }

    /// The translation installed for `page`, if any.
    pub fn translation(&self, page: u64) -> (r: Option<MappingEntry>)
        requires
            self.wf(),
        ensures
            r == translation_of(self@, page),
    {
        let mut i: usize = self.entries.len();
        proof {
            assert(self@.take(i as int) =~= self@);
        }
        while i > 0
            invariant
                i <= self@.len(),
                translation_of(self@.take(i as int), page) == translation_of(self@, page),
            decreases i,
        {
            i = i - 1;
            proof {
                assert(self@.take(i as int + 1).last() == self@[i as int]);
                assert(self@.take(i as int + 1).drop_last() =~= self@.take(i as int));
            }
            if self.entries[i].page == page {
                return Some(self.entries[i]);
            }
        }
        proof {
            assert(self@.take(0) =~= Seq::<MappingEntry>::empty());
        }
        None
    }

    /// 🔧 Installs the translation `page → frame` with `flags`, replacing
    /// any translation previously installed for that page (the stale one
    /// is invalidated). Never fails.
    pub fn install(&mut self, page: u64, frame: u64, flags: u64)
        requires
            old(self).wf(),
            page_aligned(page as int),
        ensures
            final(self).wf(),
            translation_of(final(self)@, page) == Option::<MappingEntry>::Some(
                MappingEntry { page, frame, flags },
            ),
            forall|q: u64|
                q != page ==> translation_of(final(self)@, q) == translation_of(old(self)@, q),
            final(self)@.len() == if translation_of(old(self)@, page).is_some() {
                old(self)@.len()
            } else {
                old(self)@.len() + 1
            },
    {
        let e = MappingEntry { page, frame, flags };
        let ghost s0 = self.entries@;
        let mut i: usize = 0;
        while i < self.entries.len()
            invariant
                i <= self.entries@.len(),
                self.entries@ == s0,
                e == (MappingEntry { page, frame, flags }),
                old(self)@ == s0,
                old(self).wf(),
                page_aligned(page as int),
                forall|j: int| 0 <= j < i ==> self.entries@[j].page != page,
            decreases self.entries@.len() - i,
        {
            if self.entries[i].page == page {
                proof {
                    assert(s0[i as int].page == page);
                }
                self.entries[i] = e;
                proof {
                    assert(self.entries@ == s0.update(i as int, e));
                    lemma_translation_update(s0, i as int, e);
                    lemma_translation_some(s0, i as int);
                }
                return ;
            }
            i = i + 1;
        }
        self.entries.push(e);
        proof {
            lemma_translation_push(s0, e);
            lemma_translation_none(s0, page);
        }
    }
}

/// A sequence with an entry for `page` records a translation for it.
proof fn lemma_translation_some(s: Seq<MappingEntry>, i: int)
    requires
        0 <= i < s.len(),
    ensures
        translation_of(s, s[i].page).is_some(),
    decreases s.len(),
{
    if i < s.len() - 1 && s.last().page != s[i].page {
        lemma_translation_some(s.drop_last(), i);
    }
}

/// A sequence with no entry for `page` records no translation for it.
proof fn lemma_translation_none(s: Seq<MappingEntry>, page: u64)
    requires
        forall|j: int| 0 <= j < s.len() ==> s[j].page != page,
    ensures
        translation_of(s, page).is_none(),
    decreases s.len(),
{
    if s.len() > 0 {
        lemma_translation_none(s.drop_last(), page);
    }
}

/// 🗺️ Allocates a fresh frame and installs a mapping for `page` with the
/// given flags: fails with `FrameAllocationFailed` exactly when physical
/// memory is exhausted, and then changes nothing.
pub fn create_mapping(
    page: u64,
    mapper: &mut PageMapper,
    allocator: &mut PhysicalMemoryManager,
    flags: u64,
) -> (r: Result<(), MemoryError>)
    requires
        old(mapper).wf(),
        old(allocator).wf(),
        page_aligned(page as int),
    ensures
        final(mapper).wf(),
        final(allocator).wf(),
        final(allocator).spec_regions() == old(allocator).spec_regions(),
        match r {
            Result::Ok(()) => exists|f: u64|
                {
                    &&& first_fit(old(allocator).spec_regions(), old(allocator).cursor())
                        == Option::Some(f as int)
                    &&& final(allocator).cursor() == f + PAGE_SIZE
                    &&& translation_of(final(mapper)@, page) == Option::<MappingEntry>::Some(
                        MappingEntry { page, frame: f, flags },
                    )
                    &&& (forall|q: u64|
                        q != page ==> translation_of(final(mapper)@, q) == translation_of(
                            old(mapper)@,
                            q,
                        ))
                },
            Result::Err(e) => {
                &&& e == MemoryError::FrameAllocationFailed
                &&& first_fit(old(allocator).spec_regions(), old(allocator).cursor()).is_none()
                &&& final(allocator).cursor() == old(allocator).cursor()
                &&& final(mapper)@ == old(mapper)@
            },
        },
{
    match allocator.allocate_frame() {
        Ok(frame) => {
            mapper.install(page, frame, flags);
            Ok(())
        },
        Err(_) => Err(MemoryError::FrameAllocationFailed),
    }
}

} // verus!
