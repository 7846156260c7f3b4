//! Physical and virtual address arithmetic: page alignment and the page
//! containing a given address.

use vstd::prelude::*;

verus! {

/// Size in bytes of one physical frame and of one virtual page.
pub const PAGE_SIZE: u64 = 4096;

/// One past the largest physical address the hardware can name (52 address bits).
pub const MAX_PHYS_ADDR: u64 = 0x10_0000_0000_0000;

/// One past the largest lower-half canonical virtual address (47 bits).
pub const USER_SPACE_END: u64 = 0x8000_0000_0000;

/// An address that is a multiple of the page size.
pub open spec fn page_aligned(a: int) -> bool {
    a % (PAGE_SIZE as int) == 0
}

/// The start of the page containing address `a`: `a` rounded down to a
/// page boundary.
pub open spec fn spec_page_base(a: int) -> int {
    a - a % (PAGE_SIZE as int)
}

/// `a` rounded up to the next page boundary.
pub open spec fn spec_align_up(a: int) -> int {
    if a % (PAGE_SIZE as int) == 0 {
        a
    } else {
        a + PAGE_SIZE - a % (PAGE_SIZE as int)
    }
}

/// Two page-aligned addresses less than one page apart are equal.
proof fn lemma_aligned_close(lo: int, hi: int)
    requires
        page_aligned(lo),
        page_aligned(hi),
        lo <= hi < lo + PAGE_SIZE,
    ensures
        lo == hi,
{
    let p = PAGE_SIZE as int;
    let k = hi - lo;
    vstd::arithmetic::div_mod::lemma_sub_mod_noop(hi, lo, p);
    vstd::arithmetic::div_mod::lemma_small_mod(k as nat, p as nat);
    vstd::arithmetic::div_mod::lemma_small_mod(0nat, p as nat);
}

/// `spec_page_base(a)` is the largest page-aligned address at or below `a`.
pub proof fn lemma_page_base(a: int)
    requires
        a >= 0,
    ensures
        page_aligned(spec_page_base(a)),
        spec_page_base(a) <= a < spec_page_base(a) + PAGE_SIZE,
        forall|b: int| page_aligned(b) && b <= a ==> b <= spec_page_base(a),
{
    let p = PAGE_SIZE as int;
    let r = a % p;
    vstd::arithmetic::div_mod::lemma_mod_bound(a, p);
    vstd::arithmetic::div_mod::lemma_sub_mod_noop(a, r, p);
    vstd::arithmetic::div_mod::lemma_small_mod(r as nat, p as nat);
    vstd::arithmetic::div_mod::lemma_small_mod(0nat, p as nat);
    assert forall|b: int| page_aligned(b) && b <= a implies b <= spec_page_base(a) by {
        if b > a - r {
            lemma_aligned_close(a - r, b);
        }
    }
}

/// `spec_align_up(a)` is the smallest page-aligned address at or above `a`.
pub proof fn lemma_align_up(a: int)
    requires
        a >= 0,
    ensures
        page_aligned(spec_align_up(a)),
        a <= spec_align_up(a) < a + PAGE_SIZE,
        forall|b: int| page_aligned(b) && b >= a ==> b >= spec_align_up(a),
{
    let p = PAGE_SIZE as int;
    let r = a % p;
    let u = spec_align_up(a);
    vstd::arithmetic::div_mod::lemma_mod_bound(a, p);
    if r != 0 {
        vstd::arithmetic::div_mod::lemma_add_mod_noop(a, p - r, p);
        vstd::arithmetic::div_mod::lemma_small_mod((p - r) as nat, p as nat);
        vstd::arithmetic::div_mod::lemma_small_mod(0nat, p as nat);
        vstd::arithmetic::div_mod::lemma_mod_self_0(p);
        assert(u % p == 0);
    }
    assert forall|b: int| page_aligned(b) && b >= a implies b >= u by {
        if b < u {
            lemma_aligned_close(b, u);
        }
    }
}

/// Relies on `x86_64::structures::paging::Page::containing_address` (together
/// with `VirtAddr::new`): the 4 KiB page holding a lower-half canonical
/// virtual address starts at that address rounded down to a page boundary.
#[verifier::external_body]
pub fn page_containing_address(addr: u64) -> (r: u64)
    requires
        addr < USER_SPACE_END,
    ensures
        r as int == spec_page_base(addr as int),
{
    x86_64::structures::paging::Page::<x86_64::structures::paging::Size4KiB>::containing_address(
        x86_64::VirtAddr::new(addr),
    ).start_address().as_u64()
}

/// Relies on `x86_64::PhysAddr::align_up`: rounds a physical address up to
/// the next 4 KiB boundary. The bound on `addr` keeps the result below the
/// 52-bit limit, so the call cannot panic.
#[verifier::external_body]
pub fn phys_align_up(addr: u64) -> (r: u64)
    requires
        addr <= MAX_PHYS_ADDR - PAGE_SIZE,
    ensures
        r as int == spec_align_up(addr as int),
{
    x86_64::PhysAddr::new(addr).align_up(PAGE_SIZE).as_u64()
}

} // verus!
