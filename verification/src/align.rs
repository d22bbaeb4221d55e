//! How far a payload has to move to start on an aligned address.
use vstd::arithmetic::div_mod::{
    lemma_fundamental_div_mod,
    lemma_fundamental_div_mod_converse_mod,
    lemma_mod_bound,
};
use vstd::prelude::*;

verus! {

/// Whether `addr` is a multiple of `align`.
pub open spec fn is_aligned(addr: int, align: int) -> bool {
    addr % align == 0
}

/// The number of bytes from `addr` up to the next multiple of `align`; zero
/// where `addr` is one already.
pub open spec fn spec_align_offset(addr: int, align: int) -> int {
    if addr % align == 0 {
        0
    } else {
        align - addr % align
    }
}

/// The offset leads to an aligned address, is smaller than the alignment,
/// and no smaller offset leads to an aligned address.
pub proof fn lemma_align_offset(addr: int, align: int)
    requires
        0 <= addr,
        0 < align,
    ensures
        0 <= spec_align_offset(addr, align) < align,
        is_aligned(addr + spec_align_offset(addr, align), align),
        forall|smaller: int|
            0 <= smaller < spec_align_offset(addr, align) ==> !is_aligned(
                #[trigger] (addr + smaller),
                align,
            ),
{
    let rem = addr % align;
    let quot = addr / align;
    lemma_mod_bound(addr, align);
    lemma_fundamental_div_mod(addr, align);
    assert(addr == quot * align + rem) by (nonlinear_arith)
        requires
            addr == align * quot + rem,
    ;
    if rem != 0 {
        assert(addr + (align - rem) == (quot + 1) * align + 0) by (nonlinear_arith)
            requires
                addr == quot * align + rem,
        ;
        lemma_fundamental_div_mod_converse_mod(addr + (align - rem), align, quot + 1, 0);
        assert forall|smaller: int| 0 <= smaller < align - rem implies !is_aligned(
            #[trigger] (addr + smaller),
            align,
        ) by {
            assert(addr + smaller == quot * align + (rem + smaller));
            lemma_fundamental_div_mod_converse_mod(addr + smaller, align, quot, rem + smaller);
        }
    }
}

/// The number of bytes from `addr` up to the next multiple of `align`.
pub fn align_offset(addr: usize, align: usize) -> (offset: usize)
    requires
        align > 0,
    ensures
        offset == spec_align_offset(addr as int, align as int),
{
    let rem: usize = addr % align;
    if rem == 0 {
        0
    } else {
        align - rem
    }
}

} // verus!
