//! The owning handle on one segment.
use core::ops::{Deref, DerefMut};
use vstd::prelude::*;

use crate::sys::Call;
use crate::{Pbuf, PbufView};

verus! {

/// An owned handle on one segment of the pool. Each live handle stands for
/// exactly one unit of the segment's reference count.
///
/// The handle keeps the segment's address and what was read of the segment
/// when the handle was made. It is neither `Clone` nor `Copy`: a second
/// handle comes from [`PbufPtr::duplicate`], which asks the pool for a unit
/// of its own, and a handle is given up with [`PbufPtr::release`], which
/// hands its unit back. This is the building block for
/// [`PbufRef`](crate::PbufRef) and [`PbufMut`](crate::PbufMut).
pub struct PbufPtr {
    addr: Address,
    pbuf: Pbuf,
}

/// The address of a segment: never null.
struct Address {
    value: usize,
}

impl Address {
    #[verifier::type_invariant]
    spec fn inv(self) -> bool {
        self.value != 0
    }

    fn new(value: usize) -> (addr: Self)
        requires
            value != 0,
        ensures
            addr.value == value,
    {
        Address { value }
    }

    fn get(&self) -> (value: usize)
        ensures
            value == self.value,
            value != 0,
    {
        proof {
            use_type_invariant(self);
        }
        self.value
    }
}

/// What a [`PbufPtr`] stands for: the address of its segment, and the
/// segment as the handle sees it.
pub ghost struct PbufPtrView {
    pub addr: usize,
    pub pbuf: PbufView,
}

impl View for PbufPtr {
    type V = PbufPtrView;

    closed spec fn view(&self) -> PbufPtrView {
        PbufPtrView { addr: self.addr.value, pbuf: self.pbuf@ }
    }
}

impl PbufPtrView {
    /// A handle's address is never null, and the segment it sees is a valid
    /// one.
    pub open spec fn wf(self) -> bool {
        self.addr != 0 && self.pbuf.wf()
    }

    /// The call that adds a unit to this segment's reference count.
    pub open spec fn ref_call(self) -> Call {
        Call::Ref { pbuf: self.addr }
    }

    /// The call that hands a unit of this segment's reference count back.
    pub open spec fn free_call(self) -> Call {
        Call::Free { pbuf: self.addr }
    }
}

impl PbufPtr {
    /// Takes ownership of the segment at `addr`, seen as `pbuf`. The unit of
    /// the reference count that the handle stands for is one that the caller
    /// already holds and gives up: the count is not adjusted.
    pub fn new(addr: usize, pbuf: Pbuf) -> (ptr: Self)
        requires
            addr != 0,
        ensures
            ptr@ == (PbufPtrView { addr, pbuf: pbuf@ }),
    {
        PbufPtr { addr: Address::new(addr), pbuf }
    }

    /// Makes a new handle on the segment at `addr`, seen as `pbuf`, beside
    /// whoever holds it already. The handle needs a unit of its own: the
    /// returned call adds one to the segment's reference count.
    pub fn new_ref(addr: usize, pbuf: Pbuf) -> (made: (Self, Call))
        requires
            addr != 0,
        ensures
            made.0@ == (PbufPtrView { addr, pbuf: pbuf@ }),
            made.1 == made.0@.ref_call(),
    {
        (PbufPtr { addr: Address::new(addr), pbuf }, Call::Ref { pbuf: addr })
    }

    /// Gives up the handle and returns the segment's address. The unit of
    /// the reference count passes to the caller: the count is not adjusted.
    pub fn into_raw(pbuf: Self) -> (addr: usize)
        ensures
            addr == pbuf@.addr,
            addr != 0,
    {
        pbuf.addr.get()
    }

    /// The segment's address, for a call on the pool that reads the segment.
    /// It is good for as long as the handle lives.
    pub fn as_ptr(pbuf: &Self) -> (addr: usize)
        ensures
            addr == pbuf@.addr,
            addr != 0,
    {
        pbuf.addr.get()
    }

    /// The segment's address, for a call on the pool that changes the
    /// segment. It is good for as long as the handle lives.
    pub fn as_mut_ptr(pbuf: &Self) -> (addr: usize)
        ensures
            addr == pbuf@.addr,
            addr != 0,
    {
        pbuf.addr.get()
    }

    /// A second handle on the same segment. The returned call adds the new
    /// handle's unit to the segment's reference count.
    pub fn duplicate(&self) -> (made: (Self, Call))
        ensures
            made.0@ == self@,
            made.1 == self@.ref_call(),
    {
        let addr: usize = self.addr.get();
        (PbufPtr { addr: Address::new(addr), pbuf: self.pbuf }, Call::Ref { pbuf: addr })
    }

    /// Gives up the handle. The returned call hands the handle's unit of the
    /// reference count back; the pool frees the segment if it was the last.
    pub fn release(self) -> (call: Call)
        ensures
            call == self@.free_call(),
    {
        Call::Free { pbuf: self.addr.get() }
    }
}

impl Deref for PbufPtr {
    type Target = Pbuf;

    fn deref(&self) -> (pbuf: &Pbuf)
        ensures
            pbuf@ == self@.pbuf,
            self@.wf(),
    {
        proof {
            use_type_invariant(&self.addr);
            use_type_invariant(&self.pbuf);
        }
        &self.pbuf
    }
}

impl DerefMut for PbufPtr {
    fn deref_mut(&mut self) -> (pbuf: &mut Pbuf)
        ensures
            pbuf@ == old(self)@.pbuf,
            final(self)@ == (PbufPtrView { addr: old(self)@.addr, pbuf: final(pbuf)@ }),
    {
        &mut self.pbuf
    }
}

/// Duplicating a handle adds exactly one to its segment's reference count,
/// releasing a handle takes exactly one away, and neither touches the count
/// of any other segment. So a duplicate that is released again leaves every
/// count as it was.
pub proof fn lemma_duplicate_release_counts(ptr: PbufPtrView, other: usize, count: int)
    requires
        other != ptr.addr,
    ensures
        ptr.ref_call().ref_count_after(ptr.addr, count) == count + 1,
        ptr.free_call().ref_count_after(ptr.addr, count) == count - 1,
        ptr.free_call().ref_count_after(ptr.addr, ptr.ref_call().ref_count_after(ptr.addr, count))
            == count,
        ptr.ref_call().ref_count_after(other, count) == count,
        ptr.free_call().ref_count_after(other, count) == count,
{
}

/// Releasing a handle frees its segment exactly when the handle held the
/// last unit of the reference count.
pub proof fn lemma_release_frees_last(ptr: PbufPtrView, count: int)
    ensures
        ptr.free_call().frees(ptr.addr, count) <==> count == 1,
        ptr.free_call().frees(ptr.addr, count) <==> ptr.free_call().ref_count_after(
            ptr.addr,
            count,
        ) == 0,
        !ptr.ref_call().frees(ptr.addr, count),
{
}

} // verus!
