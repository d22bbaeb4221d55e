//! An ownership layer over the reference-counted, chainable buffer segments
//! of a network stack's pool.
//!
//! A segment is shared by everyone who holds a unit of its reference count.
//! This crate turns that into three access modes that exclude one another:
//! [`PbufRef`] (shared, read only), [`PbufMut`] (sole owner, read and write)
//! and [`PbufUninit`] (freshly allocated, write only).
//!
//! The crate decides and the caller acts. Nothing here reaches into the pool
//! or into a segment's memory: a function that needs the pool to do
//! something returns the [`sys::Call`] to make, and a function that needs to
//! know something of the pool takes it as an argument. Payload memory is
//! lent to the functions that fill it as a slice.
//!
//! An allocation runs like this:
//!
//! 1. [`PbufUninit::allocate`] checks the length and returns the call that
//!    asks the pool for a segment.
//! 2. The caller performs the call and hands the answer to
//!    [`PbufUninit::from_alloc`], which refuses a null address.
//! 3. The caller lends the payload to [`PbufUninit::zeroed`] or
//!    [`PbufUninit::copied_from_slice`] and gets a [`PbufMut`].
//!
//! For a payload that has to start on an aligned address,
//! [`PbufUninit::allocate_layout`] takes the place of the first step, and
//! [`PbufUninit::align_payload`] and [`PbufUninit::aligned`] come between
//! the second step and the third.
//!
//! A handle is neither cloned nor dropped behind the pool's back.
//! [`PbufPtr::duplicate`] returns the second handle together with the call
//! that counts it, and [`PbufPtr::release`] turns a handle into the call
//! that gives its count back. A handle that is dropped without `release`
//! keeps its segment alive for good.
use core::ops::{Deref, DerefMut};
use vstd::prelude::*;

pub mod align;
pub mod raw;
pub mod sys;

use align::{align_offset, is_aligned, lemma_align_offset, spec_align_offset};
use raw::{PbufPtr, PbufPtrView};
use sys::Call;

verus! {

/// One segment as its holder sees it: where its payload starts, how many
/// bytes of payload it reports, and where the next segment of its chain is.
/// The length does not include other segments of the chain.
///
/// It is held through a handle ([`PbufPtr`], [`PbufRef`], [`PbufMut`]) and
/// never owns the segment.
#[derive(Debug, Clone, Copy)]
pub struct Pbuf {
    payload: usize,
    len: u16,
    next: usize,
}

/// What a [`Pbuf`] stands for.
pub ghost struct PbufView {
    /// Address of the first payload byte.
    pub payload: usize,
    /// Number of payload bytes in this segment alone.
    pub len: u16,
    /// Address of the next segment of the chain; zero at the chain's end.
    pub next: usize,
}

impl PbufView {
    /// The payload lies within the address space.
    pub open spec fn wf(self) -> bool {
        self.payload + self.len <= usize::MAX
    }
}

impl View for Pbuf {
    type V = PbufView;

    closed spec fn view(&self) -> PbufView {
        PbufView { payload: self.payload, len: self.len, next: self.next }
    }
}

impl Pbuf {
    #[verifier::type_invariant]
    pub(crate) closed spec fn inv(self) -> bool {
        self.payload + self.len <= usize::MAX
    }

    /// Records a segment whose `len` payload bytes start at `payload` and
    /// whose chain goes on at `next` (zero where it ends).
    pub fn new(payload: usize, len: u16, next: usize) -> (pbuf: Self)
        requires
            payload + len <= usize::MAX,
        ensures
            pbuf@ == (PbufView { payload, len, next }),
    {
        Pbuf { payload, len, next }
    }

    /// The length of this segment's payload. Does not include other segments
    /// of the chain.
    pub fn len(&self) -> (len: usize)
        ensures
            len == self@.len,
    {
        self.len.into()
    }

    /// Address of the first payload byte, for reading.
    pub fn bytes_ptr(&self) -> (addr: usize)
        ensures
            addr == self@.payload,
    {
        self.payload
    }

    /// Address of the first payload byte, for writing.
    pub fn bytes_mut_ptr(&mut self) -> (addr: usize)
        ensures
            addr == old(self)@.payload,
            final(self)@ == old(self)@,
    {
        self.payload
    }

    /// Address of the next segment in the chain, if there is one. The
    /// payload of this segment never runs into it: the chain is walked one
    /// hop at a time.
    pub fn next(&self) -> (next: Option<usize>)
        ensures
            next == if self@.next == 0 {
                None
            } else {
                Some(self@.next)
            },
    {
        if self.next == 0 {
            None
        } else {
            Some(self.next)
        }
    }
}

/// A shared reference to a [`Pbuf`]. Reference counted, immutable.
/// See [`PbufMut`] for a uniquely owned, mutable reference.
pub struct PbufRef {
    ptr: PbufPtr,
}

impl View for PbufRef {
    type V = PbufPtrView;

    closed spec fn view(&self) -> PbufPtrView {
        self.ptr@
    }
}

impl PbufRef {
    /// Shared access through `ptr`. Any handle will do.
    pub fn from_ptr(ptr: PbufPtr) -> (shared: Self)
        ensures
            shared@ == ptr@,
    {
        PbufRef { ptr }
    }

    /// Gives the handle back.
    pub fn into_ptr(self) -> (ptr: PbufPtr)
        ensures
            ptr@ == self@,
    {
        self.ptr
    }

    /// A second shared reference to the same segment. The returned call
    /// adds its unit to the segment's reference count.
    pub fn duplicate(&self) -> (made: (Self, Call))
        ensures
            made.0@ == self@,
            made.1 == self@.ref_call(),
    {
        let (ptr, call) = self.ptr.duplicate();
        (PbufRef { ptr }, call)
    }

    /// Gives up the reference. The returned call hands its unit of the
    /// reference count back; the pool frees the segment if it was the last.
    pub fn release(self) -> (call: Call)
        ensures
            call == self@.free_call(),
    {
        self.ptr.release()
    }
}

impl Deref for PbufRef {
    type Target = Pbuf;

    fn deref(&self) -> (pbuf: &Pbuf)
        ensures
            pbuf@ == self@.pbuf,
            self@.wf(),
    {
        self.ptr.deref()
    }
}

/// A uniquely owned reference to a [`Pbuf`], for reading and writing.
///
/// It cannot be duplicated: two of them would be two writers on one unit of
/// the reference count. Give it up with [`PbufMut::into_ptr`] and share the
/// handle instead.
pub struct PbufMut {
    ptr: PbufPtr,
}

impl View for PbufMut {
    type V = PbufPtrView;

    closed spec fn view(&self) -> PbufPtrView {
        self.ptr@
    }
}

impl PbufMut {
    /// Unique access through `ptr`, if `ptr` is the segment's only holder.
    /// `ref_count` is the segment's reference count as the caller has just
    /// read it. If it is exactly one the handle becomes a `PbufMut`;
    /// otherwise the same handle comes back as a [`PbufRef`] in the error
    /// variant, so that the caller can go on read only.
    ///
    /// The count is a snapshot: a holder on another thread that duplicates
    /// the segment while this runs is not seen.
    pub fn try_from_ptr(ptr: PbufPtr, ref_count: u8) -> (access: Result<PbufMut, PbufRef>)
        ensures
            access is Ok <==> ref_count == 1,
            access matches Ok(unique) ==> unique@ == ptr@,
            access matches Err(shared) ==> shared@ == ptr@,
    {
        if ref_count == 1 {
            Ok(PbufMut { ptr })
        } else {
            Err(PbufRef { ptr })
        }
    }

    /// Gives the handle back, and with it the right to write.
    pub fn into_ptr(self) -> (ptr: PbufPtr)
        ensures
            ptr@ == self@,
    {
        self.ptr
    }

    /// Gives up the segment. The returned call hands the unit of the
    /// reference count back, and the pool frees the segment.
    pub fn release(self) -> (call: Call)
        ensures
            call == self@.free_call(),
    {
        self.ptr.release()
    }
}

impl Deref for PbufMut {
    type Target = Pbuf;

    fn deref(&self) -> (pbuf: &Pbuf)
        ensures
            pbuf@ == self@.pbuf,
            self@.wf(),
    {
        self.ptr.deref()
    }
}

impl DerefMut for PbufMut {
    fn deref_mut(&mut self) -> (pbuf: &mut Pbuf)
        ensures
            pbuf@ == old(self)@.pbuf,
            final(self)@ == (PbufPtrView { addr: old(self)@.addr, pbuf: final(pbuf)@ }),
    {
        self.ptr.deref_mut()
    }
}

/// Why an allocation did not happen.
#[derive(Debug, Clone, Copy, PartialEq, Eq, Structural)]
pub enum AllocatePbufError {
    /// A segment's length field is 16 bits wide; the requested payload
    /// length does not fit.
    LengthLargerThanU16,
    /// The pool handed back no segment.
    AllocationFailed,
}

/// A freshly allocated segment whose payload has not been written yet.
///
/// It can be written, not read. It comes from the allocator alone
/// ([`PbufUninit::allocate`] or [`PbufUninit::allocate_layout`], then
/// [`PbufUninit::from_alloc`]) and goes one way only: once its payload is
/// filled it becomes a [`PbufMut`].
pub struct PbufUninit {
    ptr: PbufPtr,
}

impl View for PbufUninit {
    type V = PbufPtrView;

    closed spec fn view(&self) -> PbufPtrView {
        self.ptr@
    }
}

/// A payload of `len` zero bytes.
pub open spec fn zeros(len: nat) -> Seq<u8> {
    Seq::new(len, |i: int| 0u8)
}

impl PbufUninit {
    /// What [`PbufUninit::allocate`] returns.
    pub open spec fn spec_allocate(layer: u32, type_: u32, length: usize) -> Result<
        Call,
        AllocatePbufError,
    > {
        if length <= u16::MAX {
            Ok(Call::Alloc { layer, length: length as u16, type_ })
        } else {
            Err(AllocatePbufError::LengthLargerThanU16)
        }
    }

    /// What [`PbufUninit::from_alloc`] makes of the pool's answer.
    pub open spec fn spec_from_alloc(addr: usize, pbuf: PbufView) -> Result<
        PbufPtrView,
        AllocatePbufError,
    > {
        if addr == 0 {
            Err(AllocatePbufError::AllocationFailed)
        } else {
            Ok(PbufPtrView { addr, pbuf })
        }
    }

    /// What [`PbufUninit::allocate_layout`] returns.
    pub open spec fn spec_allocate_layout(
        layer: u32,
        type_: u32,
        size: usize,
        align: usize,
    ) -> Result<Call, AllocatePbufError> {
        if size + align <= u16::MAX {
            Ok(Call::Alloc { layer, length: (size + align) as u16, type_ })
        } else {
            Err(AllocatePbufError::LengthLargerThanU16)
        }
    }

    /// Whether `padded` has room for `size` payload bytes behind the bytes
    /// that are skipped to reach a multiple of `align`.
    pub open spec fn spec_has_room(padded: PbufPtrView, size: usize, align: usize) -> bool {
        spec_align_offset(padded.pbuf.payload as int, align as int) + size <= padded.pbuf.len
    }

    /// The segment `padded` once its payload start has moved up to the next
    /// multiple of `align` and its length has shrunk to `size`.
    pub open spec fn spec_aligned(padded: PbufPtrView, size: usize, align: usize) -> PbufPtrView {
        PbufPtrView {
            addr: padded.addr,
            pbuf: PbufView {
                payload: (padded.pbuf.payload + spec_align_offset(
                    padded.pbuf.payload as int,
                    align as int,
                )) as usize,
                len: size as u16,
                next: padded.pbuf.next,
            },
        }
    }

    /// What [`PbufUninit::zeroed`] gives: the view of the unique access, and
    /// the payload as it is left.
    pub open spec fn spec_zeroed(uninit: PbufPtrView) -> (PbufPtrView, Seq<u8>) {
        (uninit, zeros(uninit.pbuf.len as nat))
    }

    /// First step of an allocation: checks that `length` fits a segment's
    /// 16-bit length field and returns the call that asks the pool for a
    /// segment of that length. A length that does not fit is refused here,
    /// and the pool is not asked.
    ///
    /// Hand the pool's answer to [`PbufUninit::from_alloc`].
    pub fn allocate(layer: u32, type_: u32, length: usize) -> (call: Result<
        Call,
        AllocatePbufError,
    >)
        ensures
            call == Self::spec_allocate(layer, type_, length),
            length > u16::MAX <==> call == Err::<Call, _>(AllocatePbufError::LengthLargerThanU16),
    {
        if length <= 0xffff {
            Ok(Call::Alloc { layer, length: length as u16, type_ })
        } else {
            Err(AllocatePbufError::LengthLargerThanU16)
        }
    }

    /// Second step of an allocation: takes what the pool answered. `addr` is
    /// the address the pool returned, null where it had no memory, and
    /// `pbuf` is the new segment as read at that address (anything, where
    /// `addr` is null). The unit of the reference count that a new segment
    /// comes with becomes the allocation's own.
    pub fn from_alloc(addr: usize, pbuf: Pbuf) -> (alloc: Result<PbufUninit, AllocatePbufError>)
        ensures
            addr == 0 <==> alloc == Err::<PbufUninit, _>(AllocatePbufError::AllocationFailed),
            match alloc {
                Ok(uninit) => Self::spec_from_alloc(addr, pbuf@) == Ok::<_, AllocatePbufError>(
                    uninit@,
                ),
                Err(error) => Self::spec_from_alloc(addr, pbuf@) == Err::<PbufPtrView, _>(error),
            },
    {
        if addr == 0 {
            Err(AllocatePbufError::AllocationFailed)
        } else {
            Ok(PbufUninit { ptr: PbufPtr::new(addr, pbuf) })
        }
    }

    /// Like [`PbufUninit::allocate`], for a payload of `size` bytes that is to
    /// start on a multiple of `align`. Wherever the pool places the segment,
    /// fewer than `align` bytes have to be skipped to reach such an address,
    /// so the call asks for `size + align` bytes.
    ///
    /// Hand the pool's answer to [`PbufUninit::from_alloc`], then move the
    /// payload into place with [`PbufUninit::align_payload`] and
    /// [`PbufUninit::aligned`].
    pub fn allocate_layout(layer: u32, type_: u32, size: usize, align: usize) -> (call: Result<
        Call,
        AllocatePbufError,
    >)
        ensures
            call == Self::spec_allocate_layout(layer, type_, size, align),
            size + align > u16::MAX <==> call == Err::<Call, _>(
                AllocatePbufError::LengthLargerThanU16,
            ),
    {
        if size > 0xffff || align > 0xffff {
            Err(AllocatePbufError::LengthLargerThanU16)
        } else {
            Self::allocate(layer, type_, size + align)
        }
    }

    /// The call that moves the payload start of this padded allocation up to
    /// the next multiple of `align`, in place.
    ///
    /// Hand the status that the pool answers with to
    /// [`PbufUninit::aligned`].
    pub fn align_payload(&self, align: usize) -> (call: Call)
        requires
            align > 0,
        ensures
            call == (Call::RemoveHeader {
                pbuf: self@.addr,
                header_size: spec_align_offset(self@.pbuf.payload as int, align as int) as usize,
            }),
    {
        let adjust: usize = align_offset(self.ptr.bytes_ptr(), align);
        proof {
            lemma_align_offset(self@.pbuf.payload as int, align as int);
        }
        Call::RemoveHeader { pbuf: PbufPtr::as_ptr(&self.ptr), header_size: adjust }
    }

    /// Whether this padded allocation has room for `size` payload bytes
    /// behind the bytes that are skipped to reach a multiple of `align`.
    pub fn has_room(&self, size: usize, align: usize) -> (room: bool)
        requires
            align > 0,
        ensures
            room == Self::spec_has_room(self@, size, align),
    {
        let adjust: usize = align_offset(self.ptr.bytes_ptr(), align);
        let len: usize = self.ptr.len();
        adjust <= len && size <= len - adjust
    }

    /// Last step of an aligned allocation. `status` is what the pool
    /// answered to the call of [`PbufUninit::align_payload`]. The payload
    /// now starts on a multiple of `align`; the returned call shrinks the
    /// segment's length to `size`, which the pool does without reallocating.
    ///
    /// An allocation that was padded by [`PbufUninit::allocate_layout`] has
    /// room for the move, and the pool's status is zero. Anything else is a
    /// broken invariant, not an outcome to handle: it is left to the caller
    /// to stop on it.
    #[allow(unused_variables)]
    pub fn aligned(self, size: usize, align: usize, status: u8) -> (done: (PbufUninit, Call))
        requires
            align > 0,
            status == 0,
            Self::spec_has_room(self@, size, align),
        ensures
            done.0@ == Self::spec_aligned(self@, size, align),
            done.1 == (Call::Realloc { pbuf: self@.addr, new_len: size as u16 }),
            is_aligned(done.0@.pbuf.payload as int, align as int),
            done.0@.pbuf.len == size,
            self@.pbuf.payload <= done.0@.pbuf.payload < self@.pbuf.payload + align,
            done.0@.pbuf.payload + size <= self@.pbuf.payload + self@.pbuf.len,
    {
        let seen: &Pbuf = self.ptr.deref();
        let payload: usize = seen.bytes_ptr();
        let next: usize = match seen.next() {
            Some(next) => next,
            None => 0,
        };
        let adjust: usize = align_offset(payload, align);
        proof {
            lemma_align_offset(payload as int, align as int);
            use_type_invariant(seen);
        }
        let addr: usize = PbufPtr::into_raw(self.ptr);
        let pbuf = Pbuf::new(payload + adjust, size as u16, next);
        (PbufUninit { ptr: PbufPtr::new(addr, pbuf) }, Call::Realloc { pbuf: addr, new_len: size as u16 })
    }

    /// Fills the payload with zero bytes and hands the segment over for
    /// reading and writing. `payload` is the segment's payload memory.
    pub fn zeroed(self, payload: &mut [u8]) -> (init: PbufMut)
        requires
            old(payload)@.len() == self@.pbuf.len,
        ensures
            (init@, final(payload)@) == Self::spec_zeroed(self@),
    {
        let len: usize = self.ptr.len();
        let mut done: usize = 0;
        while done < len
            invariant
                len == payload@.len(),
                done <= len,
                forall|i: int| 0 <= i < done ==> payload@[i] == 0u8,
            decreases len - done,
        {
            payload[done] = 0;
            done += 1;
        }
        assert(payload@ =~= zeros(len as nat));
        self.assume_init()
    }

    /// The length of the payload to fill.
    pub fn len(&self) -> (len: usize)
        ensures
            len == self@.pbuf.len,
            self@.wf(),
    {
        self.ptr.len()
    }

    /// Fills the payload with a copy of `slice` and hands the segment over
    /// for reading and writing. `payload` is the segment's payload memory.
    /// `slice` has to be exactly as long as the payload: nothing is cut off
    /// and nothing is padded.
    pub fn copied_from_slice(self, payload: &mut [u8], slice: &[u8]) -> (init: PbufMut)
        requires
            slice@.len() == self@.pbuf.len,
            old(payload)@.len() == self@.pbuf.len,
        ensures
            init@ == self@,
            final(payload)@ == slice@,
    {
        let len: usize = self.len();
        let mut done: usize = 0;
        while done < len
            invariant
                len == payload@.len(),
                len == slice@.len(),
                done <= len,
                forall|i: int| 0 <= i < done ==> payload@[i] == slice@[i],
            decreases len - done,
        {
            payload[done] = slice[done];
            done += 1;
        }
        self.assume_init()
    }

    /// Address of the first payload byte, for writing.
    pub fn bytes_mut_ptr(&mut self) -> (addr: usize)
        ensures
            addr == old(self)@.pbuf.payload,
            final(self)@ == old(self)@,
    {
        self.ptr.bytes_mut_ptr()
    }

    /// Hands the segment over for reading and writing without filling its
    /// payload. This is for a caller that knows the payload to be written
    /// already, by the pool or by other means: whoever reads the payload
    /// afterwards reads what is there.
    pub fn assume_init(self) -> (init: PbufMut)
        ensures
            init@ == self@,
    {
        PbufMut { ptr: self.ptr }
    }

    /// Gives up the allocation unwritten. The returned call hands the unit
    /// of the reference count back, and the pool frees the segment.
    pub fn release(self) -> (call: Call)
        ensures
            call == self@.free_call(),
    {
        self.ptr.release()
    }
}

/// A length that fits the length field is asked of the pool as it is. Where
/// the pool grants a segment of that length, the allocation has that length,
/// and zero filling it gives unique access to the same segment and leaves
/// that many bytes of payload, all zero.
pub proof fn lemma_allocate_zeroed(
    layer: u32,
    type_: u32,
    length: usize,
    addr: usize,
    pbuf: PbufView,
)
    requires
        length <= u16::MAX,
        addr != 0,
        pbuf.len == length,
    ensures
        PbufUninit::spec_allocate(layer, type_, length) == Ok::<_, AllocatePbufError>(
            Call::Alloc { layer, length: length as u16, type_ },
        ),
        PbufUninit::spec_from_alloc(addr, pbuf) matches Ok(uninit) && {
            let (unique, payload) = PbufUninit::spec_zeroed(uninit);
            &&& uninit.pbuf.len == length
            &&& unique.addr == addr
            &&& unique.pbuf.len == length
            &&& payload.len() == length
            &&& forall|i: int| 0 <= i < length ==> payload[i] == 0u8
        },
{
}

/// An aligned allocation that fits the length field asks the pool for
/// `size + align` bytes. Where the pool grants a segment of that length,
/// wherever its payload starts, the allocation has room for the move, and
/// after it the payload starts on a multiple of `align`, within the payload
/// that the pool granted, and is exactly `size` bytes long.
pub proof fn lemma_allocate_layout_aligned(
    layer: u32,
    type_: u32,
    size: usize,
    align: usize,
    addr: usize,
    pbuf: PbufView,
)
    requires
        align > 0,
        size + align <= u16::MAX,
        addr != 0,
        pbuf.wf(),
        pbuf.len == size + align,
    ensures
        PbufUninit::spec_allocate_layout(layer, type_, size, align) == Ok::<_, AllocatePbufError>(
            Call::Alloc { layer, length: (size + align) as u16, type_ },
        ),
        PbufUninit::spec_from_alloc(addr, pbuf) matches Ok(padded) && {
            let aligned = PbufUninit::spec_aligned(padded, size, align);
            &&& PbufUninit::spec_has_room(padded, size, align)
            &&& aligned.addr == addr
            &&& is_aligned(aligned.pbuf.payload as int, align as int)
            &&& aligned.pbuf.len == size
            &&& pbuf.payload <= aligned.pbuf.payload
            &&& aligned.pbuf.payload + aligned.pbuf.len <= pbuf.payload + pbuf.len
            &&& aligned.pbuf.wf()
        },
{
    lemma_align_offset(pbuf.payload as int, align as int);
}

} // verus!
