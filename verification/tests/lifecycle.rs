use pbuf::raw::PbufPtr;
use pbuf::sys::Call;
use pbuf::{AllocatePbufError, Pbuf, PbufMut, PbufRef, PbufUninit};

/// One segment of the stand-in pool.
struct Segment {
    header: usize,
    payload: usize,
    len: u16,
    refs: u8,
    memory: Vec<u8>,
    skipped: usize,
    live: bool,
}

/// A stand-in for the buffer pool that counts what it is asked to do.
struct Pool {
    segments: Vec<Segment>,
    next_header: usize,
    next_payload: usize,
    exhausted: bool,
    alloc_calls: usize,
    ref_calls: usize,
    free_calls: usize,
    segments_freed: usize,
    touched_after_free: usize,
}

impl Pool {
    fn new() -> Pool {
        Pool {
            segments: Vec::new(),
            next_header: 0x2000_0000,
            next_payload: 0x3000_0003,
            exhausted: false,
            alloc_calls: 0,
            ref_calls: 0,
            free_calls: 0,
            segments_freed: 0,
            touched_after_free: 0,
        }
    }

    fn find(&mut self, header: usize) -> &mut Segment {
        let at = self
            .segments
            .iter()
            .position(|segment| segment.header == header)
            .expect("a call names a segment that was never allocated");
        if !self.segments[at].live {
            self.touched_after_free += 1;
        }
        &mut self.segments[at]
    }

    /// Performs `call`; returns the address for an allocation and the status
    /// for a header removal, zero otherwise.
    fn perform(&mut self, call: Call) -> usize {
        match call {
            Call::Alloc { length, .. } => {
                self.alloc_calls += 1;
                if self.exhausted {
                    return 0;
                }
                let header = self.next_header;
                let payload = self.next_payload;
                self.next_header += 0x100;
                self.next_payload += 0x2_0000;
                self.segments.push(Segment {
                    header,
                    payload,
                    len: length,
                    refs: 1,
                    memory: vec![0xAA; length as usize],
                    skipped: 0,
                    live: true,
                });
                header
            }
            Call::Ref { pbuf } => {
                self.ref_calls += 1;
                self.find(pbuf).refs += 1;
                0
            }
            Call::Free { pbuf } => {
                self.free_calls += 1;
                let segment = self.find(pbuf);
                segment.refs -= 1;
                if segment.refs == 0 {
                    segment.live = false;
                    self.segments_freed += 1;
                }
                0
            }
            Call::RemoveHeader { pbuf, header_size } => {
                let segment = self.find(pbuf);
                if header_size > segment.len as usize {
                    return 1;
                }
                segment.payload += header_size;
                segment.skipped += header_size;
                segment.len -= header_size as u16;
                0
            }
            Call::Realloc { pbuf, new_len } => {
                let segment = self.find(pbuf);
                if new_len < segment.len {
                    segment.len = new_len;
                }
                0
            }
        }
    }

    fn seen(&mut self, header: usize) -> Pbuf {
        if header == 0 {
            return Pbuf::new(0, 0, 0);
        }
        let segment = self.find(header);
        Pbuf::new(segment.payload, segment.len, 0)
    }

    fn refs(&mut self, header: usize) -> u8 {
        self.find(header).refs
    }

    fn payload(&mut self, header: usize) -> &mut [u8] {
        let segment = self.find(header);
        let from = segment.skipped;
        let to = from + segment.len as usize;
        &mut segment.memory[from..to]
    }

    fn allocate(&mut self, length: usize) -> Result<PbufUninit, AllocatePbufError> {
        let call = PbufUninit::allocate(1, 2, length)?;
        let header = self.perform(call);
        let seen = self.seen(header);
        PbufUninit::from_alloc(header, seen)
    }
}

#[test]
fn allocate_zeroed_then_shared_then_freed_once() {
    let mut pool = Pool::new();

    let uninit = pool.allocate(64).expect("the pool has memory");
    assert_eq!(uninit.len(), 64);
    let header = 0x2000_0000;
    assert!(pool.payload(header).iter().all(|byte| *byte == 0xAA));

    let unique: PbufMut = uninit.zeroed(pool.payload(header));
    assert_eq!(unique.len(), 64);
    assert_eq!(pool.payload(header).len(), 64);
    assert!(pool.payload(header).iter().all(|byte| *byte == 0));
    assert_eq!(pool.refs(header), 1);

    let first = PbufRef::from_ptr(unique.into_ptr());
    let (second, call) = first.duplicate();
    assert_eq!(call, Call::Ref { pbuf: header });
    pool.perform(call);
    assert_eq!(pool.refs(header), 2);

    let count = pool.refs(header);
    let first = match PbufMut::try_from_ptr(first.into_ptr(), count) {
        Ok(_) => panic!("a segment with two holders was handed out for writing"),
        Err(shared) => shared,
    };
    assert_eq!(first.len(), 64);
    assert_eq!(PbufPtr::as_ptr(&first.into_ptr()), header);

    let first = PbufRef::from_ptr(PbufPtr::new(header, pool.seen(header)));
    let call = first.into_ptr().release();
    assert_eq!(call, Call::Free { pbuf: header });
    pool.perform(call);
    assert_eq!(pool.refs(header), 1);
    assert_eq!(pool.segments_freed, 0);

    let call = second.into_ptr().release();
    assert_eq!(call, Call::Free { pbuf: header });
    pool.perform(call);

    assert_eq!(pool.alloc_calls, 1);
    assert_eq!(pool.ref_calls, 1);
    assert_eq!(pool.free_calls, 2);
    assert_eq!(pool.segments_freed, 1);
    assert_eq!(pool.touched_after_free, 0);
}

#[test]
fn allocate_then_zeroed_has_requested_length_and_zero_bytes() {
    for length in [0usize, 1, 2, 63, 64, 1500, 65534, 65535] {
        let mut pool = Pool::new();
        let uninit = pool.allocate(length).expect("the pool has memory");
        assert_eq!(uninit.len(), length);
        let header = 0x2000_0000;
        let unique = uninit.zeroed(pool.payload(header));
        assert_eq!(unique.len(), length);
        assert_eq!(pool.payload(header).len(), length);
        assert!(pool.payload(header).iter().all(|byte| *byte == 0));
    }
}

#[test]
fn allocate_asks_for_the_length_as_it_is() {
    assert_eq!(
        PbufUninit::allocate(7, 9, 0),
        Ok(Call::Alloc { layer: 7, length: 0, type_: 9 })
    );
    assert_eq!(
        PbufUninit::allocate(7, 9, 1500),
        Ok(Call::Alloc { layer: 7, length: 1500, type_: 9 })
    );
    assert_eq!(
        PbufUninit::allocate(0, 0x280, 65535),
        Ok(Call::Alloc { layer: 0, length: 65535, type_: 0x280 })
    );
}

#[test]
fn allocate_refuses_a_length_beyond_sixteen_bits() {
    for length in [65536usize, 65537, 100_000, usize::MAX / 2, usize::MAX] {
        assert_eq!(
            PbufUninit::allocate(1, 2, length),
            Err(AllocatePbufError::LengthLargerThanU16)
        );
    }
}

#[test]
fn allocate_beyond_sixteen_bits_never_reaches_the_pool() {
    let mut pool = Pool::new();
    let refused = pool.allocate(65536);
    assert!(matches!(refused, Err(AllocatePbufError::LengthLargerThanU16)));
    assert_eq!(pool.alloc_calls, 0);
    assert!(pool.segments.is_empty());
}

#[test]
fn exhausted_pool_gives_allocation_failed() {
    let mut pool = Pool::new();
    pool.exhausted = true;
    let refused = pool.allocate(64);
    assert!(matches!(refused, Err(AllocatePbufError::AllocationFailed)));
    assert_eq!(pool.alloc_calls, 1);
}

#[test]
fn from_alloc_null_is_allocation_failed_whatever_was_seen() {
    let refused = PbufUninit::from_alloc(0, Pbuf::new(0x1000, 64, 0));
    assert!(matches!(refused, Err(AllocatePbufError::AllocationFailed)));
    let refused = PbufUninit::from_alloc(0, Pbuf::new(0, 0, 0));
    assert!(matches!(refused, Err(AllocatePbufError::AllocationFailed)));
}

#[test]
fn from_alloc_keeps_what_the_pool_granted() {
    let mut uninit = PbufUninit::from_alloc(0x2000_0000, Pbuf::new(0x3000_0010, 128, 0))
        .expect("a segment was granted");
    assert_eq!(uninit.len(), 128);
    assert_eq!(uninit.bytes_mut_ptr(), 0x3000_0010);
    let unique = uninit.assume_init();
    let ptr = unique.into_ptr();
    assert_eq!(PbufPtr::as_ptr(&ptr), 0x2000_0000);
    assert_eq!(PbufPtr::into_raw(ptr), 0x2000_0000);
}

#[test]
fn duplicate_adds_one_and_release_takes_one() {
    let mut pool = Pool::new();
    let uninit = pool.allocate(16).expect("the pool has memory");
    let header = 0x2000_0000;
    let shared = PbufRef::from_ptr(uninit.zeroed(pool.payload(header)).into_ptr());
    assert_eq!(pool.refs(header), 1);

    let mut copies = Vec::new();
    for expected in 2u8..=5 {
        let (copy, call) = shared.duplicate();
        assert_eq!(call, Call::Ref { pbuf: header });
        pool.perform(call);
        assert_eq!(pool.refs(header), expected);
        copies.push(copy);
    }
    for expected in (1u8..=4).rev() {
        let copy = copies.pop().expect("a copy is left");
        let call = copy.into_ptr().release();
        assert_eq!(call, Call::Free { pbuf: header });
        pool.perform(call);
        assert_eq!(pool.refs(header), expected);
        assert_eq!(pool.segments_freed, 0);
    }
    pool.perform(shared.into_ptr().release());
    assert_eq!(pool.segments_freed, 1);
    assert_eq!(pool.ref_calls, 4);
    assert_eq!(pool.free_calls, 5);
    assert_eq!(pool.touched_after_free, 0);
}

#[test]
fn handle_duplicate_sees_the_same_segment() {
    let ptr = PbufPtr::new(0x2000_0100, Pbuf::new(0x3000_0000, 40, 0x2000_0200));
    let (copy, call) = ptr.duplicate();
    assert_eq!(call, Call::Ref { pbuf: 0x2000_0100 });
    assert_eq!(PbufPtr::as_ptr(&copy), 0x2000_0100);
    assert_eq!(PbufPtr::as_mut_ptr(&copy), 0x2000_0100);
    assert_eq!(copy.len(), 40);
    assert_eq!(copy.bytes_ptr(), 0x3000_0000);
    assert_eq!(copy.next(), Some(0x2000_0200));
    assert_eq!(ptr.len(), 40);
    assert_eq!(ptr.release(), Call::Free { pbuf: 0x2000_0100 });
    assert_eq!(copy.release(), Call::Free { pbuf: 0x2000_0100 });
}

#[test]
fn new_takes_over_a_unit_and_new_ref_asks_for_one() {
    let taken = PbufPtr::new(0x2000_0000, Pbuf::new(0x3000_0000, 8, 0));
    assert_eq!(PbufPtr::into_raw(taken), 0x2000_0000);

    let (added, call) = PbufPtr::new_ref(0x2000_0000, Pbuf::new(0x3000_0000, 8, 0));
    assert_eq!(call, Call::Ref { pbuf: 0x2000_0000 });
    assert_eq!(added.len(), 8);
    assert_eq!(PbufPtr::into_raw(added), 0x2000_0000);
}

#[test]
fn sole_holder_gets_unique_access() {
    let ptr = PbufPtr::new(0x2000_0000, Pbuf::new(0x3000_0000, 8, 0));
    match PbufMut::try_from_ptr(ptr, 1) {
        Ok(mut unique) => {
            assert_eq!(unique.len(), 8);
            assert_eq!(unique.bytes_ptr(), 0x3000_0000);
            assert_eq!(unique.bytes_mut_ptr(), 0x3000_0000);
            assert_eq!(PbufPtr::into_raw(unique.into_ptr()), 0x2000_0000);
        }
        Err(_) => panic!("the only holder was refused unique access"),
    }
}

#[test]
fn any_other_count_gets_shared_access() {
    for count in [0u8, 2, 3, 17, 254, 255] {
        let ptr = PbufPtr::new(0x2000_0000, Pbuf::new(0x3000_0000, 8, 0));
        match PbufMut::try_from_ptr(ptr, count) {
            Ok(_) => panic!("unique access with a reference count of {}", count),
            Err(shared) => {
                assert_eq!(shared.len(), 8);
                assert_eq!(shared.bytes_ptr(), 0x3000_0000);
                assert_eq!(PbufPtr::into_raw(shared.into_ptr()), 0x2000_0000);
            }
        }
    }
}

#[test]
fn copied_from_slice_fills_the_payload() {
    let mut pool = Pool::new();
    let uninit = pool.allocate(5).expect("the pool has memory");
    let header = 0x2000_0000;
    let unique = uninit.copied_from_slice(pool.payload(header), &[1, 2, 3, 4, 5]);
    assert_eq!(unique.len(), 5);
    assert_eq!(pool.payload(header), &[1, 2, 3, 4, 5]);
}

#[test]
fn copied_from_empty_slice_fills_an_empty_payload() {
    let mut pool = Pool::new();
    let uninit = pool.allocate(0).expect("the pool has memory");
    let header = 0x2000_0000;
    let unique = uninit.copied_from_slice(pool.payload(header), &[]);
    assert_eq!(unique.len(), 0);
    assert!(pool.payload(header).is_empty());
}

#[test]
fn view_reports_length_payload_and_chain() {
    let mut last = Pbuf::new(0x3000_0040, 12, 0);
    assert_eq!(last.len(), 12);
    assert_eq!(last.bytes_ptr(), 0x3000_0040);
    assert_eq!(last.bytes_mut_ptr(), 0x3000_0040);
    assert_eq!(last.next(), None);

    let first = Pbuf::new(0x3000_0000, 64, 0x2000_0100);
    assert_eq!(first.len(), 64);
    assert_eq!(first.next(), Some(0x2000_0100));

    let widest = Pbuf::new(usize::MAX - 65535, 65535, 0);
    assert_eq!(widest.len(), 65535);
}

#[test]
fn shared_access_reads_through_to_the_view() {
    let shared = PbufRef::from_ptr(PbufPtr::new(0x2000_0000, Pbuf::new(0x3000_0000, 32, 0x2000_0100)));
    assert_eq!(shared.len(), 32);
    assert_eq!(shared.bytes_ptr(), 0x3000_0000);
    assert_eq!(shared.next(), Some(0x2000_0100));
}

#[test]
fn every_access_mode_is_given_up_with_one_free() {
    let shared = PbufRef::from_ptr(PbufPtr::new(0x2000_0000, Pbuf::new(0x3000_0000, 8, 0)));
    assert_eq!(shared.release(), Call::Free { pbuf: 0x2000_0000 });

    let unique = match PbufMut::try_from_ptr(PbufPtr::new(0x2000_0100, Pbuf::new(0x3000_0100, 8, 0)), 1) {
        Ok(unique) => unique,
        Err(_) => panic!("the only holder was refused unique access"),
    };
    assert_eq!(unique.release(), Call::Free { pbuf: 0x2000_0100 });

    let uninit = PbufUninit::from_alloc(0x2000_0200, Pbuf::new(0x3000_0200, 8, 0))
        .expect("a segment was granted");
    assert_eq!(uninit.release(), Call::Free { pbuf: 0x2000_0200 });
}

#[test]
fn abandoned_allocation_is_freed() {
    let mut pool = Pool::new();
    let uninit = pool.allocate(32).expect("the pool has memory");
    pool.perform(uninit.release());
    assert_eq!(pool.free_calls, 1);
    assert_eq!(pool.segments_freed, 1);
    assert_eq!(pool.touched_after_free, 0);
}

#[test]
fn mutable_view_is_the_same_segment() {
    let mut ptr = PbufPtr::new(0x2000_0000, Pbuf::new(0x3000_0000, 8, 0x2000_0100));
    {
        let view: &mut Pbuf = &mut ptr;
        assert_eq!(view.bytes_mut_ptr(), 0x3000_0000);
        assert_eq!(view.len(), 8);
    }
    assert_eq!(ptr.len(), 8);
    assert_eq!(ptr.bytes_ptr(), 0x3000_0000);
    assert_eq!(ptr.next(), Some(0x2000_0100));

    let mut unique = match PbufMut::try_from_ptr(ptr, 1) {
        Ok(unique) => unique,
        Err(_) => panic!("the only holder was refused unique access"),
    };
    {
        let view: &mut Pbuf = &mut unique;
        assert_eq!(view.bytes_mut_ptr(), 0x3000_0000);
    }
    assert_eq!(unique.len(), 8);
    assert_eq!(PbufPtr::into_raw(unique.into_ptr()), 0x2000_0000);
}
