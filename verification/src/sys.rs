//! The vocabulary shared with the network stack's buffer pool.
//!
//! This crate never touches the pool itself. Every operation that needs the
//! pool to act hands back a [`Call`]; the caller performs it on the pool and
//! reports what came of it. What each call does to a segment's reference
//! count is written down here once, so that the contracts of the ownership
//! types can speak of it.
use vstd::prelude::*;

verus! {

/// One request to the buffer pool. It is an obligation: the bookkeeping of
/// the function that returned it is right only once the pool has performed
/// the call.
#[must_use]
#[derive(Debug, Clone, Copy, PartialEq, Eq, Structural)]
pub enum Call {
    /// Allocate a segment with `length` bytes of payload. `layer` and `type_`
    /// are the pool's own hints and are passed on untouched.
    Alloc { layer: u32, length: u16, type_: u32 },
    /// Add one to the reference count of the segment at `pbuf`.
    Ref { pbuf: usize },
    /// Take one from the reference count of the segment at `pbuf`; the pool
    /// frees the segment when the count reaches zero.
    Free { pbuf: usize },
    /// Move the payload start of the segment at `pbuf` forward by
    /// `header_size` bytes, in place. The pool answers with a status, zero
    /// for success.
    RemoveHeader { pbuf: usize, header_size: usize },
    /// Shrink the reported length of the segment at `pbuf` to `new_len`,
    /// without reallocating.
    Realloc { pbuf: usize, new_len: u16 },
}

impl Call {
    /// The reference count of the segment at `pbuf` once the pool has
    /// performed this call, given that it was `count` before.
    pub open spec fn ref_count_after(self, pbuf: usize, count: int) -> int {
        match self {
            Call::Ref { pbuf: target } => if target == pbuf {
                count + 1
            } else {
                count
            },
            Call::Free { pbuf: target } => if target == pbuf {
                count - 1
            } else {
                count
            },
            _ => count,
        }
    }

    /// Whether the pool frees the segment at `pbuf` when it performs this
    /// call on a segment whose reference count was `count`.
    pub open spec fn frees(self, pbuf: usize, count: int) -> bool {
        self == (Call::Free { pbuf }) && count == 1
    }
}

} // verus!
