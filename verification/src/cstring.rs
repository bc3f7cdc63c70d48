//! Text that ends at the first 0 byte.
//!
//! The protocol sets no limit on the length of such a text. Here the end of
//! the window is the limit: a text whose 0 does not come before it is
//! reported as missing its end, and never read past the window.

use vstd::prelude::*;
use vstd::slice::slice_subrange;
use crate::window::MemoryWindow;

verus! {

/// Whether `bytes` starts with `len` bytes other than 0, followed by a 0.
pub open spec fn terminated_at(bytes: Seq<u8>, len: int) -> bool {
    &&& 0 <= len < bytes.len()
    &&& bytes[len] == 0
    &&& forall|i: int| 0 <= i < len ==> bytes[i] != 0
}

/// Whether a text lies at address `ptr`: `ptr` is an address of the window,
/// and a 0 stands there or after it inside the window.
pub open spec fn has_cstring(mem: MemoryWindow, ptr: u64) -> bool {
    &&& mem.covers(ptr as int, 0)
    &&& mem.tail(ptr as int).contains(0u8)
}

/// The length of a text is determined: it ends at one place only.
pub proof fn lemma_terminated_at_unique(bytes: Seq<u8>, len1: int, len2: int)
    requires
        terminated_at(bytes, len1),
        terminated_at(bytes, len2),
    ensures
        len1 == len2,
{
    if len1 < len2 {
        assert(bytes[len1] != 0);
    } else if len2 < len1 {
        assert(bytes[len2] != 0);
    }
}

/// Scans the window from address `ptr` on and tells whether a text lies
/// there.
pub fn check_cstring(mem: &MemoryWindow, ptr: u64) -> (found: bool)
    ensures
        found == has_cstring(*mem, ptr),
{
    let start: usize = match mem.offset_of(ptr) {
        Some(offset) => offset,
        None => { return false; },
    };
    let total: usize = mem.bytes.len();
    let mut at: usize = start;
    while at < total && mem.bytes[at] != 0
        invariant
            start <= at <= total,
            total == mem.bytes@.len(),
            start == ptr - mem.base,
            forall|i: int| 0 <= i < at - start ==> mem.tail(ptr as int)[i] != 0,
        decreases total - at,
    {
        at += 1;
    }
    proof {
        if at < total {
            assert(mem.tail(ptr as int)[at - start] == 0);
        }
    }
    at < total
}

/// The text at address `ptr`, without its final 0, or nothing if the text
/// is empty.
pub fn read_cstring<'a>(mem: &MemoryWindow<'a>, ptr: u64) -> (text: Option<&'a [u8]>)
    requires
        has_cstring(*mem, ptr),
    ensures
        text is None <==> mem.byte_at(ptr as int) == 0,
        text matches Some(t) ==> {
            &&& terminated_at(mem.tail(ptr as int), t@.len() as int)
            &&& t@ == mem.span(ptr as int, t@.len() as int)
        },
{
    let start: usize = mem.offset(ptr);
    let total: usize = mem.bytes.len();
    let ghost end: int = mem.tail(ptr as int).index_of(0u8);
    assert(mem.tail(ptr as int)[end] == 0);
    if mem.bytes[start] == 0 {
        return None;
    }
    let mut len: usize = 0;
    while mem.bytes[start + len] != 0
        invariant
            0 <= len <= end < total - start,
            total == mem.bytes@.len(),
            start == ptr - mem.base,
            mem.tail(ptr as int)[end] == 0,
            forall|i: int| 0 <= i < len ==> mem.tail(ptr as int)[i] != 0,
        decreases end - len,
    {
        len += 1;
    }
    Some(slice_subrange(mem.bytes, start, start + len))
}

} // verus!
