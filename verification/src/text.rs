//! String extraction: the bytes of guest memory from a start address up to,
//! and without, the first `$`.
//!
//! A backend may cut the range where the memory lies, or hand back all that
//! remains and leave the cut to the reader. Both give the same string.

use vstd::prelude::*;

verus! {

/// The byte `$`, which ends a printable string.
pub const SENTINEL: u8 = 0x24;

/// The least address from `start` on at which `memory` holds the sentinel, or
/// the length of `memory` where there is none.
pub open spec fn sentinel_bound(memory: Seq<u8>, start: int) -> int
    decreases memory.len() - start,
{
    if start < 0 || start >= memory.len() {
        memory.len() as int
    } else if memory[start] == SENTINEL {
        start
    } else {
        sentinel_bound(memory, start + 1)
    }
}

/// The string that starts at `start`: what `memory` holds from there up to
/// the sentinel's address, or up to its end.
pub open spec fn string_at(memory: Seq<u8>, start: int) -> Seq<u8> {
    memory.subrange(start, sentinel_bound(memory, start))
}

/// What a reader keeps of the bytes it was handed: those before the first
/// sentinel among them, or all of them.
pub open spec fn text_before_sentinel(read: Seq<u8>) -> Seq<u8> {
    read.take(sentinel_bound(read, 0))
}

/// Whether `bound` ends the string that starts at `start`: no sentinel lies
/// between the two, and `bound` is the end of `memory` or holds one.
pub open spec fn delimits(memory: Seq<u8>, start: int, bound: int) -> bool {
    &&& 0 <= start <= bound <= memory.len()
    &&& forall|address: int| start <= address < bound ==> memory[address] != SENTINEL
    &&& bound < memory.len() ==> memory[bound] == SENTINEL
}

/// The sentinel bound delimits the string.
pub proof fn sentinel_bound_delimits(memory: Seq<u8>, start: int)
    requires
        0 <= start <= memory.len(),
    ensures
        delimits(memory, start, sentinel_bound(memory, start)),
    decreases memory.len() - start,
{
    if start < memory.len() && memory[start] != SENTINEL {
        sentinel_bound_delimits(memory, start + 1);
    }
}

/// Only the sentinel bound delimits the string.
pub proof fn delimiter_is_sentinel_bound(memory: Seq<u8>, start: int, bound: int)
    requires
        delimits(memory, start, bound),
    ensures
        bound == sentinel_bound(memory, start),
    decreases bound - start,
{
    if start < bound {
        delimiter_is_sentinel_bound(memory, start + 1, bound);
    }
}

/// Both strategies give the same string. Cutting what was read from `start`
/// to the end of memory at its first sentinel yields exactly the range that
/// is bounded by the first sentinel's address in memory.
pub proof fn strategies_agree(memory: Seq<u8>, start: int)
    requires
        0 <= start <= memory.len(),
    ensures
        text_before_sentinel(memory.skip(start)) == string_at(memory, start),
{
    let read = memory.skip(start);
    let offset = sentinel_bound(read, 0);
    sentinel_bound_delimits(read, 0);
    assert(delimits(memory, start, start + offset)) by {
        assert forall|address: int| start <= address < start + offset implies memory[address]
            != SENTINEL by {
            assert(read[address - start] == memory[address]);
        }
        if start + offset < memory.len() {
            assert(read[offset] == memory[start + offset]);
        }
    }
    delimiter_is_sentinel_bound(memory, start, start + offset);
    assert(read.take(offset) =~= memory.subrange(start, start + offset));
}

/// Bytes without a sentinel are kept whole.
pub proof fn no_sentinel_keeps_all(read: Seq<u8>)
    requires
        forall|i: int| 0 <= i < read.len() ==> read[i] != SENTINEL,
    ensures
        text_before_sentinel(read) == read,
{
    delimiter_is_sentinel_bound(read, 0, read.len() as int);
    assert(read.take(read.len() as int) =~= read);
}

/// A string that is followed by a sentinel comes back without it, whatever
/// follows the sentinel.
pub proof fn sentinel_ends_string(text: Seq<u8>, rest: Seq<u8>)
    requires
        forall|i: int| 0 <= i < text.len() ==> text[i] != SENTINEL,
    ensures
        text_before_sentinel(text + seq![SENTINEL] + rest) == text,
{
    let read = text + seq![SENTINEL] + rest;
    assert(read[text.len() as int] == SENTINEL);
    assert forall|i: int| 0 <= i < text.len() implies read[i] != SENTINEL by {
        assert(read[i] == text[i]);
    }
    delimiter_is_sentinel_bound(read, 0, text.len() as int);
    assert(read.take(text.len() as int) =~= text);
}

/// Cuts bytes that were read from a start address onward at their first
/// sentinel: the string is scanned byte by byte until the sentinel is met.
pub fn extract_string(read: &Vec<u8>) -> (text: Vec<u8>)
    ensures
        text@ == text_before_sentinel(read@),
{
    let mut text: Vec<u8> = Vec::new();
    let mut i: usize = 0;
    while i < read.len() && read[i] != SENTINEL
        invariant
            i <= read@.len(),
            text@ == read@.take(i as int),
            forall|j: int| 0 <= j < i ==> read@[j] != SENTINEL,
        decreases read@.len() - i,
    {
        text.push(read[i]);
        i += 1;
        assert(text@ =~= read@.take(i as int));
    }
    proof {
        delimiter_is_sentinel_bound(read@, 0, i as int);
    }
    text
}

} // verus!
