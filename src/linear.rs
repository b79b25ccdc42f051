//! A model of a guest's linear memory as a sequence of bytes, and what copies
//! into it do.
use vstd::prelude::*;

verus! {

/// Whether `len` bytes starting at `offset` lie inside a memory of `size` bytes.
pub open spec fn in_bounds(size: nat, offset: int, len: nat) -> bool {
    0 <= offset && offset + len <= size
}

/// The memory `mem` after `bytes` are copied into it starting at `offset`.
pub open spec fn spliced(mem: Seq<u8>, offset: int, bytes: Seq<u8>) -> Seq<u8> {
    mem.subrange(0, offset) + bytes + mem.subrange(offset + bytes.len(), mem.len() as int)
}

/// The `len` bytes of `mem` that start at `offset`.
pub open spec fn window(mem: Seq<u8>, offset: int, len: nat) -> Seq<u8> {
    mem.subrange(offset, offset + len)
}

/// Whether the ranges `[a, a + alen)` and `[b, b + blen)` share no byte.
pub open spec fn disjoint(a: int, alen: nat, b: int, blen: nat) -> bool {
    a + alen <= b || b + blen <= a
}

/// A copy keeps the size of the memory, leaves every byte outside its range
/// as it was, and reading its range back yields the bytes copied.
pub proof fn lemma_copy_read_back(mem: Seq<u8>, offset: int, bytes: Seq<u8>)
    requires
        in_bounds(mem.len(), offset, bytes.len()),
    ensures
        spliced(mem, offset, bytes).len() == mem.len(),
        window(spliced(mem, offset, bytes), offset, bytes.len()) == bytes,
        forall|i: int|
            0 <= i < mem.len() && !(offset <= i < offset + bytes.len())
                ==> #[trigger] spliced(mem, offset, bytes)[i] == mem[i],
{
    let s = spliced(mem, offset, bytes);
    assert(window(s, offset, bytes.len()) =~= bytes);
}

/// Two copies into disjoint ranges of one memory corrupt neither: afterwards
/// each range reads back as the bytes copied into it.
pub proof fn lemma_disjoint_copies_kept(
    mem: Seq<u8>,
    first_offset: int,
    first: Seq<u8>,
    second_offset: int,
    second: Seq<u8>,
)
    requires
        in_bounds(mem.len(), first_offset, first.len()),
        in_bounds(mem.len(), second_offset, second.len()),
        disjoint(first_offset, first.len(), second_offset, second.len()),
    ensures
        window(
            spliced(spliced(mem, first_offset, first), second_offset, second),
            first_offset,
            first.len(),
        ) == first,
        window(
            spliced(spliced(mem, first_offset, first), second_offset, second),
            second_offset,
            second.len(),
        ) == second,
{
    lemma_copy_read_back(mem, first_offset, first);
    let m1 = spliced(mem, first_offset, first);
    lemma_copy_read_back(m1, second_offset, second);
    let m2 = spliced(m1, second_offset, second);
    assert(window(m2, first_offset, first.len()) =~= first) by {
        assert forall|k: int| 0 <= k < first.len() implies #[trigger] window(
            m2,
            first_offset,
            first.len(),
        )[k] == first[k] by {
            assert(m2[first_offset + k] == m1[first_offset + k]);
            assert(m1[first_offset + k] == window(m1, first_offset, first.len())[k]);
        }
    }
}

} // verus!
