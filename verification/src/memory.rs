//! Planning an access to guest memory.
//!
//! A range of guest virtual addresses need not be contiguous in guest
//! physical or in host memory, so the range is cut at page boundaries and
//! every piece is translated and copied on its own. This module computes
//! the pieces; translating and copying is the caller's part.

use vstd::prelude::*;

verus! {

/// Size of the smallest x86-64 page. Larger pages are multiples of it, so a
/// piece that stays within such a page stays within any page.
pub const PAGE_SIZE: u64 = 0x1000;

/// One piece of an access: `len` bytes at guest virtual address `addr`,
/// which belong at `offset` in the buffer of the whole access.
#[derive(Clone, Copy, Debug, PartialEq, Eq, Structural)]
pub struct MemoryChunk {
    pub addr: u64,
    pub offset: usize,
    pub len: usize,
}

/// Why an access cannot be planned.
#[derive(Clone, Copy, Debug, PartialEq, Eq, Structural)]
pub enum MemoryError {
    /// The range runs past the end of the 64-bit address space.
    AddressOverflow,
    /// The virtual CPU is not stopped, so the guest may be using its memory.
    VcpuNotStopped,
}

/// Number of bytes from `addr` to the end of its page.
pub open spec fn room_in_page(addr: int) -> int {
    PAGE_SIZE - addr % (PAGE_SIZE as int)
}

/// Length of the first piece of a range of `remaining` bytes at `addr`.
pub open spec fn first_chunk_len(addr: int, remaining: int) -> int {
    if remaining < room_in_page(addr) {
        remaining
    } else {
        room_in_page(addr)
    }
}

/// The pieces of the range of `remaining` bytes at `addr`, whose first byte
/// belongs at `offset` in the buffer: each piece runs to the end of its page
/// or of the range, whichever comes first.
pub open spec fn page_chunks(addr: int, offset: int, remaining: int) -> Seq<MemoryChunk>
    decreases remaining,
{
    if remaining <= 0 {
        Seq::empty()
    } else {
        let len = first_chunk_len(addr, remaining);
        seq![MemoryChunk { addr: addr as u64, offset: offset as usize, len: len as usize }]
            + page_chunks(addr + len, offset + len, remaining - len)
    }
}

/// Whether the range of `len` bytes at `va` ends within the address space.
pub open spec fn range_fits(va: u64, len: usize) -> bool {
    va + len <= 0x1_0000_0000_0000_0000
}

/// Cuts the range of `len` bytes at `va` at page boundaries. A range that
/// runs past the end of the address space is refused.
pub fn split_at_pages(va: u64, len: usize) -> (plan: Result<Vec<MemoryChunk>, MemoryError>)
    ensures
        match plan {
            Ok(chunks) => range_fits(va, len) && chunks@ == page_chunks(va as int, 0, len as int),
            Err(error) => !range_fits(va, len) && error == MemoryError::AddressOverflow,
        },
{
    if len > 0 && (len - 1) as u64 > u64::MAX - va {
        return Err(MemoryError::AddressOverflow);
    }
    let mut chunks: Vec<MemoryChunk> = Vec::new();
    let mut done: usize = 0;
    while done < len
        invariant
            done <= len,
            range_fits(va, len),
            chunks@ + page_chunks(va + done, done as int, len - done) == page_chunks(
                va as int,
                0,
                len as int,
            ),
        decreases len - done,
    {
        let addr: u64 = va + done as u64;
        let room: u64 = PAGE_SIZE - addr % PAGE_SIZE;
        let left: usize = len - done;
        let n: usize = if (left as u64) < room {
            left
        } else {
            room as usize
        };
        let ghost rest = page_chunks(addr + n, done + n, left - n);
        let chunk = MemoryChunk { addr, offset: done, len: n };
        assert(page_chunks(addr as int, done as int, left as int) == seq![chunk] + rest);
        assert(chunks@.push(chunk) + rest == chunks@ + (seq![chunk] + rest));
        chunks.push(chunk);
        done += n;
    }
    assert(page_chunks(va + done, done as int, 0) == Seq::<MemoryChunk>::empty());
    assert(chunks@ + Seq::<MemoryChunk>::empty() == chunks@);
    Ok(chunks)
}

/// What holds of piece `k` of a plan for `remaining` bytes at `addr`, with
/// the first byte at `offset` in the buffer.
pub open spec fn chunk_in_place(
    chunks: Seq<MemoryChunk>,
    k: int,
    addr: int,
    offset: int,
    remaining: int,
) -> bool {
    let chunk = chunks[k];
    &&& chunk.len >= 1
    &&& chunk.addr - addr == chunk.offset - offset
    &&& offset <= chunk.offset
    &&& chunk.offset + chunk.len <= offset + remaining
    &&& chunk.addr / PAGE_SIZE == (chunk.addr + chunk.len - 1) / (PAGE_SIZE as int)
    &&& k == 0 ==> chunk.offset == offset
    &&& k + 1 < chunks.len() ==> chunks[k + 1].offset == chunk.offset + chunk.len && (chunk.addr
        + chunk.len) % (PAGE_SIZE as int) == 0
    &&& k + 1 == chunks.len() ==> chunk.offset + chunk.len == offset + remaining
}

proof fn lemma_page_chunks(addr: int, offset: int, remaining: int)
    requires
        0 <= addr,
        0 <= offset,
        0 <= remaining,
        addr + remaining <= 0x1_0000_0000_0000_0000,
        offset + remaining <= usize::MAX,
    ensures
        remaining > 0 ==> page_chunks(addr, offset, remaining).len() > 0,
        remaining == 0 ==> page_chunks(addr, offset, remaining).len() == 0,
        forall|k: int|
            0 <= k < page_chunks(addr, offset, remaining).len() ==> #[trigger] chunk_in_place(
                page_chunks(addr, offset, remaining),
                k,
                addr,
                offset,
                remaining,
            ),
    decreases remaining,
{
    if remaining > 0 {
        let len = first_chunk_len(addr, remaining);
        let head = MemoryChunk { addr: addr as u64, offset: offset as usize, len: len as usize };
        let rest = page_chunks(addr + len, offset + len, remaining - len);
        let chunks = page_chunks(addr, offset, remaining);
        assert(chunks == seq![head] + rest);
        lemma_page_chunks(addr + len, offset + len, remaining - len);
        assert forall|k: int| 0 <= k < chunks.len() implies #[trigger] chunk_in_place(
            chunks,
            k,
            addr,
            offset,
            remaining,
        ) by {
            if k == 0 {
                assert(chunks[0] == head);
                if 1 < chunks.len() {
                    assert(chunks[1] == rest[0]);
                    assert(chunk_in_place(rest, 0, addr + len, offset + len, remaining - len));
                }
            } else {
                assert(chunks[k] == rest[k - 1]);
                assert(chunk_in_place(rest, k - 1, addr + len, offset + len, remaining - len));
                if k + 1 < chunks.len() {
                    assert(chunks[k + 1] == rest[k]);
                }
            }
        }
    }
}

/// The pieces of a plan follow one another without gap or overlap, in the
/// guest and in the buffer, from the first byte of the range to its last;
/// none is empty, none crosses a page boundary, and every piece but the last
/// ends where a page ends.
pub proof fn chunks_tile_the_range(va: u64, len: usize)
    requires
        range_fits(va, len),
    ensures
        len > 0 ==> page_chunks(va as int, 0, len as int).len() > 0,
        len == 0 ==> page_chunks(va as int, 0, len as int).len() == 0,
        forall|k: int|
            0 <= k < page_chunks(va as int, 0, len as int).len() ==> #[trigger] chunk_in_place(
                page_chunks(va as int, 0, len as int),
                k,
                va as int,
                0,
                len as int,
            ),
{
    lemma_page_chunks(va as int, 0, len as int);
}

/// A range that lies within one page is a single piece.
pub proof fn range_within_a_page_is_one_chunk(va: u64, len: usize)
    requires
        0 < len <= room_in_page(va as int),
    ensures
        page_chunks(va as int, 0, len as int) == seq![MemoryChunk { addr: va, offset: 0, len }],
{
    reveal_with_fuel(page_chunks, 2);
    assert(page_chunks(va as int, 0, len as int) =~= seq![MemoryChunk { addr: va, offset: 0, len }]);
}

} // verus!
