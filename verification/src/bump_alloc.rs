//! The bump allocator that a `no_std` program uses as its global allocator:
//! it hands out aligned blocks from one fixed memory region, moving a
//! cursor forward, and never frees. Addresses are plain integers here; the
//! program that owns the memory turns them into pointers.
use vstd::prelude::*;
use vstd::arithmetic::div_mod::{lemma_mod_pos_bound, lemma_sub_mod_noop_right};
use vstd::arithmetic::power2::{pow2, lemma_pow2_pos};
use vstd::bits::{low_bits_mask, lemma_usize_low_bits_mask_is_mod};

verus! {

/// `a` is a power of two that a `usize` can hold: the alignments that a
/// memory layout can ask for.
pub open spec fn is_alignment(a: usize) -> bool {
    exists|k: nat| k < usize::BITS && #[trigger] pow2(k) == a
}

/// `x` rounded up to the next multiple of `a`: `x + a - 1` rounded down.
pub open spec fn align_up(x: int, a: int) -> int {
    (x + a - 1) - (x + a - 1) % a
}

/// The rounded-up address is a multiple of `a`, at least `x`, and less
/// than `x + a`.
pub proof fn lemma_align_up(x: int, a: int)
    requires
        x >= 0,
        a > 0,
    ensures
        align_up(x, a) % a == 0,
        x <= align_up(x, a) < x + a,
{
    let y = x + a - 1;
    lemma_mod_pos_bound(y, a);
    lemma_sub_mod_noop_right(y, y, a);
    assert((y - y) % a == 0);
}

/// An alignment is positive.
proof fn lemma_alignment_pos(a: usize)
    requires
        is_alignment(a),
    ensures
        a > 0,
{
    let k = choose|k: nat| k < usize::BITS && #[trigger] pow2(k) == a;
    lemma_pow2_pos(k);
}

/// Clearing the low bits of `y` below a power of two `a` rounds `y` down
/// to a multiple of `a`.
proof fn lemma_mask_rounds_down(y: usize, a: usize)
    requires
        is_alignment(a),
    ensures
        y & !((a - 1) as usize) == y - y % a,
{
    let k = choose|k: nat| k < usize::BITS && #[trigger] pow2(k) == a;
    lemma_pow2_pos(k);
    lemma_usize_low_bits_mask_is_mod(y, k);
    assert(low_bits_mask(k) == a - 1);
    let m = (a - 1) as usize;
    assert(y & !m == y - (y & m)) by (bit_vector);
}

/// Where a bump allocator whose cursor is at `cursor` and whose region ends
/// at `end` places a block of `size` bytes aligned to `align`: at the first
/// multiple of `align` from the cursor on, if the block ends within the
/// region; nowhere otherwise.
pub open spec fn bump_block(cursor: int, end: int, size: int, align: int) -> Option<int> {
    let p = align_up(cursor, align);
    if p + size <= end {
        Some(p)
    } else {
        None
    }
}

/// A bump allocator over the memory region `[heap_start, heap_end)`.
/// `next` is the first address not handed out yet.
pub struct BumpAllocator {
    heap_start: usize,
    heap_end: usize,
    next: usize,
}

impl BumpAllocator {
    /// First address of the region.
    pub closed spec fn start(&self) -> int {
        self.heap_start as int
    }

    /// Address just past the region.
    pub closed spec fn end(&self) -> int {
        self.heap_end as int
    }

    /// First address that no block handed out so far covers.
    pub closed spec fn cursor(&self) -> int {
        self.next as int
    }

    /// The cursor never leaves the region.
    #[verifier::type_invariant]
    closed spec fn inv(&self) -> bool {
        self.heap_start <= self.next <= self.heap_end
    }

    /// An allocator over the empty region at address 0: every request fails
    /// until [`BumpAllocator::init`] gives it memory.
    pub fn empty() -> (r: Self)
        ensures
            r.start() == 0,
            r.end() == 0,
            r.cursor() == 0,
    {
        BumpAllocator { heap_start: 0, heap_end: 0, next: 0 }
    }

    /// Hands the allocator the region of `heap_size` bytes at `heap_start`,
    /// forgetting every block handed out before.
    pub fn init(&mut self, heap_start: usize, heap_size: usize)
        requires
            heap_start + heap_size <= usize::MAX,
        ensures
            final(self).start() == heap_start,
            final(self).end() == heap_start + heap_size,
            final(self).cursor() == heap_start,
            final(self).start() <= final(self).cursor() <= final(self).end(),
    {
        *self = BumpAllocator { heap_start, heap_end: heap_start + heap_size, next: heap_start };
    }

    /// First address of the region.
    pub fn heap_start(&self) -> (r: usize)
        ensures
            r == self.start(),
    {
        self.heap_start
    }

    /// Address just past the region.
    pub fn heap_end(&self) -> (r: usize)
        ensures
            r == self.end(),
    {
        self.heap_end
    }

    /// First address that no block handed out so far covers.
    pub fn next(&self) -> (r: usize)
        ensures
            r == self.cursor(),
    {
        self.next
    }

    /// Hands out a block of `size` bytes aligned to `align`: the first
    /// multiple of `align` from the cursor on, if the block fits before the
    /// end of the region, and moves the cursor past it. Returns `None`, and
    /// changes nothing, when it does not fit.
    pub fn alloc_block(&mut self, size: usize, align: usize) -> (r: Option<usize>)
        requires
            is_alignment(align),
            old(self).cursor() + align - 1 <= usize::MAX,
            align_up(old(self).cursor(), align as int) + size <= usize::MAX,
        ensures
            final(self).start() == old(self).start(),
            final(self).end() == old(self).end(),
            final(self).start() <= final(self).cursor() <= final(self).end(),
            r matches Some(p) ==> bump_block(old(self).cursor(), old(self).end(), size as int, align as int) == Some(p as int),
            r is None ==> bump_block(old(self).cursor(), old(self).end(), size as int, align as int) is None,
            final(self).cursor() == match r {
                Some(p) => p + size,
                None => old(self).cursor(),
            },
            r matches Some(p) ==> {
                &&& p % align == 0
                &&& old(self).cursor() <= p
                &&& old(self).start() <= p
                &&& p + size <= old(self).end()
            },
    {
        proof {
            use_type_invariant(&*self);
            lemma_alignment_pos(align);
            lemma_align_up(self.next as int, align as int);
        }
        let current = self.next;
        let bumped = current + (align - 1);
        let alloc_start = bumped & !(align - 1);
        proof {
            lemma_mask_rounds_down(bumped, align);
        }
        let alloc_end = alloc_start + size;
        if alloc_end > self.heap_end {
            None
        } else {
            self.next = alloc_end;
            Some(alloc_start)
        }
    }
}

/// Every block that a bump allocator hands out lies inside its region and
/// starts on a multiple of its alignment.
pub proof fn lemma_block_in_region(start: int, cursor: int, end: int, size: int, align: int)
    requires
        0 <= start <= cursor <= end,
        size >= 0,
        align > 0,
        bump_block(cursor, end, size, align) is Some,
    ensures
        ({
            let p = bump_block(cursor, end, size, align)->0;
            &&& start <= p
            &&& p + size <= end
            &&& p % align == 0
        }),
{
    lemma_align_up(cursor, align);
}

/// Two blocks handed out one after the other do not overlap: the second
/// starts at or after the end of the first.
pub proof fn lemma_successive_blocks_disjoint(
    cursor: int,
    end: int,
    size1: int,
    align1: int,
    size2: int,
    align2: int,
)
    requires
        cursor >= 0,
        size1 >= 0,
        align1 > 0,
        align2 > 0,
        bump_block(cursor, end, size1, align1) is Some,
        bump_block(bump_block(cursor, end, size1, align1)->0 + size1, end, size2, align2) is Some,
    ensures
        bump_block(cursor, end, size1, align1)->0 + size1 <= bump_block(
            bump_block(cursor, end, size1, align1)->0 + size1,
            end,
            size2,
            align2,
        )->0,
{
    let p1 = bump_block(cursor, end, size1, align1)->0;
    lemma_align_up(cursor, align1);
    lemma_align_up(p1 + size1, align2);
}

/// The cursor only moves forward and never leaves the region: a request
/// either leaves it in place or moves it to the end of the block it hands
/// out, which lies after it and within the region.
pub proof fn lemma_cursor_moves_forward(start: int, cursor: int, end: int, size: int, align: int)
    requires
        0 <= start <= cursor <= end,
        size >= 0,
        align > 0,
    ensures
        bump_block(cursor, end, size, align) matches Some(p) ==> start <= cursor <= p + size <= end,
{
    lemma_align_up(cursor, align);
}

} // verus!
