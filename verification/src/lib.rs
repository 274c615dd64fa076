//! Core of a minimal bare-metal batch kernel: a resource-aware task
//! scheduler, an authoritative resource pool, a trap classifier, and the
//! batch run loop that ties them together. Hardware access (console,
//! control registers) lives outside this crate; everything here is pure
//! logic over plain values and is verified.

use vstd::prelude::*;

pub mod batch_system;
pub mod interrupts;
pub mod memory;
pub mod resource_manager;
pub mod scheduler;
pub mod task;

verus! {

use vstd::arithmetic::power2::{pow2, lemma_pow2_adds, lemma_pow2_strictly_increases, lemma2_to64};
use vstd::bits::{low_bits_mask, lemma_usize_low_bits_mask_is_mod, lemma_usize_pow2_no_overflow,
    lemma_usize_shl_is_mul};
use vstd::layout::unsigned_int_max_values;

/// The value `align_up` computes: `addr + align - 1` with the low bits of
/// the alignment mask cleared.
pub open spec fn spec_align_up(addr: usize, align: usize) -> usize
    recommends
        align >= 1,
        addr + align <= usize::MAX,
{
    (((addr + align - 1) as usize) & !((align - 1) as usize)) as usize
}

/// Rounds `addr` up to the next multiple of `align`.
///
/// The contract is definitional; `lemma_align_up_aligned` shows that for a
/// power-of-two `align` the result is the least aligned address at or above
/// `addr`.
pub fn align_up(addr: usize, align: usize) -> (r: usize)
    requires
        align >= 1,
        addr + align <= usize::MAX,
    ensures
        r == spec_align_up(addr, align),
{
    (addr + align - 1) & !(align - 1)
}

/// Holds of alignments the allocator accepts: a single set bit.
pub open spec fn is_power_of_two(align: usize) -> bool {
    align >= 1 && align & ((align - 1) as usize) == 0
}

/// A power of two is two raised to some exponent below the word width.
proof fn lemma_power_of_two_exponent(x: usize) -> (n: nat)
    requires
        is_power_of_two(x),
    ensures
        n < usize::BITS,
        x == pow2(n),
    decreases x,
{
    assert(usize::BITS == 32 || usize::BITS == 64);
    if x == 1 {
        lemma2_to64();
        0
    } else {
        assert(x % 2 == 0 && x / 2 >= 1 && (x / 2) & (((x / 2) - 1) as usize) == 0)
            by (bit_vector)
            requires
                x & ((x - 1) as usize) == 0,
                x >= 2,
        ;
        let m = lemma_power_of_two_exponent(x / 2);
        assert(pow2(m + 1) == 2 * pow2(m)) by {
            lemma_pow2_adds(m, 1);
            lemma2_to64();
        }
        assert(m + 1 < usize::BITS) by {
            unsigned_int_max_values();
            if m + 1 > usize::BITS {
                lemma_pow2_strictly_increases(usize::BITS as nat, m + 1);
            }
        }
        m + 1
    }
}

/// For a power-of-two alignment, `align_up` lands on a multiple of `align`
/// that is at or above `addr` and less than `addr + align`.
pub proof fn lemma_align_up_aligned(addr: usize, align: usize)
    requires
        is_power_of_two(align),
        addr + align <= usize::MAX,
    ensures
        spec_align_up(addr, align) as int % align as int == 0,
        addr <= spec_align_up(addr, align),
        spec_align_up(addr, align) <= addr + align - 1,
{
    let n = lemma_power_of_two_exponent(align);
    let k = n as usize;
    let r = spec_align_up(addr, align);
    assert(align == (1usize << k)) by {
        lemma_usize_pow2_no_overflow(n);
        lemma_usize_shl_is_mul(1, k);
    }
    assert(r & ((align - 1) as usize) == 0 && addr <= r <= addr + align - 1) by (bit_vector)
        requires
            align == (1usize << k),
            k < usize::BITS,
            r == (((addr + align - 1) as usize) & !((align - 1) as usize)),
            ((addr + align - 1) as usize) == addr + align - 1,
    ;
    assert(low_bits_mask(n) == align - 1);
    lemma_usize_low_bits_mask_is_mod(r, n);
}

/// Bump-style heap allocator state: hands out addresses from a fixed
/// region, never reclaims.
pub struct HeapAllocator {
    heap_start: usize,
    heap_end: usize,
}

impl HeapAllocator {
    /// Start of the unused part of the region.
    pub closed spec fn spec_heap_start(self) -> usize {
        self.heap_start
    }

    /// One past the last usable address of the region.
    pub closed spec fn spec_heap_end(self) -> usize {
        self.heap_end
    }

    pub fn new() -> (r: Self)
        ensures
            r.spec_heap_start() == 0,
            r.spec_heap_end() == 0,
    {
        HeapAllocator { heap_start: 0, heap_end: 0 }
    }

    pub fn init(&mut self, heap_start: usize, heap_size: usize)
        requires
            heap_start + heap_size <= usize::MAX,
        ensures
            final(self).spec_heap_start() == heap_start,
            final(self).spec_heap_end() == heap_start + heap_size,
    {
        self.heap_start = heap_start;
        self.heap_end = heap_start + heap_size;
    }

    /// Start of the unused part of the region, read back.
    pub fn heap_start(&self) -> (r: usize)
        ensures
            r == self.spec_heap_start(),
    {
        self.heap_start
    }

    /// One past the last usable address of the region, read back.
    pub fn heap_end(&self) -> (r: usize)
        ensures
            r == self.spec_heap_end(),
    {
        self.heap_end
    }

    /// Bump allocation: the next `size` bytes starting at the first
    /// `align`-aligned address of the unused region, or `None` when the
    /// region cannot hold them. Nothing is ever handed back.
    pub fn allocate(&mut self, size: usize, align: usize) -> (r: Option<usize>)
        requires
            is_power_of_two(align),
            old(self).spec_heap_start() + align <= usize::MAX,
        ensures
            ({
                let start = spec_align_up(old(self).spec_heap_start(), align);
                match r {
                    Some(a) => {
                        &&& a == start
                        &&& a as int % align as int == 0
                        &&& old(self).spec_heap_start() <= a
                        &&& a + size <= old(self).spec_heap_end()
                        &&& final(self).spec_heap_start() == a + size
                        &&& final(self).spec_heap_end() == old(self).spec_heap_end()
                    },
                    None => {
                        &&& start + size > old(self).spec_heap_end()
                        &&& *final(self) == *old(self)
                    },
                }
            }),
    {
        proof {
            lemma_align_up_aligned(self.heap_start, align);
        }
        let alloc_start = align_up(self.heap_start, align);
        let alloc_end = match alloc_start.checked_add(size) {
            Some(end) => end,
            None => {
                return None;
            },
        };
        if alloc_end <= self.heap_end {
            self.heap_start = alloc_end;
            Some(alloc_start)
        } else {
            None
        }
    }
}

} // verus!
