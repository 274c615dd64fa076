//! Page-table entries and the page-frame bump allocator. Installing the
//! page table into the address-translation register is the platform
//! layer's job; the entry encoding and the allocation arithmetic are the
//! logic kept — and verified — here.

use vstd::prelude::*;

verus! {

/// Lowest address of the managed heap region.
pub const HEAP_START: usize = 0x80400000;

/// Size of the managed heap region in bytes.
pub const HEAP_SIZE: usize = 1024 * 1024;

/// Page size for the supported translation modes.
pub const PAGE_SIZE: usize = 4096;

/// Number of entries in one page table.
pub const PAGE_TABLE_ENTRIES: usize = 512;

/// One page-table entry: a physical page number, flag bits, and a valid
/// bit in the lowest position.
#[derive(Clone, Copy)]
pub struct PageTableEntry(u64);

impl PageTableEntry {
    /// The raw encoded value of the entry.
    pub closed spec fn spec_value(self) -> u64 {
        self.0
    }

    /// An entry is valid exactly when its lowest bit is set.
    pub open spec fn spec_is_valid(self) -> bool {
        self.spec_value() & 1 == 1
    }

    pub fn new_empty() -> (r: Self)
        ensures
            r.spec_value() == 0,
            !r.spec_is_valid(),
    {
        proof {
            assert(0u64 & 1 == 0) by (bit_vector);
        }
        PageTableEntry(0)
    }

    /// The raw encoded value, read back.
    pub fn value(&self) -> (r: u64)
        ensures
            r == self.spec_value(),
    {
        self.0
    }

    pub fn is_valid(&self) -> (r: bool)
        ensures
            r == self.spec_is_valid(),
    {
        self.0 & 1 == 1
    }

    /// Encodes the physical page number shifted into place, the flag
    /// bits, and the valid bit; the entry is valid afterwards.
    pub fn set_entry(&mut self, ppn: u64, flags: u64)
        ensures
            final(self).spec_value() == (ppn << 10) | flags | 1,
            final(self).spec_is_valid(),
    {
        self.0 = (ppn << 10) | flags | 1;
        proof {
            assert(((ppn << 10) | flags | 1) & 1 == 1) by (bit_vector);
        }
    }
}

/// A single-level page table: a fixed array of entries.
pub struct PageTable {
    entries: [PageTableEntry; 512],
}

impl PageTable {
    /// The encoded values of all entries, in order.
    pub closed spec fn spec_entries(self) -> Seq<PageTableEntry> {
        self.entries@
    }

    /// A table of invalid entries.
    pub fn new_empty() -> (r: Self)
        ensures
            r.spec_entries().len() == PAGE_TABLE_ENTRIES,
            forall|i: int|
                0 <= i < PAGE_TABLE_ENTRIES ==> !(#[trigger] r.spec_entries()[i]).spec_is_valid(),
    {
        let empty = PageTableEntry::new_empty();
        PageTable { entries: [empty; 512] }
    }

    /// The entry at `index`, read back.
    pub fn entry(&self, index: usize) -> (r: PageTableEntry)
        requires
            index < PAGE_TABLE_ENTRIES,
        ensures
            r == self.spec_entries()[index as int],
    {
        self.entries[index]
    }
}

/// Hands out whole pages from the region above the heap, bumping upward
/// and never reclaiming.
pub struct MemoryManager {
    next_free_page: usize,
}

impl MemoryManager {
    /// Address of the next page to hand out.
    pub closed spec fn spec_next_free_page(self) -> usize {
        self.next_free_page
    }

    pub fn new() -> (r: Self)
        ensures
            r.spec_next_free_page() == HEAP_START + HEAP_SIZE,
    {
        MemoryManager { next_free_page: HEAP_START + HEAP_SIZE }
    }

    /// The address of one fresh page; the bump pointer moves one page up.
    pub fn alloc_page(&mut self) -> (r: Option<usize>)
        requires
            old(self).spec_next_free_page() + PAGE_SIZE <= usize::MAX,
        ensures
            r == Some(old(self).spec_next_free_page()),
            final(self).spec_next_free_page() == old(self).spec_next_free_page() + PAGE_SIZE,
    {
        let page = self.next_free_page;
        self.next_free_page += PAGE_SIZE;
        Some(page)
    }
}

} // verus!
