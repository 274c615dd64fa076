use batch_kernel::memory::{
    MemoryManager, PageTable, PageTableEntry, HEAP_SIZE, HEAP_START, PAGE_SIZE,
    PAGE_TABLE_ENTRIES,
};

#[test]
fn test_empty_entry_is_invalid() {
    let entry = PageTableEntry::new_empty();
    assert_eq!(entry.value(), 0);
    assert!(!entry.is_valid());
}

#[test]
fn test_set_entry_encoding() {
    let mut entry = PageTableEntry::new_empty();
    entry.set_entry(0x1000, 0xE);
    assert_eq!(entry.value(), (0x1000u64 << 10) | 0xE | 1);
    assert_eq!(entry.value(), 0x40_000F);
    assert!(entry.is_valid());
}

#[test]
fn test_set_entry_flags_only() {
    let mut entry = PageTableEntry::new_empty();
    entry.set_entry(0, 0);
    assert_eq!(entry.value(), 1);
    assert!(entry.is_valid());
}

#[test]
fn test_new_page_table_is_all_invalid() {
    let table = PageTable::new_empty();
    for i in 0..PAGE_TABLE_ENTRIES {
        assert!(!table.entry(i).is_valid());
    }
}

#[test]
fn test_alloc_page_bumps_by_page_size() {
    let mut manager = MemoryManager::new();
    let first = manager.alloc_page().unwrap();
    let second = manager.alloc_page().unwrap();
    assert_eq!(first, HEAP_START + HEAP_SIZE);
    assert_eq!(second, HEAP_START + HEAP_SIZE + PAGE_SIZE);
}
