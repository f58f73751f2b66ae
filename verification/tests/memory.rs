use uhyve::memory::{split_at_pages, MemoryChunk, MemoryError, PAGE_SIZE};

fn chunk(addr: u64, offset: usize, len: usize) -> MemoryChunk {
    MemoryChunk { addr, offset, len }
}

#[test]
fn page_size_is_four_kibibytes() {
    assert_eq!(PAGE_SIZE, 4096);
}

#[test]
fn empty_range_has_no_chunks() {
    assert_eq!(split_at_pages(0x1000, 0), Ok(vec![]));
    assert_eq!(split_at_pages(u64::MAX, 0), Ok(vec![]));
}

#[test]
fn range_within_a_page_is_one_chunk() {
    assert_eq!(split_at_pages(0x1000, 8), Ok(vec![chunk(0x1000, 0, 8)]));
    assert_eq!(split_at_pages(0x1ff8, 8), Ok(vec![chunk(0x1ff8, 0, 8)]));
    assert_eq!(split_at_pages(0x1000, 0x1000), Ok(vec![chunk(0x1000, 0, 0x1000)]));
}

#[test]
fn range_across_a_page_boundary_is_split_there() {
    assert_eq!(
        split_at_pages(0x1ff0, 0x20),
        Ok(vec![chunk(0x1ff0, 0, 0x10), chunk(0x2000, 0x10, 0x10)])
    );
    assert_eq!(
        split_at_pages(0x1fff, 2),
        Ok(vec![chunk(0x1fff, 0, 1), chunk(0x2000, 1, 1)])
    );
}

#[test]
fn range_over_several_pages() {
    assert_eq!(
        split_at_pages(0x0ffc, 0x2008),
        Ok(vec![
            chunk(0x0ffc, 0, 4),
            chunk(0x1000, 4, 0x1000),
            chunk(0x2000, 0x1004, 0x1000),
            chunk(0x3000, 0x2004, 4),
        ])
    );
}

#[test]
fn range_may_end_with_the_address_space() {
    assert_eq!(split_at_pages(u64::MAX, 1), Ok(vec![chunk(u64::MAX, 0, 1)]));
    assert_eq!(
        split_at_pages(u64::MAX - 0x1000, 0x1001),
        Ok(vec![chunk(u64::MAX - 0x1000, 0, 1), chunk(u64::MAX - 0xfff, 1, 0x1000)])
    );
}

#[test]
fn range_past_the_address_space_is_refused() {
    assert_eq!(split_at_pages(u64::MAX, 2), Err(MemoryError::AddressOverflow));
    assert_eq!(split_at_pages(u64::MAX - 7, 9), Err(MemoryError::AddressOverflow));
}

#[test]
fn chunks_tile_the_range() {
    for va in [0u64, 1, 0xfff, 0x1000, 0x1234, 0xffff_8000_0000_0ff0] {
        for len in [0usize, 1, 0xf, 0x10, 0x11, 0xfff, 0x1000, 0x1001, 0x2345, 0x5000] {
            let chunks = split_at_pages(va, len).unwrap();
            let mut offset = 0usize;
            for (k, c) in chunks.iter().enumerate() {
                assert!(c.len >= 1);
                assert_eq!(c.offset, offset);
                assert_eq!(c.addr, va + offset as u64);
                assert_eq!(c.addr / PAGE_SIZE, (c.addr + c.len as u64 - 1) / PAGE_SIZE);
                if k + 1 < chunks.len() {
                    assert_eq!((c.addr + c.len as u64) % PAGE_SIZE, 0);
                }
                offset += c.len;
            }
            assert_eq!(offset, len);
        }
    }
}
