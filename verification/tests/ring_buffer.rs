use retrovert_core::index::Index;
use retrovert_core::index::GENERATION_STEP;
use retrovert_core::ring::RingBuffer;

#[test]
fn index_starts_at_zero() {
    let idx = Index::default();
    assert_eq!(idx.value, 0);
}

#[test]
fn index_add_and_get() {
    let mut idx = Index::default();
    idx.add(5);
    assert_eq!(idx.get(), 5);
    idx.add(7);
    assert_eq!(idx.get(), 12);
    assert_eq!(idx.value, 12);
}

#[test]
fn index_set_keeps_generation() {
    let mut idx = Index::default();
    idx.bump_generation();
    idx.set(3);
    assert_eq!(idx.get(), 3);
    assert_eq!(idx.value, GENERATION_STEP + 3);
}

#[test]
fn index_bump_generation_adds_one_lap() {
    let mut idx = Index::default();
    idx.set(9);
    idx.bump_generation();
    assert_eq!(idx.value, (1u64 << 32) + 9);
    assert_eq!(idx.get(), 9);
}

#[test]
fn ring_write_then_read_returns_same_bytes() {
    let mut ring = RingBuffer::new(16);
    let src = vec![1u8, 2, 3, 4, 5, 6, 7, 8, 9, 10];
    ring.write(&src, 10);
    assert_eq!(ring.used_bytes(), 10);
    let out = ring.read(10);
    assert_eq!(out, src);
    // indices return to equality
    assert_eq!(ring.used_bytes(), 0);
    assert_eq!(ring.read_index.value, ring.write_index.value);
}

#[test]
fn ring_write_prefix_only() {
    let mut ring = RingBuffer::new(16);
    let src = vec![9u8, 8, 7, 6];
    ring.write(&src, 2);
    assert_eq!(ring.used_bytes(), 2);
    assert_eq!(ring.read(2), vec![9u8, 8]);
}

#[test]
fn ring_wraps_past_the_end() {
    let mut ring = RingBuffer::new(8);
    ring.write(&vec![1u8, 2, 3, 4, 5, 6], 6);
    assert_eq!(ring.read(6), vec![1u8, 2, 3, 4, 5, 6]);
    // the next write crosses the buffer end: two-chunk copy, generation bump
    ring.write(&vec![7u8, 8, 9, 10, 11], 5);
    assert_eq!(ring.write_index.value >> 32, 1);
    assert_eq!(ring.write_index.value & 0xffff_ffff, 3);
    assert_eq!(ring.read(5), vec![7u8, 8, 9, 10, 11]);
    assert_eq!(ring.used_bytes(), 0);
    assert_eq!(ring.read_index.value, ring.write_index.value);
}

#[test]
fn ring_write_to_exact_end_bumps_generation() {
    let mut ring = RingBuffer::new(4);
    ring.write(&vec![1u8, 2, 3, 4], 4);
    // the write filled the buffer exactly: offset back to zero, one lap done
    assert_eq!(ring.write_index.value, 1u64 << 32);
    assert_eq!(ring.used_bytes(), 4);
    assert_eq!(ring.read(4), vec![1u8, 2, 3, 4]);
    assert_eq!(ring.read_index.value, ring.write_index.value);
}

#[test]
fn ring_interleaved_writes_and_reads_keep_order() {
    let mut ring = RingBuffer::new(8);
    let mut produced: Vec<u8> = Vec::new();
    let mut consumed: Vec<u8> = Vec::new();
    let mut next: u8 = 0;
    for step in 0..50 {
        let n = 1 + (step % 3);
        let mut chunk = Vec::new();
        for _ in 0..n {
            chunk.push(next);
            next = next.wrapping_add(1);
        }
        ring.write(&chunk, chunk.len());
        produced.extend_from_slice(&chunk);
        let got = ring.read(n);
        consumed.extend_from_slice(&got);
    }
    assert_eq!(ring.used_bytes(), 0);
    assert_eq!(consumed, produced);
    // the writer never fell behind the reader
    assert!(ring.write_index.value >= ring.read_index.value);
}
