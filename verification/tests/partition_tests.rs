use easy_async_opencl3::partition::{partition_work, WorkChunk};

fn chunk(queue_index: usize, offset: usize, size: usize) -> WorkChunk {
    WorkChunk { queue_index, offset, size }
}

#[test]
fn two_device_weighted_split() {
    // weights (3, 1) over 1024 items: 768 for the first queue, 256 for the second
    let chunks = partition_work(0, 1024, &vec![3, 1]);
    assert_eq!(chunks, vec![chunk(0, 0, 768), chunk(1, 768, 256)]);
}

#[test]
fn single_device_collapses_to_one_chunk() {
    let chunks = partition_work(0, 1024, &vec![5]);
    assert_eq!(chunks, vec![chunk(0, 0, 1024)]);
}

#[test]
fn zero_size_work_yields_no_chunks() {
    let chunks = partition_work(0, 0, &vec![1, 2, 3]);
    assert!(chunks.is_empty());
}

#[test]
fn last_active_device_takes_remainder() {
    // 10 items over equal weights: 3 + 3 + 4, nothing dropped
    let chunks = partition_work(0, 10, &vec![1, 1, 1]);
    assert_eq!(chunks, vec![chunk(0, 0, 3), chunk(1, 3, 3), chunk(2, 6, 4)]);
    let total: usize = chunks.iter().map(|c| c.size).sum();
    assert_eq!(total, 10);
}

#[test]
fn zero_weight_device_is_skipped() {
    let chunks = partition_work(0, 100, &vec![0, 1]);
    assert_eq!(chunks, vec![chunk(1, 0, 100)]);
}

#[test]
fn global_offset_shifts_every_chunk() {
    let chunks = partition_work(100, 10, &vec![1]);
    assert_eq!(chunks, vec![chunk(0, 100, 10)]);
}

#[test]
fn chunks_cover_domain_without_overlap() {
    let chunks = partition_work(7, 1000, &vec![5, 3, 9, 1]);
    let mut expected_offset = 7;
    for c in &chunks {
        assert_eq!(c.offset, expected_offset);
        assert!(c.size > 0);
        expected_offset += c.size;
    }
    assert_eq!(expected_offset, 1007);
}

#[test]
fn all_zero_weights_fall_to_last_device() {
    let chunks = partition_work(0, 64, &vec![0, 0]);
    assert_eq!(chunks, vec![chunk(1, 0, 64)]);
}
